use web::amount::Amount;
use web::plans::{
    forecast_mode, mode_destination, quick_field, quick_next_path, quick_resume_path,
    valid_actual_outcome, valid_actual_value, valid_name, valid_note, valid_quick_value,
    public_store_error, valid_season_year, ForecastMode, QuickInputField,
};
use web::auth::{StoreError, PUBLIC_SERVER_ERROR};

fn amount(magnitude: u128, scale: u32) -> Amount {
    Amount { negative: false, magnitude, scale }
}

#[test]
fn season_metadata_requires_a_four_digit_year_and_a_name() {
    assert_eq!(valid_season_year("2569").expect("valid year"), 2569);
    assert!(valid_season_year("69").is_err());
    assert!(valid_season_year("๒๕๖๙").is_err());
    assert_eq!(valid_name(" สวนรวม ").expect("valid name"), "สวนรวม");
    assert!(valid_name("   ").is_err());
}

#[test]
fn season_note_is_trimmed_and_bounded() {
    assert_eq!(valid_note(" บันทึก ").expect("valid note"), "บันทึก");
    assert!(valid_note(&"ก".repeat(2_001)).is_err());
}

#[test]
fn quick_values_are_positive_bounded_decimals_with_specific_errors() {
    assert_eq!(
        valid_quick_value(" 20,000.50 ", QuickInputField::SellableYieldKg).expect("valid yield"),
        amount(2_000_050, 2)
    );
    assert!(valid_quick_value("", QuickInputField::SellableYieldKg)
        .expect_err("blank fails")
        .to_string()
        .contains("กรุณากรอกผลผลิตที่ขายได้"));
    assert!(valid_quick_value("ศูนย์", QuickInputField::AveragePricePerKg)
        .expect_err("text fails")
        .to_string()
        .contains("ราคาขายเฉลี่ยต้องเป็นตัวเลข"));
    assert!(valid_quick_value("0", QuickInputField::TotalCost)
        .expect_err("zero fails")
        .to_string()
        .contains("ต้นทุนรวมต้องมากกว่า 0"));
    assert!(valid_quick_value("1000000000001", QuickInputField::TotalCost)
        .expect_err("technical upper bound fails")
        .to_string()
        .contains("สูงเกินขอบเขต"));
}

#[test]
fn actual_values_accept_real_zeroes_but_reject_missing_negative_and_extreme_values() {
    assert_eq!(
        valid_actual_value("0", "ผลผลิตจริง").expect("a zero-yield season is real"),
        amount(0, 0)
    );
    assert!(valid_actual_value("", "ผลผลิตจริง")
        .expect_err("blank fails")
        .to_string()
        .contains("กรุณากรอกผลผลิตจริง"));
    assert!(valid_actual_value("-1", "รายได้จริง")
        .expect_err("negative fails")
        .to_string()
        .contains("รายได้จริงต้องไม่ติดลบ"));
    assert!(valid_actual_value("1000000000001", "ต้นทุนจริง").is_err());
    assert!(valid_actual_outcome("1", "2", "3", &"ก".repeat(2_001)).is_err());
}

#[test]
fn quick_resume_uses_the_first_missing_answer_and_then_the_result() {
    assert_eq!(
        quick_resume_path(42, Some(QuickInputField::SellableYieldKg)),
        "/plans/42/quick/production"
    );
    assert_eq!(
        quick_resume_path(42, Some(QuickInputField::AveragePricePerKg)),
        "/plans/42/quick/price"
    );
    assert_eq!(quick_resume_path(42, Some(QuickInputField::TotalCost)), "/plans/42/quick/cost");
    assert_eq!(quick_resume_path(42, None), "/plans/42/quick/result");
}

#[test]
fn the_upper_bound_is_one_trillion_exactly_at_any_scale() {
    assert_eq!(
        valid_quick_value("1000000000000", QuickInputField::TotalCost).expect("at the bound"),
        amount(1_000_000_000_000, 0)
    );
    assert_eq!(
        valid_actual_value("1,000,000,000,000.00", "รายได้จริง").expect("at the bound"),
        amount(100_000_000_000_000, 2)
    );
    assert!(valid_actual_value("1000000000000.01", "รายได้จริง")
        .expect_err("past the bound")
        .contains("สูงเกินขอบเขตที่ระบบคำนวณได้"));
    assert!(valid_quick_value("-5", QuickInputField::TotalCost)
        .expect_err("negative")
        .contains("ต้นทุนรวมต้องมากกว่า 0"));
}

#[test]
fn a_reported_outcome_keeps_every_figure_and_the_trimmed_note() {
    let outcome = valid_actual_outcome("18,000", "1,440,000", "700000", "  ฝนมาช้า ").expect("valid");
    assert_eq!(outcome.sellable_yield_kg, amount(18_000, 0));
    assert_eq!(outcome.revenue, amount(1_440_000, 0));
    assert_eq!(outcome.total_cost, amount(700_000, 0));
    assert_eq!(outcome.note, "ฝนมาช้า");
    let error = valid_actual_outcome("ไม่รู้", "-1", "3", "").expect_err("the first refusal");
    assert_eq!(error, "ผลผลิตที่ขายได้จริงต้องเป็นตัวเลข");
}

#[test]
fn quick_steps_and_modes_are_named_by_their_words() {
    assert_eq!(quick_field("production"), Ok(QuickInputField::SellableYieldKg));
    assert_eq!(quick_field("price"), Ok(QuickInputField::AveragePricePerKg));
    assert_eq!(quick_field("cost"), Ok(QuickInputField::TotalCost));
    assert_eq!(quick_field("result"), Err("ไม่พบขั้นตอนประมาณการนี้".to_string()));
    assert_eq!(quick_next_path(7, QuickInputField::SellableYieldKg), "/plans/7/quick/price");
    assert_eq!(quick_next_path(7, QuickInputField::AveragePricePerKg), "/plans/7/quick/cost");
    assert_eq!(quick_next_path(7, QuickInputField::TotalCost), "/plans/7/quick/result");
    assert_eq!(forecast_mode("quick"), Ok(ForecastMode::Quick));
    assert_eq!(forecast_mode("detailed"), Ok(ForecastMode::Detailed));
    assert_eq!(forecast_mode("fast"), Err("โหมดประมาณการไม่ถูกต้อง".to_string()));
    assert_eq!(mode_destination(9, ForecastMode::Detailed, None), "/plans/9");
    assert_eq!(
        mode_destination(9, ForecastMode::Quick, Some(QuickInputField::TotalCost)),
        "/plans/9/quick/cost"
    );
}

#[test]
fn a_long_name_is_refused_and_a_year_with_spaces_is_read() {
    assert_eq!(valid_season_year(" 2570 "), Ok(2570));
    assert!(valid_season_year("25a9").is_err());
    assert!(valid_name(&"ก".repeat(121)).is_err());
    assert_eq!(valid_name(&"ก".repeat(120)).map(|name| name.chars().count()), Ok(120));
}

#[test]
fn season_store_refusals_are_named_for_the_owner() {
    assert_eq!(public_store_error(StoreError::NotFound), "ไม่พบฤดูกาลนี้");
    assert_eq!(public_store_error(StoreError::Closed), "ฤดูกาลนี้ปิดแล้วและแก้ไขไม่ได้");
    assert_eq!(
        public_store_error(StoreError::DuplicateSeasonYear),
        "มีฤดูกาลสำหรับปีนี้แล้ว กรุณาเลือกปีอื่น"
    );
    assert_eq!(public_store_error(StoreError::InvalidValue), PUBLIC_SERVER_ERROR);
}
