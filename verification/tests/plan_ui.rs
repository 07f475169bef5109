use web::amount::Amount;
use web::plan_ui::{
    comparison_metric_label, health_question_label, history_metric_value, parse_variable_kind,
    variable_kind_label, ComparisonMetric, HealthQuestion, OutcomeMetrics, VariableCostKind,
    actual_metric, decimal_input, delta_text, direction_word, format_numeric_input, money,
    numeric_input_invalid, season_state, season_year_label,
};

#[test]
fn figures_have_two_decimals_and_thousands_separators() {
    assert_eq!(money(Amount { negative: false, magnitude: 834_600, scale: 0 }), "834,600.00");
    assert_eq!(money(Amount { negative: true, magnitude: 125, scale: 1 }), "-12.50");
}

#[test]
fn numeric_blur_formats_valid_values_and_preserves_invalid_text() {
    assert_eq!(format_numeric_input("12345.60"), "12,345.6");
    assert_eq!(format_numeric_input("สิบ"), "สิบ");
    assert!(numeric_input_invalid("สิบ"));
    assert!(!numeric_input_invalid("12,345.6"));
}

#[test]
fn season_cards_name_open_closed_latest_and_older_states() {
    assert_eq!(season_state(false, true).0, "กำลังทำ");
    assert_eq!(season_state(false, false).0, "ปีก่อน · ยังไม่ปิด");
    assert_eq!(season_state(true, true).0, "ปิดแล้ว");
    assert_eq!(season_state(true, false).0, "ปิดแล้ว");
}

#[test]
fn money_truncates_past_two_places_and_groups_long_figures() {
    assert_eq!(money(Amount { negative: false, magnitude: 1_234_567_891, scale: 3 }), "1,234,567.89");
    assert_eq!(money(Amount { negative: false, magnitude: 5, scale: 2 }), "0.05");
    assert_eq!(money(Amount { negative: true, magnitude: 100_000_000, scale: 0 }), "-100,000,000.00");
}

#[test]
fn blur_keeps_a_blank_field_blank_and_drops_trailing_zeros() {
    assert_eq!(format_numeric_input(" 1,000,000.000 "), "1,000,000");
    assert_eq!(format_numeric_input("-1234.5"), "-1,234.5");
    assert_eq!(format_numeric_input("   "), "   ");
    assert!(!numeric_input_invalid("   "));
}

#[test]
fn differences_are_said_as_higher_lower_or_equal() {
    let two_thousand = Amount { negative: true, magnitude: 2_000, scale: 0 };
    assert_eq!(direction_word(two_thousand, "ประมาณการ"), "ต่ำกว่าประมาณการ");
    assert_eq!(
        delta_text(Some(two_thousand), "กก.", "ประมาณการ"),
        "ต่ำกว่าประมาณการ 2,000.00 กก."
    );
    assert_eq!(
        direction_word(Amount { negative: false, magnitude: 0, scale: 0 }, "ปีก่อน"),
        "เท่ากับปีก่อน"
    );
    assert_eq!(delta_text(None, "บาท", "ปีก่อน"), "ยังเปรียบเทียบไม่ได้");
    assert_eq!(actual_metric(None, "บาท"), "ยังไม่มีข้อมูล");
    assert_eq!(
        actual_metric(Some(Amount { negative: false, magnitude: 4_500, scale: 2 }), "บาท/กก."),
        "45.00 บาท/กก."
    );
}

#[test]
fn stored_figures_fill_their_fields_without_trailing_zeros() {
    assert_eq!(decimal_input(Some(Amount { negative: false, magnitude: 3_100, scale: 3 })), "3.1");
    assert_eq!(decimal_input(None), "");
    assert_eq!(season_year_label(Some(2569)), "ฤดูกาล 2569");
    assert_eq!(season_year_label(None), "ยังไม่ระบุปี");
}

#[test]
fn cost_kinds_read_their_form_values_and_fall_back_to_other() {
    assert_eq!(parse_variable_kind("harvest-labor"), VariableCostKind::HarvestLabor);
    assert_eq!(parse_variable_kind("unknown"), VariableCostKind::Other);
    assert_eq!(variable_kind_label(VariableCostKind::Packing), "คัดแยก/บรรจุภัณฑ์");
}

#[test]
fn every_question_and_compared_figure_has_words() {
    for question in HealthQuestion::ALL {
        assert!(!health_question_label(question).is_empty());
    }
    assert_eq!(comparison_metric_label(ComparisonMetric::CostPerKg), ("ต้นทุนต่อกิโลกรัม", "บาท/กก."));
    let revenue = Amount { negative: false, magnitude: 1_600_000, scale: 0 };
    let metrics = OutcomeMetrics {
        sellable_yield_kg: None,
        revenue: Some(revenue),
        total_cost: None,
        profit: None,
        average_price_per_kg: None,
        cost_per_kg: None,
    };
    assert_eq!(history_metric_value(&metrics, ComparisonMetric::Revenue), Some(revenue));
    assert_eq!(history_metric_value(&metrics, ComparisonMetric::Profit), None);
    for metric in ComparisonMetric::ALL {
        assert!(!comparison_metric_label(metric).0.is_empty());
    }
}

#[test]
fn the_quick_result_waits_for_three_positive_answers() {
    let one = Some(web::amount::Amount { negative: false, magnitude: 1, scale: 0 });
    let zero = Some(web::amount::Amount { negative: false, magnitude: 0, scale: 0 });
    assert!(web::plan_ui::quick_result_available(one, one, one));
    assert!(!web::plan_ui::quick_result_available(one, zero, one));
    assert!(!web::plan_ui::quick_result_available(one, one, None));
    let loss = web::amount::Amount { negative: true, magnitude: 5, scale: 0 };
    assert_eq!(web::plan_ui::quick_profit_label(loss).0, "ขาดทุนโดยประมาณ");
    assert_eq!(web::plan_ui::quick_profit_label(zero.unwrap()).0, "กำไรโดยประมาณ");
}
