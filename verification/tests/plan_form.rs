use web::amount::Amount;
use web::plan_form::{
    field_belongs_to_section, first_error_message, optional_text, parse_decimal, parse_integer,
    parse_u32, parse_u8, section_errors_from, text, CashKind, FixedCostForm, FormError,
    GradeForm, PlanForm, PriceSource, VariableCostForm, YieldSource,
};
use web::plan_ui::VariableCostKind;

fn sample_form() -> PlanForm {
    let mut form = PlanForm::default();
    form.name = "ฤดู 2568".to_string();
    form.market.target_customer = "ล้ง".to_string();
    form.market.buyer_committed_kg = "12,000".to_string();
    form.production.yield_source = YieldSource::Direct;
    form.production.sellable_yield_kg = "15000".to_string();
    form.production.price_source = PriceSource::Average;
    form.production.average_price_per_kg = "120".to_string();
    form.grades.push(GradeForm {
        name: "AB".to_string(),
        share_percent: "70".to_string(),
        share_kg: String::new(),
        price_per_kg: "140".to_string(),
        counts_as_quality_grade: true,
    });
    form.variable_costs.push(VariableCostForm {
        name: "ปุ๋ย".to_string(),
        kind: VariableCostKind::Fertilizer,
        quantity: "40".to_string(),
        unit: "กระสอบ".to_string(),
        unit_price: "900".to_string(),
    });
    form.fixed_costs.push(FixedCostForm {
        name: "ค่าเช่า".to_string(),
        cash_kind: CashKind::Cash,
        amount_per_year: "30000".to_string(),
        investment_base: String::new(),
    });
    form.targets.yield_per_rai = "2500".to_string();
    form.health_scores = vec!["4".to_string(); 12];
    form
}

fn error(field: &str, message: &str) -> FormError {
    FormError { field: field.to_string(), message: message.to_string() }
}

#[test]
fn each_field_belongs_to_the_section_that_shows_it() {
    assert!(field_belongs_to_section("market.buyer_committed_kg", "market"));
    assert!(field_belongs_to_section("production.grades[0].share", "production"));
    assert!(field_belongs_to_section("variable_costs[2].quantity", "variable-costs"));
    assert!(field_belongs_to_section("fixed_costs[0].amount_per_year", "fixed-costs"));
    assert!(field_belongs_to_section("targets.cost_per_kg", "targets"));
    assert!(field_belongs_to_section("health_answers[11]", "health"));
    assert!(!field_belongs_to_section("production.area_rai", "market"));
    assert!(!field_belongs_to_section("market.sales_period", "unknown"));
}

#[test]
fn section_validation_keeps_only_the_visible_section_errors() {
    let errors = vec![
        error("production.area_rai", "กรุณากรอกเป็นตัวเลข"),
        error("market.sales_channels", "กรุณากรอกเป็นจำนวนเต็ม"),
        error("production.loss_share", "กรุณากรอกสัดส่วนระหว่าง 0 ถึง 100%"),
    ];
    assert!(section_errors_from(&errors, "targets").is_empty());
    let production = section_errors_from(&errors, "production");
    assert_eq!(production.len(), 2);
    assert_eq!(production[0].message, "กรุณากรอกเป็นตัวเลข");
    assert_eq!(production[1].field, "production.loss_share");
}

#[test]
fn whole_numbers_are_read_or_refused_by_field() {
    let mut errors = Vec::new();
    assert_eq!(parse_u32(" 12 ", "market.sales_channels", &mut errors), Some(12));
    assert_eq!(parse_u32("", "market.sales_channels", &mut errors), None);
    assert!(errors.is_empty());
    assert_eq!(parse_u8("300", "health_answers[0]", &mut errors), None);
    assert_eq!(errors, vec![error("health_answers[0]", "กรุณากรอกเป็นจำนวนเต็ม")]);
    assert_eq!(parse_integer("2.5", "x", &mut errors, 10), None);
    assert_eq!(errors.len(), 2);
    assert_eq!(parse_u8("5", "health_answers[1]", &mut errors), Some(5));
}

#[test]
fn decimals_are_read_with_separators_or_refused_by_field() {
    let mut errors = Vec::new();
    assert_eq!(
        parse_decimal(" 19,950 ", "production.sellable_yield_kg", &mut errors),
        Some(Amount { negative: false, magnitude: 19_950, scale: 0 })
    );
    assert_eq!(parse_decimal("   ", "production.area_rai", &mut errors), None);
    assert!(errors.is_empty());
    assert_eq!(parse_decimal("สิบไร่", "production.area_rai", &mut errors), None);
    assert_eq!(errors, vec![error("production.area_rai", "กรุณากรอกเป็นตัวเลข")]);
}

#[test]
fn blank_text_is_absent_and_absent_text_is_blank() {
    assert_eq!(optional_text("  ตลาดหน้าสวน "), Some("ตลาดหน้าสวน".to_string()));
    assert_eq!(optional_text(" \t "), None);
    assert_eq!(text(&None), "");
    assert_eq!(text(&Some("ขายส่ง".to_string())), "ขายส่ง");
}

#[test]
fn a_failed_save_names_the_first_field() {
    assert_eq!(first_error_message(&Vec::new()), "ข้อมูลยังไม่ถูกต้อง");
    assert_eq!(
        first_error_message(&vec![error("production.area_rai", "กรุณากรอกเป็นตัวเลข")]),
        "production.area_rai: กรุณากรอกเป็นตัวเลข"
    );
}

#[test]
fn replacing_one_section_preserves_every_other_section() {
    let mut stored = sample_form();
    let original_production = stored.production.clone();
    let original_grades = stored.grades.clone();
    let mut submitted = stored.clone();
    submitted.market.target_customer = "ตลาดหน้าสวน".into();
    submitted.production.area_rai = "ไม่ใช่ตัวเลข".into();

    assert!(stored.replace_section_from("market", &submitted));
    assert_eq!(stored.market.target_customer, "ตลาดหน้าสวน");
    assert_eq!(stored.production, original_production);
    assert_eq!(stored.grades, original_grades);
    assert!(!stored.replace_section_from("unknown", &submitted));
}

#[test]
fn the_production_section_brings_its_grades_and_nothing_else() {
    let mut stored = sample_form();
    let before = stored.clone();
    let mut submitted = PlanForm::default();
    submitted.production.area_rai = "20".to_string();
    submitted.name = "อื่น".to_string();

    assert!(stored.replace_section_from("production", &submitted));
    assert_eq!(stored.production, submitted.production);
    assert!(stored.grades.is_empty());
    assert_eq!(stored.name, before.name);
    assert_eq!(stored.market, before.market);
    assert_eq!(stored.variable_costs, before.variable_costs);
    assert_eq!(stored.fixed_costs, before.fixed_costs);
    assert_eq!(stored.targets, before.targets);
    assert_eq!(stored.health_scores, before.health_scores);
}

#[test]
fn each_section_name_replaces_only_its_own_lines() {
    let mut stored = sample_form();
    let submitted = PlanForm::default();
    assert!(stored.replace_section_from("variable-costs", &submitted));
    assert!(stored.variable_costs.is_empty());
    assert_eq!(stored.fixed_costs.len(), 1);
    assert!(stored.replace_section_from("fixed-costs", &submitted));
    assert!(stored.fixed_costs.is_empty());
    assert!(stored.replace_section_from("targets", &submitted));
    assert_eq!(stored.targets.yield_per_rai, "");
    assert!(stored.replace_section_from("health", &submitted));
    assert!(stored.health_scores.is_empty());
    assert_eq!(stored.market.target_customer, "ล้ง");
    assert!(!stored.replace_section_from("Market", &submitted));
}

#[test]
fn blank_cost_lines_start_as_other_and_cash() {
    let line = VariableCostForm::default();
    assert_eq!(line.kind, VariableCostKind::Other);
    assert!(line.name.is_empty());
    let fixed = FixedCostForm::default();
    assert_eq!(fixed.cash_kind, CashKind::Cash);
    assert!(fixed.amount_per_year.is_empty());
}
