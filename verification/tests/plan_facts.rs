use web::amount::Amount;
use web::plan_facts::{InputIssue, InputIssueKind};
use web::plan_form::{
    AnalysisFacts, GradeEntry, GradeForm, PlanForm, ReadinessTone, YieldSource,
    GRADE_KG_NEEDS_SELLABLE,
};

fn whole(n: u128) -> Amount {
    Amount { negative: false, magnitude: n, scale: 0 }
}

/// Whether two amounts are the same number.
fn same_value(a: Amount, b: Amount) -> bool {
    let (x, y) = if a.scale <= b.scale {
        (a.magnitude * 10u128.pow(b.scale - a.scale), b.magnitude)
    } else {
        (a.magnitude, b.magnitude * 10u128.pow(a.scale - b.scale))
    };
    x == y && (x == 0 || a.negative == b.negative)
}

fn grade(name: &str, percent: &str) -> GradeForm {
    GradeForm {
        name: name.to_string(),
        share_percent: percent.to_string(),
        share_kg: String::new(),
        price_per_kg: "100".to_string(),
        counts_as_quality_grade: false,
    }
}

fn sample() -> PlanForm {
    let mut form = PlanForm::default();
    form.name = " ฤดู 2568 ".to_string();
    form.market.buyer_committed_kg = "12,000".to_string();
    form.market.sales_channels = "2".to_string();
    form.market.largest_buyer_percent = "30".to_string();
    form.production.area_rai = "10".to_string();
    form.production.producing_trees = "200".to_string();
    form.production.fruits_per_tree = "35".to_string();
    form.production.average_fruit_weight_kg = "3".to_string();
    form.production.loss_percent = "5".to_string();
    form.grades = vec![grade("AB", "50"), grade("C", "20"), grade("ตกเกรด", "25"), grade("ตกไซซ์", "5")];
    form.targets.yield_per_rai = "2000".to_string();
    form.health_scores = vec!["4".to_string(); 12];
    form
}

#[test]
fn raw_text_becomes_the_plan_with_percentages_as_shares() {
    let form = sample();
    let (plan, errors) = form.read_plan(Some(whole(19_950)));
    assert!(errors.is_empty());
    assert_eq!(plan.name, "ฤดู 2568");
    assert_eq!(plan.market.buyer_committed_kg, Some(whole(12_000)));
    assert_eq!(plan.market.sales_channels, Some(2));
    assert!(same_value(plan.market.largest_buyer_share.unwrap(), Amount { negative: false, magnitude: 3, scale: 1 }));
    assert_eq!(plan.production.grades.len(), 4);
    assert!(same_value(plan.production.grades[0].share.unwrap(), Amount { negative: false, magnitude: 5, scale: 1 }));
    assert_eq!(plan.health_answers.len(), 12);
    assert_eq!(plan.health_answers[0].score, Some(4));
    assert_eq!(plan.production.sellable_yield_kg, None);
}

#[test]
fn invalid_typed_value_is_retained_for_correction() {
    let mut form = sample();
    form.production.area_rai = "สิบไร่".into();
    let errors = form.to_plan(None, &Vec::new()).expect_err("area is not a number");
    assert_eq!(errors[0].field, "production.area_rai");
    assert_eq!(errors[0].message, "กรุณากรอกเป็นตัวเลข");
    assert_eq!(form.production.area_rai, "สิบไร่");
}

#[test]
fn section_validation_ignores_invalid_values_outside_the_visible_section() {
    let mut form = sample();
    form.production.area_rai = "ไม่ใช่ตัวเลข".into();
    assert!(form.to_plan(None, &Vec::new()).is_err());
    assert!(form.section_errors("market", None, &Vec::new()).is_empty());
    assert_eq!(
        form.section_errors("production", None, &Vec::new())[0].message,
        "กรุณากรอกเป็นตัวเลข"
    );
}

#[test]
fn ten_grades_map_and_must_total_one_hundred_percent() {
    let mut form = sample();
    form.grades = (1..=10).map(|index| grade(&format!("เกรด {index}"), "10")).collect();
    assert!(same_value(form.grade_total_percent().unwrap(), whole(100)));
    let plan = form.to_plan(None, &Vec::new()).expect("valid mix");
    assert_eq!(plan.production.grades.len(), 10);

    form.grades[9].share_percent = "9".into();
    let issues = vec![InputIssue {
        field: "production.grades".to_string(),
        kind: InputIssueKind::GradeSharesDoNotTotalOne,
    }];
    let errors = form.to_plan(None, &issues).expect_err("99 percent must be rejected");
    assert!(errors.iter().any(|error| error.field == "production.grades"
        && error.message == "สัดส่วนทุกเกรดรวมกันต้องเท่ากับ 100%"));
    form.grade_entry = GradeEntry::Kilograms;
    let errors = form.to_plan(Some(whole(100)), &issues).expect_err("kilograms must add up");
    assert!(errors.iter().any(|error| error.message
        == "กิโลกรัมทุกเกรดรวมกันต้องเท่ากับกิโลที่คาดว่าจะขายได้"));
}

#[test]
fn kilogram_entry_is_unavailable_with_a_named_reason_until_sellable_is_known() {
    let mut form = PlanForm::default();
    form.grades.push(grade("A", "50"));

    assert!(!form.set_grade_entry(GradeEntry::Kilograms, None));
    assert_eq!(form.grade_entry, GradeEntry::Percent);

    form.grade_entry = GradeEntry::Kilograms;
    form.grades[0].share_kg = "100".into();
    let errors = form.to_plan(None, &Vec::new()).expect_err("kilograms cannot convert yet");
    assert!(errors.iter().any(|error| error.message == GRADE_KG_NEEDS_SELLABLE
        && error.field == "production.grades[0].share_kg"));
    assert!(!form.section_errors("production", None, &Vec::new()).is_empty());

    form.grade_entry = GradeEntry::Percent;
    form.production.yield_source = YieldSource::Direct;
    form.production.sellable_yield_kg = "0".into();
    assert!(!form.set_grade_entry(GradeEntry::Kilograms, Some(whole(0))));
}

#[test]
fn switching_the_grade_unit_converts_visibly_in_both_directions() {
    let mut form = sample();
    let sellable = Some(whole(19_950));
    let (percent_plan, _) = form.read_plan(sellable);
    assert!(form.set_grade_entry(GradeEntry::Kilograms, sellable));
    assert_eq!(form.grade_entry, GradeEntry::Kilograms);
    assert_eq!(form.grades[0].share_kg, "9975");
    assert_eq!(form.grades[3].share_kg, "997.5");
    let (kg_plan, errors) = form.read_plan(sellable);
    assert!(errors.is_empty());
    for (a, b) in kg_plan.production.grades.iter().zip(percent_plan.production.grades.iter()) {
        assert!(same_value(a.share.unwrap(), b.share.unwrap()));
    }

    form.grades[0].share_kg = "11970".into();
    form.grades[1].share_kg = "3990".into();
    assert!(form.set_grade_entry(GradeEntry::Percent, sellable));
    assert_eq!(form.grades[0].share_percent, "60");
    assert_eq!(form.grades[1].share_percent, "20");
    assert!(form.set_grade_entry(GradeEntry::Percent, None), "the same unit is no switch");
}

#[test]
fn an_overflowing_conversion_is_refused_without_changing_the_form() {
    let mut form = PlanForm::default();
    form.grades.push(grade("A", "79228162514264337593543950335"));
    let tiny = Some(Amount { negative: false, magnitude: 1, scale: 28 });
    let before = form.clone();
    assert_eq!(form.checked_set_grade_entry(GradeEntry::Kilograms, Some(whole(1_000_000))), None);
    assert_eq!(form, before);
    form.grade_entry = GradeEntry::Kilograms;
    form.grades[0].share_kg = "79228162514264337593543950335".into();
    assert!(form.checked_to_plan(tiny, &Vec::new()).is_none());
}

#[test]
fn the_unselected_branch_survives_the_form_round_trip() {
    let mut form = sample();
    form.production.yield_source = YieldSource::Direct;
    form.production.sellable_yield_kg = "18000".to_string();
    let (plan, errors) = form.read_plan(Some(whole(18_000)));
    assert!(errors.is_empty());
    let shown = PlanForm::from_plan(&plan, Some(whole(18_000)));
    assert_eq!(shown.production.producing_trees, "200");
    assert_eq!(shown.production.sellable_yield_kg, "18000");
    assert_eq!(shown.grades.len(), 4);
    assert_eq!(shown.grades[0].share_percent, "50");
    assert_eq!(shown.grades[0].share_kg, "9000");
    assert_eq!(shown.market.largest_buyer_percent, "30");
    assert_eq!(shown.market.buyer_committed_kg, "12000");
    assert_eq!(shown.health_scores, vec!["4".to_string(); 12]);
    let (again, errors) = shown.read_plan(Some(whole(18_000)));
    assert!(errors.is_empty());
    assert_eq!(again.name, plan.name);
    assert_eq!(again.production.producing_trees, plan.production.producing_trees);
    assert!(same_value(again.market.largest_buyer_share.unwrap(), plan.market.largest_buyer_share.unwrap()));
    assert_eq!(again.health_answers, plan.health_answers);
}

#[test]
fn section_state_is_derived_from_owner_input() {
    let mut form = sample();
    let known = AnalysisFacts {
        sellable_yield_known: true,
        market_fulfillment_known: true,
        weighted_price_known: true,
        variable_cost_known: false,
        fixed_cost_known: true,
    };
    assert_eq!(form.section_readiness("market", Some(known)).tone, ReadinessTone::Ready);
    assert_eq!(form.section_readiness("production", Some(known)).label, "พอคำนวณรายได้แล้ว");
    assert_eq!(form.section_readiness("variable-costs", Some(known)).tone, ReadinessTone::Missing);
    assert!(form.section_complete("fixed-costs", Some(known)));
    assert_eq!(form.section_readiness("health", Some(known)).tone, ReadinessTone::Ready);
    assert_eq!(form.section_readiness("targets", Some(known)).tone, ReadinessTone::Ready);
    assert_eq!(form.section_readiness("other", Some(known)).label, "ยังไม่มีสถานะ");
    assert_eq!(
        form.section_readiness("market", None).label,
        "มีข้อมูลที่ต้องตรวจในส่วนนี้"
    );

    form.market.buyer_committed_kg = "  ".to_string();
    form.targets.yield_per_rai.clear();
    form.health_scores[3].clear();
    assert_eq!(form.section_readiness("market", Some(known)).tone, ReadinessTone::Optional);
    assert_eq!(form.section_readiness("targets", Some(known)).tone, ReadinessTone::Optional);
    assert_eq!(form.section_readiness("health", Some(known)).tone, ReadinessTone::Optional);
}

#[test]
fn workbook_sample_round_trips_through_the_form_without_loss() {
    let mut form = sample();
    form.market.target_customer = " ล้ง ".to_string();
    form.market.minimum_price_per_kg = "95.50".to_string();
    form.targets.quality_grade_percent = "70".to_string();
    form.health_scores[5] = String::new();
    let sellable = Some(whole(19_950));
    let (plan, errors) = form.read_plan(sellable);
    assert!(errors.is_empty());
    let shown = PlanForm::from_plan(&plan, sellable);
    assert_eq!(PlanForm::checked_from_plan(&plan, sellable), Some(shown.clone()));
    assert_eq!(shown.market.target_customer, "ล้ง");
    assert_eq!(shown.market.minimum_price_per_kg, "95.5");
    assert_eq!(shown.health_scores[5], "");
    let again = shown.to_plan(sellable, &Vec::new()).expect("the written form reads back");
    assert_eq!(again.name, plan.name);
    assert_eq!(again.market.target_customer, plan.market.target_customer);
    assert!(same_value(again.market.minimum_price_per_kg.unwrap(), plan.market.minimum_price_per_kg.unwrap()));
    assert!(same_value(again.targets.quality_grade_share.unwrap(), plan.targets.quality_grade_share.unwrap()));
    for (a, b) in again.production.grades.iter().zip(plan.production.grades.iter()) {
        assert_eq!(a.name, b.name);
        assert!(same_value(a.share.unwrap(), b.share.unwrap()));
        assert!(same_value(a.price_per_kg.unwrap(), b.price_per_kg.unwrap()));
    }
    assert_eq!(again.health_answers, plan.health_answers);
    assert_eq!(again.health_answers.len(), 11);
}

#[test]
fn one_grade_is_shown_in_the_other_unit_beside_it() {
    let mut form = sample();
    let sellable = Some(whole(19_950));
    assert!(same_value(form.grade_kg_from_percent(0, sellable).unwrap(), whole(9_975)));
    assert_eq!(form.grade_kg_from_percent(0, None), None);
    assert_eq!(form.grade_kg_from_percent(9, sellable), None);
    form.grades[1].share_kg = "3,990".to_string();
    assert!(same_value(form.grade_percent_from_kg(1, sellable).unwrap(), whole(20)));
    assert_eq!(form.grade_percent_from_kg(1, Some(whole(0))), None);
    let (kg, percent) = form.checked_grade_units(1, sellable);
    assert_eq!(kg, Some(form.grade_kg_from_percent(1, sellable)));
    assert_eq!(percent, Some(form.grade_percent_from_kg(1, sellable)));
    form.grades[1].share_kg = "79228162514264337593543950335".to_string();
    let tiny = Some(Amount { negative: false, magnitude: 1, scale: 28 });
    let (kg, percent) = form.checked_grade_units(1, tiny);
    assert!(kg.is_some());
    assert_eq!(percent, None);
}

#[test]
fn grade_totals_add_what_is_typed_or_nothing() {
    let mut form = sample();
    assert!(same_value(form.grade_total_percent().unwrap(), whole(100)));
    assert_eq!(form.grade_total_kg(), None);
    for (g, kg) in form.grades.iter_mut().zip(["9,975", "3990", "4987.5", "997.5"]) {
        g.share_kg = kg.to_string();
    }
    assert!(same_value(
        form.grade_total_kg().unwrap(),
        Amount { negative: false, magnitude: 199_500, scale: 1 }
    ));
    form.grades[2].share_percent = "ยี่สิบห้า".to_string();
    assert_eq!(form.grade_total_percent(), None);
    form.grades = vec![grade("A", "79228162514264337593543950335"), grade("B", "1")];
    assert_eq!(form.checked_grade_totals(), None);
}

#[test]
fn a_plan_too_large_to_write_back_is_refused() {
    let (mut plan, _) = sample().read_plan(None);
    plan.market.largest_buyer_share =
        Some(Amount { negative: false, magnitude: 79_228_162_514_264_337_593_543_950_335, scale: 0 });
    assert_eq!(PlanForm::checked_from_plan(&plan, None), None);
}

#[test]
fn a_form_that_does_not_read_shows_a_value_to_check() {
    let mut form = sample();
    let facts = AnalysisFacts {
        sellable_yield_known: true,
        market_fulfillment_known: true,
        weighted_price_known: true,
        variable_cost_known: true,
        fixed_cost_known: true,
    };
    assert_eq!(form.section_readiness_of("targets", None, &Vec::new(), facts).tone, ReadinessTone::Ready);
    form.production.area_rai = "สิบไร่".to_string();
    assert_eq!(
        form.section_readiness_of("targets", None, &Vec::new(), facts).label,
        "มีข้อมูลที่ต้องตรวจในส่วนนี้"
    );
    assert_eq!(
        form.checked_section_readiness("targets", None, &Vec::new(), facts).map(|b| b.tone),
        Some(ReadinessTone::Missing)
    );
}

#[test]
fn switching_to_kilograms_is_refused_only_without_a_sellable_figure() {
    let mut form = sample();
    let before = form.clone();
    assert!(!form.set_grade_entry(GradeEntry::Kilograms, None));
    assert_eq!(form, before);
    assert!(!form.set_grade_entry(GradeEntry::Kilograms, Some(whole(0))));
    assert_eq!(form, before);
    assert!(form.set_grade_entry(GradeEntry::Percent, None));
    assert_eq!(form, before);
    assert!(form.set_grade_entry(GradeEntry::Kilograms, Some(whole(10))));
    assert_eq!(form.grade_entry, GradeEntry::Kilograms);
}

#[test]
fn converted_percentages_round_a_half_to_even() {
    let mut form = PlanForm::default();
    form.grade_entry = GradeEntry::Kilograms;
    form.grades = vec![grade("A", ""), grade("B", "")];
    form.grades[0].share_kg = "1".to_string();
    form.grades[1].share_kg = "3".to_string();
    assert!(form.set_grade_entry(GradeEntry::Percent, Some(whole(32))));
    assert_eq!(form.grades[0].share_percent, "3.12");
    assert_eq!(form.grades[1].share_percent, "9.38");
}
