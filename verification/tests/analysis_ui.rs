use web::amount::Amount;
use web::analysis_ui::{
    check_label, check_status_label, dimension_label, has_positive_investment,
    health_status_label, absent_because, baht, money_or_absent, Decision, DecisionReadiness,
    DecisionState, kpi_is_share, kpi_label, payback_figure, percent, roi_figure, score,
    with_unit, CheckKind,
    CheckStatus, HealthDimension, HealthStatus, KpiKind, ABSENT, SECTION_TITLES,
};

fn amount(negative: bool, magnitude: u128, scale: u32) -> Amount {
    Amount { negative, magnitude, scale }
}

#[test]
fn an_absent_figure_is_named_rather_than_shown_as_zero() {
    assert_eq!(baht(None), ABSENT);
    assert_eq!(with_unit(None, "กก."), ABSENT);
    assert_eq!(score(None), ABSENT);
    assert_eq!(percent(None), ABSENT);
}

#[test]
fn a_ratio_is_shown_as_a_percentage() {
    assert_eq!(percent(Some(amount(false, 798, 3))), "79.80%");
}

#[test]
fn a_percentage_keeps_its_sign_and_shows_two_places() {
    assert_eq!(percent(Some(amount(true, 125, 4))), "-1.25%");
    assert_eq!(percent(Some(amount(false, 12_345_678, 6))), "1,234.56%");
    assert_eq!(percent(Some(amount(false, 3, 0))), "300.00%");
}

#[test]
fn the_return_on_investment_names_why_it_is_withheld() {
    assert_eq!(roi_figure(Some(amount(false, 25, 2)), None), Ok("25.00%".to_string()));
    assert_eq!(
        roi_figure(None, None),
        Err("กรอกเงินลงทุนอย่างน้อย 1 รายการ")
    );
    assert_eq!(
        roi_figure(None, Some(amount(false, 0, 0))),
        Err("กรอกเงินลงทุนอย่างน้อย 1 รายการ")
    );
    assert_eq!(roi_figure(None, Some(amount(false, 50_000, 0))), Err(ABSENT));
}

#[test]
fn a_health_average_is_shown_out_of_five() {
    assert_eq!(score(Some(amount(false, 30, 1))), "3.00/5");
}

#[test]
fn every_kpi_has_a_label_and_a_unit() {
    for kind in KpiKind::ALL {
        let (label, unit) = kpi_label(kind);
        assert!(!label.is_empty() && !unit.is_empty());
    }
    assert!(kpi_is_share(KpiKind::LossShare));
    assert!(!kpi_is_share(KpiKind::CostPerKg));
}

#[test]
fn every_check_routes_to_an_input_section_that_exists() {
    for kind in [
        CheckKind::GradeSharesTotalOne,
        CheckKind::SellableYieldPositive,
        CheckKind::PriceAboveVariableCost,
        CheckKind::InvestmentPositive,
        CheckKind::TotalCostLinked,
        CheckKind::HealthAnswersComplete,
    ] {
        let (_, _, section) = check_label(kind);
        assert!(
            SECTION_TITLES.iter().any(|(slug, _)| *slug == section),
            "{kind:?} routes to {section}, which is not an input section"
        );
    }
}

#[test]
fn outcomes_and_ratings_have_words_and_styles() {
    assert_eq!(check_status_label(CheckStatus::Warning), ("ยังไม่ใช่ ควรตรวจ", "status warning"));
    assert_eq!(health_status_label(HealthStatus::Strong).1, "status good");
    assert_eq!(dimension_label(HealthDimension::Resilience), "ความทนทาน");
}

#[test]
fn payback_is_withheld_with_the_reason_that_applies() {
    let base = Some(amount(false, 500_000, 0));
    assert_eq!(payback_figure(Some(amount(false, 25, 1)), base, None), Ok("2.50 ปี".to_string()));
    assert_eq!(
        payback_figure(None, Some(amount(false, 0, 0)), None),
        Err("กรอกเงินลงทุนอย่างน้อย 1 รายการ")
    );
    assert_eq!(
        payback_figure(None, base, Some(amount(true, 10, 0))),
        Err("ยังคืนทุนไม่ได้ เพราะกระแสเงินสดไม่เป็นบวก")
    );
    assert_eq!(payback_figure(None, base, Some(amount(false, 10, 0))), Err(ABSENT));
    assert!(has_positive_investment(base));
    assert!(!has_positive_investment(None));
}

#[test]
fn an_amount_is_whole_baht_with_thousands_separators() {
    assert_eq!(baht(Some(amount(false, 83_460_012, 2))), "834,600 บาท");
    assert_eq!(baht(Some(amount(false, 83_460_050, 2))), "834,601 บาท");
}

#[test]
fn whole_baht_keep_the_sign_and_small_sums_ungrouped() {
    assert_eq!(baht(Some(amount(true, 12_345_675, 1))), "-1,234,568 บาท");
    assert_eq!(money_or_absent(Some(amount(false, 999, 0))), "999");
    assert_eq!(money_or_absent(Some(amount(true, 4, 1))), "0");
    assert_eq!(money_or_absent(None), ABSENT);
}

#[test]
fn an_absent_decision_names_what_it_lacks() {
    let decisions = vec![
        DecisionReadiness { decision: Decision::FirstEstimate, state: DecisionState::Ready },
        DecisionReadiness {
            decision: Decision::CashView,
            state: DecisionState::Missing {
                question: "ต้นทุนคงที่".to_string(),
                section: "fixed-costs".to_string(),
            },
        },
        DecisionReadiness {
            decision: Decision::MarketComparison,
            state: DecisionState::Optional { unlock: "ยอดที่ผู้ซื้ออยากได้".to_string() },
        },
    ];
    assert_eq!(absent_because(&decisions, Decision::FirstEstimate), None);
    assert_eq!(absent_because(&decisions, Decision::CashView), Some("ยังขาด: ต้นทุนคงที่".to_string()));
    assert_eq!(
        absent_because(&decisions, Decision::MarketComparison),
        Some("เพิ่มได้: ยอดที่ผู้ซื้ออยากได้".to_string())
    );
    assert_eq!(absent_because(&decisions, Decision::HealthSelfReview), None);
}
