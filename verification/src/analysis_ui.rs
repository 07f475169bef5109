//! How the analysis screens name what the calculation produced: each
//! figure's label and unit, each completeness rule's question and the input
//! that settles it, and when a figure must be withheld.

use vstd::prelude::*;
use crate::amount::{decimal_times_hundred, decimal_two_places, times_hundred, Amount};
use crate::plan_ui::{baht_amount, baht_amount_words, money, money_shape};
use crate::text::{chars_of, push_str, string_of};

verus! {

/// Shown wherever a figure cannot be computed from what the owner entered.
pub const ABSENT: &'static str = "ยังไม่มีข้อมูล";

/// The input sections a rule can route to, with their titles.
pub const SECTION_TITLES: [(&'static str, &'static str); 5] = [
    ("market", "ตลาด"),
    ("production", "ผลผลิตและเกรด"),
    ("variable-costs", "ต้นทุนผันแปร"),
    ("fixed-costs", "ต้นทุนคงที่"),
    ("health", "สุขภาพสวน"),
];

/// The nine efficiency figures compared against the owner's targets.
#[derive(Clone, Copy, Debug, PartialEq, Eq, Structural)]
pub enum KpiKind {
    YieldPerRai,
    YieldPerTree,
    YieldPerLaborDay,
    YieldPerFertilizerKg,
    YieldPerWaterCubicMeter,
    YieldPerKwh,
    QualityGradeShare,
    LossShare,
    CostPerKg,
}

impl KpiKind {
    pub const ALL: [KpiKind; 9] = [
        KpiKind::YieldPerRai,
        KpiKind::YieldPerTree,
        KpiKind::YieldPerLaborDay,
        KpiKind::YieldPerFertilizerKg,
        KpiKind::YieldPerWaterCubicMeter,
        KpiKind::YieldPerKwh,
        KpiKind::QualityGradeShare,
        KpiKind::LossShare,
        KpiKind::CostPerKg,
    ];
}
/// The completeness rules a plan is checked against.
#[derive(Clone, Copy, Debug, PartialEq, Eq, Structural)]
pub enum CheckKind {
    GradeSharesTotalOne,
    SellableYieldPositive,
    PriceAboveVariableCost,
    InvestmentPositive,
    TotalCostLinked,
    HealthAnswersComplete,
}
/// How a completeness rule came out.
#[derive(Clone, Copy, Debug, PartialEq, Eq, Structural)]
pub enum CheckStatus {
    Satisfied,
    Warning,
    NeedsCheck,
}
/// The six dimensions of the orchard's self-assessment.
#[derive(Clone, Copy, Debug, PartialEq, Eq, Structural)]
pub enum HealthDimension {
    Finance,
    Production,
    Market,
    Resources,
    People,
    Resilience,
}
/// How the owner rated a dimension.
#[derive(Clone, Copy, Debug, PartialEq, Eq, Structural)]
pub enum HealthStatus {
    Strong,
    Watch,
    ImproveUrgently,
}
pub open spec fn spec_kpi_label(value: KpiKind) -> (&'static str, &'static str) {
    match value {
        KpiKind::YieldPerRai => ("ผลผลิตต่อไร่", "กก./ไร่"),
        KpiKind::YieldPerTree => ("ผลผลิตต่อต้น", "กก./ต้น"),
        KpiKind::YieldPerLaborDay => ("ผลผลิตต่อวันแรงงาน", "กก./วัน"),
        KpiKind::YieldPerFertilizerKg => ("ผลผลิตต่อปุ๋ย", "กก./กก."),
        KpiKind::YieldPerWaterCubicMeter => ("ผลผลิตต่อน้ำ", "กก./ลบ.ม."),
        KpiKind::YieldPerKwh => ("ผลผลิตต่อไฟฟ้า", "กก./kWh"),
        KpiKind::QualityGradeShare => ("สัดส่วนเกรดคุณภาพ", "%"),
        KpiKind::LossShare => ("สัดส่วนสูญเสีย", "%"),
        KpiKind::CostPerKg => ("ต้นทุนต่อกิโลกรัม", "บาท/กก."),
    }
}

/// A figure's name and its unit.
pub fn kpi_label(value: KpiKind) -> (r: (&'static str, &'static str))
    ensures
        r == spec_kpi_label(value),
{
    match value {
        KpiKind::YieldPerRai => ("ผลผลิตต่อไร่", "กก./ไร่"),
        KpiKind::YieldPerTree => ("ผลผลิตต่อต้น", "กก./ต้น"),
        KpiKind::YieldPerLaborDay => ("ผลผลิตต่อวันแรงงาน", "กก./วัน"),
        KpiKind::YieldPerFertilizerKg => ("ผลผลิตต่อปุ๋ย", "กก./กก."),
        KpiKind::YieldPerWaterCubicMeter => ("ผลผลิตต่อน้ำ", "กก./ลบ.ม."),
        KpiKind::YieldPerKwh => ("ผลผลิตต่อไฟฟ้า", "กก./kWh"),
        KpiKind::QualityGradeShare => ("สัดส่วนเกรดคุณภาพ", "%"),
        KpiKind::LossShare => ("สัดส่วนสูญเสีย", "%"),
        KpiKind::CostPerKg => ("ต้นทุนต่อกิโลกรัม", "บาท/กก."),
    }
}

pub open spec fn spec_kpi_is_share(kind: KpiKind) -> bool {
    kind == KpiKind::QualityGradeShare || kind == KpiKind::LossShare
}

/// Whether a figure is a share, shown as a percentage.
pub fn kpi_is_share(kind: KpiKind) -> (r: bool)
    ensures
        r == spec_kpi_is_share(kind),
{
    match kind {
        KpiKind::QualityGradeShare | KpiKind::LossShare => true,
        _ => false,
    }
}
pub open spec fn spec_check_label(value: CheckKind) -> (&'static str, &'static str, &'static str) {
    match value {
        CheckKind::GradeSharesTotalOne => ("สัดส่วนเกรดรวมกันครบ 100% ไหม", "สัดส่วนเกรดรวมได้ 100%", "production"),
        CheckKind::SellableYieldPositive => ("มีกิโลที่จะขายได้มากกว่าศูนย์ไหม", "ผลผลิตขายได้เป็นบวก", "production"),
        CheckKind::PriceAboveVariableCost => ("ขายได้กิโลละมากกว่าที่จ่ายต่อกิโลไหม", "ราคาขายสูงกว่าต้นทุนผันแปรต่อหน่วย", "variable-costs"),
        CheckKind::InvestmentPositive => ("มีเงินก้อนที่ลงไปอย่างน้อย 1 รายการไหม", "ฐานเงินลงทุนเป็นบวก", "fixed-costs"),
        CheckKind::TotalCostLinked => ("ยอดรวมค่าใช้จ่ายมาจากรายการที่กรอกไหม", "ต้นทุนรวมเชื่อมกับรายการ", "variable-costs"),
        CheckKind::HealthAnswersComplete => ("ตอบแบบประเมินสวนครบ 12 ข้อไหม", "คำตอบสุขภาพธุรกิจครบ", "health"),
    }
}

/// The plain question a rule asks, the formal name of the rule, and the
/// input section that would change it.
pub fn check_label(value: CheckKind) -> (r: (&'static str, &'static str, &'static str))
    ensures
        r == spec_check_label(value),
{
    match value {
        CheckKind::GradeSharesTotalOne => ("สัดส่วนเกรดรวมกันครบ 100% ไหม", "สัดส่วนเกรดรวมได้ 100%", "production"),
        CheckKind::SellableYieldPositive => ("มีกิโลที่จะขายได้มากกว่าศูนย์ไหม", "ผลผลิตขายได้เป็นบวก", "production"),
        CheckKind::PriceAboveVariableCost => ("ขายได้กิโลละมากกว่าที่จ่ายต่อกิโลไหม", "ราคาขายสูงกว่าต้นทุนผันแปรต่อหน่วย", "variable-costs"),
        CheckKind::InvestmentPositive => ("มีเงินก้อนที่ลงไปอย่างน้อย 1 รายการไหม", "ฐานเงินลงทุนเป็นบวก", "fixed-costs"),
        CheckKind::TotalCostLinked => ("ยอดรวมค่าใช้จ่ายมาจากรายการที่กรอกไหม", "ต้นทุนรวมเชื่อมกับรายการ", "variable-costs"),
        CheckKind::HealthAnswersComplete => ("ตอบแบบประเมินสวนครบ 12 ข้อไหม", "คำตอบสุขภาพธุรกิจครบ", "health"),
    }
}
pub open spec fn spec_check_status_label(value: CheckStatus) -> (&'static str, &'static str) {
    match value {
        CheckStatus::Satisfied => ("ใช่", "status good"),
        CheckStatus::Warning => ("ยังไม่ใช่ ควรตรวจ", "status warning"),
        CheckStatus::NeedsCheck => ("ยังตรวจไม่ได้", "status muted"),
    }
}

/// The words and the style a rule's outcome is shown in.
pub fn check_status_label(value: CheckStatus) -> (r: (&'static str, &'static str))
    ensures
        r == spec_check_status_label(value),
{
    match value {
        CheckStatus::Satisfied => ("ใช่", "status good"),
        CheckStatus::Warning => ("ยังไม่ใช่ ควรตรวจ", "status warning"),
        CheckStatus::NeedsCheck => ("ยังตรวจไม่ได้", "status muted"),
    }
}
pub open spec fn spec_dimension_label(value: HealthDimension) -> &'static str {
    match value {
        HealthDimension::Finance => "การเงิน",
        HealthDimension::Production => "ผลผลิต",
        HealthDimension::Market => "ตลาด",
        HealthDimension::Resources => "ทรัพยากร",
        HealthDimension::People => "คน",
        HealthDimension::Resilience => "ความทนทาน",
    }
}

/// What a dimension is called.
pub fn dimension_label(value: HealthDimension) -> (r: &'static str)
    ensures
        r == spec_dimension_label(value),
{
    match value {
        HealthDimension::Finance => "การเงิน",
        HealthDimension::Production => "ผลผลิต",
        HealthDimension::Market => "ตลาด",
        HealthDimension::Resources => "ทรัพยากร",
        HealthDimension::People => "คน",
        HealthDimension::Resilience => "ความทนทาน",
    }
}
pub open spec fn spec_health_status_label(value: HealthStatus) -> (&'static str, &'static str) {
    match value {
        HealthStatus::Strong => ("ให้คะแนนตัวเองสูง", "status good"),
        HealthStatus::Watch => ("ให้คะแนนตัวเองปานกลาง", "status muted"),
        HealthStatus::ImproveUrgently => ("ให้คะแนนตัวเองต่ำ", "status warning"),
    }
}

/// The words and the style a dimension's rating is shown in.
pub fn health_status_label(value: HealthStatus) -> (r: (&'static str, &'static str))
    ensures
        r == spec_health_status_label(value),
{
    match value {
        HealthStatus::Strong => ("ให้คะแนนตัวเองสูง", "status good"),
        HealthStatus::Watch => ("ให้คะแนนตัวเองปานกลาง", "status muted"),
        HealthStatus::ImproveUrgently => ("ให้คะแนนตัวเองต่ำ", "status warning"),
    }
}

/// A figure with its unit, or the word for an absent figure.
pub open spec fn unit_figure_words(value: Option<Amount>, unit: Seq<char>) -> Seq<char> {
    match value {
        Some(v) => money_shape(decimal_two_places(v)) + " "@ + unit,
        None => ABSENT@,
    }
}

pub fn with_unit(value: Option<Amount>, unit: &str) -> (r: String)
    requires
        value matches Some(v) ==> v.wf(),
    ensures
        r@ == unit_figure_words(value, unit@),
{
    match value {
        Some(v) => {
            let m = money(v);
            let mut out = chars_of(m.as_str());
            push_str(&mut out, " ");
            push_str(&mut out, unit);
            string_of(&out)
        },
        None => {
            let out = chars_of(ABSENT);
            string_of(&out)
        },
    }
}

/// A health average out of five, or the word for an absent figure.
pub open spec fn score_words(value: Option<Amount>) -> Seq<char> {
    match value {
        Some(v) => money_shape(decimal_two_places(v)) + "/5"@,
        None => ABSENT@,
    }
}

pub fn score(value: Option<Amount>) -> (r: String)
    requires
        value matches Some(v) ==> v.wf(),
    ensures
        r@ == score_words(value),
{
    match value {
        Some(v) => {
            let m = money(v);
            let mut out = chars_of(m.as_str());
            push_str(&mut out, "/5");
            string_of(&out)
        },
        None => {
            let out = chars_of(ABSENT);
            string_of(&out)
        },
    }
}

/// A sum in whole baht with its unit, or the word for an absent figure.
pub open spec fn baht_words(value: Option<Amount>) -> Seq<char> {
    match value {
        Some(v) => baht_amount_words(v) + " บาท"@,
        None => ABSENT@,
    }
}

pub fn baht(value: Option<Amount>) -> (r: String)
    requires
        value matches Some(v) ==> v.wf(),
    ensures
        r@ == baht_words(value),
{
    match value {
        Some(v) => {
            let m = baht_amount(v);
            let mut out = chars_of(m.as_str());
            push_str(&mut out, " บาท");
            string_of(&out)
        },
        None => {
            let out = chars_of(ABSENT);
            string_of(&out)
        },
    }
}

/// A sum in whole baht without its unit, or the word for an absent figure.
pub open spec fn bare_baht_words(value: Option<Amount>) -> Seq<char> {
    match value {
        Some(v) => baht_amount_words(v),
        None => ABSENT@,
    }
}

pub fn money_or_absent(value: Option<Amount>) -> (r: String)
    requires
        value matches Some(v) ==> v.wf(),
    ensures
        r@ == bare_baht_words(value),
{
    match value {
        Some(v) => baht_amount(v),
        None => {
            let out = chars_of(ABSENT);
            string_of(&out)
        },
    }
}

/// A share written as a percentage with two places, or the word for an
/// absent figure.
pub open spec fn percent_words(value: Option<Amount>) -> Seq<char> {
    match value {
        Some(v) => money_shape(decimal_two_places(decimal_times_hundred(v))) + "%"@,
        None => ABSENT@,
    }
}

pub fn percent(value: Option<Amount>) -> (r: String)
    requires
        value matches Some(v) ==> v.wf() && v.fits_times_hundred(),
    ensures
        r@ == percent_words(value),
{
    match value {
        Some(v) => {
            let m = money(times_hundred(v));
            let mut out = chars_of(m.as_str());
            push_str(&mut out, "%");
            string_of(&out)
        },
        None => {
            let out = chars_of(ABSENT);
            string_of(&out)
        },
    }
}

pub open spec fn spec_has_positive_investment(value: Option<Amount>) -> bool {
    value matches Some(v) && v.spec_is_positive()
}

/// Whether at least one line carries money put in up front.
pub fn has_positive_investment(value: Option<Amount>) -> (r: bool)
    ensures
        r == spec_has_positive_investment(value),
{
    match value {
        Some(v) => v.is_positive(),
        None => false,
    }
}

/// The return on investment as a percentage, or why it is withheld: no
/// investment to return on, or an input still missing.
pub open spec fn roi_words(roi: Option<Amount>, investment_base: Option<Amount>) -> Result<
    Seq<char>,
    &'static str,
> {
    match roi {
        Some(value) => Ok(percent_words(Some(value))),
        None => if !spec_has_positive_investment(investment_base) {
            Err("กรอกเงินลงทุนอย่างน้อย 1 รายการ")
        } else {
            Err(ABSENT)
        },
    }
}

pub fn roi_figure(roi: Option<Amount>, investment_base: Option<Amount>) -> (r: Result<
    String,
    &'static str,
>)
    requires
        roi matches Some(v) ==> v.wf() && v.fits_times_hundred(),
    ensures
        match r {
            Ok(text) => roi_words(roi, investment_base) == Ok::<Seq<char>, &'static str>(text@),
            Err(reason) => roi_words(roi, investment_base) == Err::<Seq<char>, &'static str>(
                reason,
            ),
        },
{
    match roi {
        Some(value) => Ok(percent(Some(value))),
        None => {
            if !has_positive_investment(investment_base) {
                Err("กรอกเงินลงทุนอย่างน้อย 1 รายการ")
            } else {
                Err(ABSENT)
            }
        },
    }
}

/// The payback period in years, or why it is withheld: no investment to pay
/// back, a cash flow that never pays it back, or an input still missing.
pub open spec fn payback_words(
    payback_years: Option<Amount>,
    investment_base: Option<Amount>,
    operating_cash_flow: Option<Amount>,
) -> Result<Seq<char>, &'static str> {
    match payback_years {
        Some(years) => Ok(unit_figure_words(Some(years), "ปี"@)),
        None => if !spec_has_positive_investment(investment_base) {
            Err("กรอกเงินลงทุนอย่างน้อย 1 รายการ")
        } else if operating_cash_flow matches Some(flow) && !flow.spec_is_positive() {
            Err("ยังคืนทุนไม่ได้ เพราะกระแสเงินสดไม่เป็นบวก")
        } else {
            Err(ABSENT)
        },
    }
}

pub fn payback_figure(
    payback_years: Option<Amount>,
    investment_base: Option<Amount>,
    operating_cash_flow: Option<Amount>,
) -> (r: Result<String, &'static str>)
    requires
        payback_years matches Some(v) ==> v.wf(),
    ensures
        match r {
            Ok(text) => payback_words(payback_years, investment_base, operating_cash_flow)
                == Ok::<Seq<char>, &'static str>(text@),
            Err(reason) => payback_words(payback_years, investment_base, operating_cash_flow)
                == Err::<Seq<char>, &'static str>(reason),
        },
{
    match payback_years {
        Some(years) => Ok(with_unit(Some(years), "ปี")),
        None => {
            if !has_positive_investment(investment_base) {
                Err("กรอกเงินลงทุนอย่างน้อย 1 รายการ")
            } else {
                match operating_cash_flow {
                    Some(flow) => {
                        if !flow.is_positive() {
                            Err("ยังคืนทุนไม่ได้ เพราะกระแสเงินสดไม่เป็นบวก")
                        } else {
                            Err(ABSENT)
                        }
                    },
                    None => Err(ABSENT),
                }
            }
        },
    }
}


/// A decision the planning pages answer. The dashboard names four of the
/// six; the other two are told apart from these only.
#[derive(Clone, Copy, Debug, PartialEq, Eq, Structural)]
pub enum Decision {
    FirstEstimate,
    CashView,
    MarketComparison,
    HealthSelfReview,
    Other,
}

/// Whether a decision can be answered now, which fact it still lacks and
/// where that is asked, or which optional fact would add to it.
#[derive(Clone, Debug, PartialEq, Eq)]
pub enum DecisionState {
    Ready,
    Missing { question: String, section: String },
    Optional { unlock: String },
}

#[derive(Clone, Debug, PartialEq, Eq)]
pub struct DecisionReadiness {
    pub decision: Decision,
    pub state: DecisionState,
}

/// Why a figure of a decision is absent: the first entry for the decision
/// names the fact it lacks or the optional fact that would add it; nothing
/// when it is ready or not listed.
pub open spec fn absent_reason(decisions: Seq<DecisionReadiness>, decision: Decision) -> Option<Seq<char>>
    decreases decisions.len(),
{
    if decisions.len() == 0 {
        None
    } else if decisions[0].decision == decision {
        match decisions[0].state {
            DecisionState::Ready => None,
            DecisionState::Missing { question, .. } => Some("ยังขาด: "@ + question@),
            DecisionState::Optional { unlock } => Some("เพิ่มได้: "@ + unlock@),
        }
    } else {
        absent_reason(decisions.drop_first(), decision)
    }
}

pub fn absent_because(decisions: &Vec<DecisionReadiness>, decision: Decision) -> (r: Option<String>)
    ensures
        match r {
            Some(s) => absent_reason(decisions@, decision) == Some(s@),
            None => absent_reason(decisions@, decision) is None,
        },
{
    let mut i: usize = 0;
    assert(decisions@.skip(0) =~= decisions@);
    while i < decisions.len()
        invariant
            i <= decisions@.len(),
            absent_reason(decisions@, decision) == absent_reason(decisions@.skip(i as int), decision),
        decreases decisions.len() - i,
    {
        let ghost rest = decisions@.skip(i as int);
        assert(rest[0] == decisions@[i as int]);
        if decisions[i].decision == decision {
            return match &decisions[i].state {
                DecisionState::Ready => None,
                DecisionState::Missing { question, .. } => {
                    let mut out = chars_of("ยังขาด: ");
                    push_str(&mut out, question.as_str());
                    Some(string_of(&out))
                },
                DecisionState::Optional { unlock } => {
                    let mut out = chars_of("เพิ่มได้: ");
                    push_str(&mut out, unlock.as_str());
                    Some(string_of(&out))
                },
            };
        }
        assert(rest.drop_first() =~= decisions@.skip(i + 1));
        i += 1;
    }
    None
}

} // verus!
