//! How figures and season states are written on the plan's pages: amounts
//! with two decimals and thousands separators, typed numbers tidied when a
//! field loses focus, and the words for directions and states.

use vstd::prelude::*;
use crate::amount::{
    decimal_normal_text, decimal_parse, decimal_two_places, normal_text, rounded_to,
    read_typed_number, round_whole, two_places_text, without_commas, Amount,
};
use crate::plans::{signed_text, ForecastMode};
use crate::text::{same_text, chars_of, push_str, slice_chars, split_once, split_once_at, string_of, trim, trim_text};

verus! {

/// Digits with a comma between every group of three, counted from the right.
pub open spec fn group_thousands(d: Seq<char>) -> Seq<char>
    decreases d.len(),
{
    if d.len() <= 3 {
        d
    } else {
        group_thousands(d.take(d.len() - 3)) + seq![','] + d.skip(d.len() - 3)
    }
}

fn push_grouped(out: &mut Vec<char>, d: &Vec<char>, end: usize)
    requires
        end <= d.len(),
    ensures
        final(out)@ == old(out)@ + group_thousands(d@.take(end as int)),
    decreases end,
{
    if end <= 3 {
        let mut piece = slice_chars(d, 0, end);
        out.append(&mut piece);
    } else {
        push_grouped(out, d, end - 3);
        out.push(',');
        let mut piece = slice_chars(d, end - 3, end);
        out.append(&mut piece);
        proof {
            let t = d@.take(end as int);
            assert(t.take(t.len() - 3) == d@.take(end - 3));
            assert(t.skip(t.len() - 3) == d@.subrange(end - 3, end as int));
        }
    }
}

/// The sign of a numeral, if it has one, and its digits.
pub open spec fn sign_of(integer: Seq<char>) -> (Seq<char>, Seq<char>) {
    if integer.len() > 0 && integer[0] == '-' {
        ("-"@, integer.drop_first())
    } else {
        (Seq::<char>::empty(), integer)
    }
}

/// Appends the sign and the grouped digits of a whole-number part.
fn push_signed_grouped(out: &mut Vec<char>, integer: &Vec<char>)
    ensures
        final(out)@ == old(out)@ + sign_of(integer@).0 + group_thousands(sign_of(integer@).1),
{
    if integer.len() > 0 && integer[0] == '-' {
        push_str(out, "-");
        let digits = slice_chars(integer, 1, integer.len());
        assert(digits@ == integer@.drop_first());
        push_grouped(out, &digits, digits.len());
        assert(digits@.take(digits.len() as int) == digits@);
    } else {
        push_grouped(out, integer, integer.len());
        assert(integer@.take(integer.len() as int) == integer@);
        assert(Seq::<char>::empty() + group_thousands(integer@) == group_thousands(integer@));
    }
}

/// A sum in whole baht: rounded to a whole number, a half away from zero,
/// grouped by thousands, the sign kept in front.
pub open spec fn baht_amount_words(value: Amount) -> Seq<char> {
    let plain = decimal_normal_text(rounded_to(value, 0, true));
    sign_of(plain).0 + group_thousands(sign_of(plain).1)
}

pub fn baht_amount(value: Amount) -> (r: String)
    requires
        value.wf(),
    ensures
        r@ == baht_amount_words(value),
{
    let plain = normal_text(round_whole(value));
    let p = chars_of(plain.as_str());
    let mut out: Vec<char> = Vec::new();
    push_signed_grouped(&mut out, &p);
    assert(out@ =~= baht_amount_words(value));
    string_of(&out)
}

/// An amount written with two decimals: the whole part grouped by
/// thousands, the sign kept in front.
pub open spec fn money_shape(plain: Seq<char>) -> Seq<char> {
    let (integer, fraction) = match split_once(plain, '.') {
        Some((i, f)) => (i, f),
        None => (plain, "00"@),
    };
    sign_of(integer).0 + group_thousands(sign_of(integer).1) + "."@ + fraction
}

/// An amount with two decimals and thousands separators.
pub fn money(value: Amount) -> (r: String)
    requires
        value.wf(),
    ensures
        r@ == money_shape(decimal_two_places(value)),
{
    let plain = two_places_text(value);
    let p = chars_of(plain.as_str());
    let (integer, fraction) = match split_once_at(&p, '.') {
        Some((i, f)) => (i, f),
        None => (p, chars_of("00")),
    };
    let mut out: Vec<char> = Vec::new();
    push_signed_grouped(&mut out, &integer);
    push_str(&mut out, ".");
    let mut f = fraction;
    out.append(&mut f);
    string_of(&out)
}

/// A typed number as it reads once its field loses focus: the number without
/// trailing zeros, grouped by thousands. Text that is not a number is kept
/// exactly as typed.
pub open spec fn tidy_number_text(value: Seq<char>) -> Seq<char> {
    match decimal_parse(without_commas(trim(value))) {
        None => value,
        Some(n) => {
            let plain = decimal_normal_text(n);
            match split_once(plain, '.') {
                Some((integer, fraction)) => sign_of(integer).0 + group_thousands(
                    sign_of(integer).1,
                ) + "."@ + fraction,
                None => sign_of(plain).0 + group_thousands(sign_of(plain).1),
            }
        },
    }
}

pub fn format_numeric_input(value: &str) -> (r: String)
    ensures
        r@ == tidy_number_text(value@),
{
    let t = trim_text(value);
    let number = match read_typed_number(&t) {
        None => {
            let v = chars_of(value);
            return string_of(&v);
        },
        Some(n) => n,
    };
    let plain = normal_text(number);
    let p = chars_of(plain.as_str());
    let mut out: Vec<char> = Vec::new();
    match split_once_at(&p, '.') {
        Some((integer, fraction)) => {
            push_signed_grouped(&mut out, &integer);
            push_str(&mut out, ".");
            let mut f = fraction;
            out.append(&mut f);
        },
        None => {
            push_signed_grouped(&mut out, &p);
        },
    }
    string_of(&out)
}

/// Whether a field holds text that is not a number; a blank field is not
/// invalid, only missing.
pub open spec fn typed_number_invalid(value: Seq<char>) -> bool {
    let t = trim(value);
    t.len() > 0 && decimal_parse(without_commas(t)) is None
}

pub fn numeric_input_invalid(value: &str) -> (r: bool)
    ensures
        r == typed_number_invalid(value@),
{
    let t = trim_text(value);
    t.len() > 0 && read_typed_number(&t).is_none()
}

/// How a season's year is named: "ฤดูกาล" and the year, or that none is set.
pub open spec fn season_year_text(year: Option<i32>) -> Seq<char> {
    match year {
        Some(y) => "ฤดูกาล "@ + signed_text(y as i64),
        None => "ยังไม่ระบุปี"@,
    }
}

pub fn season_year_label(year: Option<i32>) -> (r: String)
    ensures
        r@ == season_year_text(year),
{
    match year {
        Some(y) => {
            let mut out = chars_of("ฤดูกาล ");
            let mut digits = signed_chars(y as i64);
            out.append(&mut digits);
            string_of(&out)
        },
        None => {
            let out = chars_of("ยังไม่ระบุปี");
            string_of(&out)
        },
    }
}

fn signed_chars(n: i64) -> (r: Vec<char>)
    ensures
        r@ == signed_text(n),
{
    let mut out: Vec<char> = Vec::new();
    if n < 0 {
        push_str(&mut out, "-");
        let magnitude: u128 = (0i128 - n as i128) as u128;
        crate::text::push_decimal(&mut out, magnitude);
    } else {
        crate::text::push_decimal(&mut out, n as u128);
    }
    out
}

/// A season card's state and the style it is shown in: closed seasons are
/// closed, an open season is in progress when it is the latest, and an open
/// older season is flagged as not yet closed.
pub open spec fn season_state_words(closed: bool, is_latest: bool) -> (Seq<char>, Seq<char>) {
    if closed {
        ("ปิดแล้ว"@, "status muted"@)
    } else if is_latest {
        ("กำลังทำ"@, "status good"@)
    } else {
        ("ปีก่อน · ยังไม่ปิด"@, "status warning"@)
    }
}

pub fn season_state(closed: bool, is_latest: bool) -> (r: (&'static str, &'static str))
    ensures
        (r.0@, r.1@) == season_state_words(closed, is_latest),
{
    if closed {
        ("ปิดแล้ว", "status muted")
    } else if is_latest {
        ("กำลังทำ", "status good")
    } else {
        ("ปีก่อน · ยังไม่ปิด", "status warning")
    }
}

/// How a difference is said against what it is compared with: higher,
/// lower, or equal.
pub open spec fn direction_text(delta: Amount, comparison: Seq<char>) -> Seq<char> {
    if delta.spec_is_positive() {
        "สูงกว่า"@ + comparison
    } else if delta.spec_is_negative() {
        "ต่ำกว่า"@ + comparison
    } else {
        "เท่ากับ"@ + comparison
    }
}

pub fn direction_word(delta: Amount, comparison: &str) -> (r: String)
    ensures
        r@ == direction_text(delta, comparison@),
{
    let mut out = if delta.is_positive() {
        chars_of("สูงกว่า")
    } else if delta.is_negative() {
        chars_of("ต่ำกว่า")
    } else {
        chars_of("เท่ากับ")
    };
    push_str(&mut out, comparison);
    string_of(&out)
}

/// A difference said in words, its size written as an amount and its unit,
/// or that no comparison can be made yet.
pub open spec fn delta_words(delta: Option<Amount>, unit: Seq<char>, comparison: Seq<char>) -> Seq<
    char,
> {
    match delta {
        Some(d) => direction_text(d, comparison) + " "@ + money_shape(
            decimal_two_places(d.spec_abs()),
        ) + " "@ + unit,
        None => "ยังเปรียบเทียบไม่ได้"@,
    }
}

pub fn delta_text(delta: Option<Amount>, unit: &str, comparison: &str) -> (r: String)
    requires
        delta matches Some(d) ==> d.wf(),
    ensures
        r@ == delta_words(delta, unit@, comparison@),
{
    match delta {
        Some(d) => {
            let direction = direction_word(d, comparison);
            let mut out = chars_of(direction.as_str());
            push_str(&mut out, " ");
            let size = money(d.abs());
            push_str(&mut out, size.as_str());
            push_str(&mut out, " ");
            push_str(&mut out, unit);
            string_of(&out)
        },
        None => {
            let out = chars_of("ยังเปรียบเทียบไม่ได้");
            string_of(&out)
        },
    }
}

/// A figure with its unit, or that there is no figure yet.
pub open spec fn figure_words(value: Option<Amount>, unit: Seq<char>) -> Seq<char> {
    match value {
        Some(v) => money_shape(decimal_two_places(v)) + " "@ + unit,
        None => "ยังไม่มีข้อมูล"@,
    }
}

pub fn actual_metric(value: Option<Amount>, unit: &str) -> (r: String)
    requires
        value matches Some(v) ==> v.wf(),
    ensures
        r@ == figure_words(value, unit@),
{
    match value {
        Some(v) => {
            let m = money(v);
            let mut out = chars_of(m.as_str());
            push_str(&mut out, " ");
            push_str(&mut out, unit);
            string_of(&out)
        },
        None => {
            let out = chars_of("ยังไม่มีข้อมูล");
            string_of(&out)
        },
    }
}

/// What a forecast mode is called.
pub open spec fn forecast_mode_words(mode: ForecastMode) -> Seq<char> {
    match mode {
        ForecastMode::Quick => "ประมาณการเร็ว"@,
        ForecastMode::Detailed => "แผนละเอียด"@,
    }
}

pub fn forecast_mode_label(mode: ForecastMode) -> (r: &'static str)
    ensures
        r@ == forecast_mode_words(mode),
{
    match mode {
        ForecastMode::Quick => "ประมาณการเร็ว",
        ForecastMode::Detailed => "แผนละเอียด",
    }
}

/// The text an input field is filled with for a stored number: the number
/// without trailing zeros, or nothing.
pub open spec fn decimal_input_text(value: Option<Amount>) -> Seq<char> {
    match value {
        Some(v) => decimal_normal_text(v),
        None => Seq::<char>::empty(),
    }
}

pub fn decimal_input(value: Option<Amount>) -> (r: String)
    requires
        value matches Some(v) ==> v.wf(),
    ensures
        r@ == decimal_input_text(value),
{
    match value {
        Some(v) => normal_text(v),
        None => String::new(),
    }
}


/// What a cost line that grows with production is spent on.
#[derive(Clone, Copy, Debug, PartialEq, Eq, Structural)]
pub enum VariableCostKind {
    Fertilizer,
    CropProtection,
    Water,
    OrchardLabor,
    Electricity,
    Fuel,
    HarvestLabor,
    Transport,
    Packing,
    Maintenance,
    Other,
}

pub open spec fn spec_variable_kind_label(kind: VariableCostKind) -> &'static str {
    match kind {
        VariableCostKind::Fertilizer => "ปุ๋ยและธาตุอาหาร",
        VariableCostKind::CropProtection => "สารเคมี/ชีวภัณฑ์",
        VariableCostKind::Water => "น้ำ",
        VariableCostKind::OrchardLabor => "แรงงานดูแลสวน",
        VariableCostKind::Electricity => "ไฟฟ้า",
        VariableCostKind::Fuel => "น้ำมัน",
        VariableCostKind::HarvestLabor => "แรงงานเก็บเกี่ยว",
        VariableCostKind::Transport => "ขนส่ง",
        VariableCostKind::Packing => "คัดแยก/บรรจุภัณฑ์",
        VariableCostKind::Maintenance => "ซ่อมบำรุง",
        VariableCostKind::Other => "อื่นๆ",
    }
}

/// What a cost kind is called in the form.
pub fn variable_kind_label(kind: VariableCostKind) -> (r: &'static str)
    ensures
        r == spec_variable_kind_label(kind),
{
    match kind {
        VariableCostKind::Fertilizer => "ปุ๋ยและธาตุอาหาร",
        VariableCostKind::CropProtection => "สารเคมี/ชีวภัณฑ์",
        VariableCostKind::Water => "น้ำ",
        VariableCostKind::OrchardLabor => "แรงงานดูแลสวน",
        VariableCostKind::Electricity => "ไฟฟ้า",
        VariableCostKind::Fuel => "น้ำมัน",
        VariableCostKind::HarvestLabor => "แรงงานเก็บเกี่ยว",
        VariableCostKind::Transport => "ขนส่ง",
        VariableCostKind::Packing => "คัดแยก/บรรจุภัณฑ์",
        VariableCostKind::Maintenance => "ซ่อมบำรุง",
        VariableCostKind::Other => "อื่นๆ",
    }
}

/// The cost kind a form value names; anything unknown is `Other`.
pub open spec fn variable_kind_reading(text: Seq<char>) -> VariableCostKind {
    if text == "fertilizer"@ {
        VariableCostKind::Fertilizer
    } else
    if text == "crop-protection"@ {
        VariableCostKind::CropProtection
    } else
    if text == "water"@ {
        VariableCostKind::Water
    } else
    if text == "orchard-labor"@ {
        VariableCostKind::OrchardLabor
    } else
    if text == "electricity"@ {
        VariableCostKind::Electricity
    } else
    if text == "fuel"@ {
        VariableCostKind::Fuel
    } else
    if text == "harvest-labor"@ {
        VariableCostKind::HarvestLabor
    } else
    if text == "transport"@ {
        VariableCostKind::Transport
    } else
    if text == "packing"@ {
        VariableCostKind::Packing
    } else
    if text == "maintenance"@ {
        VariableCostKind::Maintenance
    } else {
        VariableCostKind::Other
    }
}

pub fn parse_variable_kind(value: &str) -> (r: VariableCostKind)
    ensures
        r == variable_kind_reading(value@),
{
    if same_text(value, "fertilizer") {
        VariableCostKind::Fertilizer
    } else
    if same_text(value, "crop-protection") {
        VariableCostKind::CropProtection
    } else
    if same_text(value, "water") {
        VariableCostKind::Water
    } else
    if same_text(value, "orchard-labor") {
        VariableCostKind::OrchardLabor
    } else
    if same_text(value, "electricity") {
        VariableCostKind::Electricity
    } else
    if same_text(value, "fuel") {
        VariableCostKind::Fuel
    } else
    if same_text(value, "harvest-labor") {
        VariableCostKind::HarvestLabor
    } else
    if same_text(value, "transport") {
        VariableCostKind::Transport
    } else
    if same_text(value, "packing") {
        VariableCostKind::Packing
    } else
    if same_text(value, "maintenance") {
        VariableCostKind::Maintenance
    } else {
        VariableCostKind::Other
    }
}

/// The twelve questions of the orchard's self-assessment, in their order.
#[derive(Clone, Copy, Debug, PartialEq, Eq, Structural)]
pub enum HealthQuestion {
    ProfitAndCash,
    NextSeasonReserve,
    YieldAndQuality,
    LossControl,
    MultipleSalesChannels,
    PriceVolatility,
    ResourceEfficiency,
    EnvironmentalCare,
    FairAndSafeWork,
    LaborContinuity,
    DownsideSurvival,
    ContingencyPlan,
}

impl HealthQuestion {
    pub const ALL: [HealthQuestion; 12] = [
        HealthQuestion::ProfitAndCash,
        HealthQuestion::NextSeasonReserve,
        HealthQuestion::YieldAndQuality,
        HealthQuestion::LossControl,
        HealthQuestion::MultipleSalesChannels,
        HealthQuestion::PriceVolatility,
        HealthQuestion::ResourceEfficiency,
        HealthQuestion::EnvironmentalCare,
        HealthQuestion::FairAndSafeWork,
        HealthQuestion::LaborContinuity,
        HealthQuestion::DownsideSurvival,
        HealthQuestion::ContingencyPlan,
    ];
}

pub open spec fn spec_health_question_label(question: HealthQuestion) -> &'static str {
    match question {
        HealthQuestion::ProfitAndCash => "มีกำไรและเงินสดเพียงพอ",
        HealthQuestion::NextSeasonReserve => "มีเงินสำรองสำหรับฤดูถัดไป",
        HealthQuestion::YieldAndQuality => "ผลผลิตและคุณภาพได้ตามแผน",
        HealthQuestion::LossControl => "ควบคุมผลผลิตสูญเสียได้",
        HealthQuestion::MultipleSalesChannels => "มีช่องทางขายมากกว่าหนึ่งทาง",
        HealthQuestion::PriceVolatility => "รับมือความผันผวนของราคาได้",
        HealthQuestion::ResourceEfficiency => "ใช้ทรัพยากรอย่างคุ้มค่า",
        HealthQuestion::EnvironmentalCare => "ดูแลผลกระทบต่อสิ่งแวดล้อม",
        HealthQuestion::FairAndSafeWork => "แรงงานเป็นธรรมและปลอดภัย",
        HealthQuestion::LaborContinuity => "มีแรงงานต่อเนื่องเพียงพอ",
        HealthQuestion::DownsideSurvival => "สวนอยู่รอดได้เมื่อผลลัพธ์แย่ลง",
        HealthQuestion::ContingencyPlan => "มีแผนสำรองเมื่อเกิดเหตุไม่คาดคิด",
    }
}

/// How a question of the self-assessment is asked.
pub fn health_question_label(question: HealthQuestion) -> (r: &'static str)
    ensures
        r == spec_health_question_label(question),
{
    match question {
        HealthQuestion::ProfitAndCash => "มีกำไรและเงินสดเพียงพอ",
        HealthQuestion::NextSeasonReserve => "มีเงินสำรองสำหรับฤดูถัดไป",
        HealthQuestion::YieldAndQuality => "ผลผลิตและคุณภาพได้ตามแผน",
        HealthQuestion::LossControl => "ควบคุมผลผลิตสูญเสียได้",
        HealthQuestion::MultipleSalesChannels => "มีช่องทางขายมากกว่าหนึ่งทาง",
        HealthQuestion::PriceVolatility => "รับมือความผันผวนของราคาได้",
        HealthQuestion::ResourceEfficiency => "ใช้ทรัพยากรอย่างคุ้มค่า",
        HealthQuestion::EnvironmentalCare => "ดูแลผลกระทบต่อสิ่งแวดล้อม",
        HealthQuestion::FairAndSafeWork => "แรงงานเป็นธรรมและปลอดภัย",
        HealthQuestion::LaborContinuity => "มีแรงงานต่อเนื่องเพียงพอ",
        HealthQuestion::DownsideSurvival => "สวนอยู่รอดได้เมื่อผลลัพธ์แย่ลง",
        HealthQuestion::ContingencyPlan => "มีแผนสำรองเมื่อเกิดเหตุไม่คาดคิด",
    }
}

/// The six figures an actual outcome is compared on.
#[derive(Clone, Copy, Debug, PartialEq, Eq, Structural)]
pub enum ComparisonMetric {
    SellableYieldKg,
    Revenue,
    TotalCost,
    Profit,
    AveragePricePerKg,
    CostPerKg,
}

impl ComparisonMetric {
    pub const ALL: [ComparisonMetric; 6] = [
        ComparisonMetric::SellableYieldKg,
        ComparisonMetric::Revenue,
        ComparisonMetric::TotalCost,
        ComparisonMetric::Profit,
        ComparisonMetric::AveragePricePerKg,
        ComparisonMetric::CostPerKg,
    ];
}

pub open spec fn spec_comparison_metric_label(metric: ComparisonMetric) -> (&'static str, &'static str) {
    match metric {
        ComparisonMetric::SellableYieldKg => ("ผลผลิตที่ขายได้", "กก."),
        ComparisonMetric::Revenue => ("รายได้", "บาท"),
        ComparisonMetric::TotalCost => ("ต้นทุนรวม", "บาท"),
        ComparisonMetric::Profit => ("กำไรหรือขาดทุน", "บาท"),
        ComparisonMetric::AveragePricePerKg => ("ราคาขายเฉลี่ย", "บาท/กก."),
        ComparisonMetric::CostPerKg => ("ต้นทุนต่อกิโลกรัม", "บาท/กก."),
    }
}

/// A compared figure's name and its unit.
pub fn comparison_metric_label(metric: ComparisonMetric) -> (r: (&'static str, &'static str))
    ensures
        r == spec_comparison_metric_label(metric),
{
    match metric {
        ComparisonMetric::SellableYieldKg => ("ผลผลิตที่ขายได้", "กก."),
        ComparisonMetric::Revenue => ("รายได้", "บาท"),
        ComparisonMetric::TotalCost => ("ต้นทุนรวม", "บาท"),
        ComparisonMetric::Profit => ("กำไรหรือขาดทุน", "บาท"),
        ComparisonMetric::AveragePricePerKg => ("ราคาขายเฉลี่ย", "บาท/กก."),
        ComparisonMetric::CostPerKg => ("ต้นทุนต่อกิโลกรัม", "บาท/กก."),
    }
}

/// The six figures of one season's outcome, each possibly unknown.
#[derive(Clone, Copy, Debug, PartialEq, Eq, Structural)]
pub struct OutcomeMetrics {
    pub sellable_yield_kg: Option<Amount>,
    pub revenue: Option<Amount>,
    pub total_cost: Option<Amount>,
    pub profit: Option<Amount>,
    pub average_price_per_kg: Option<Amount>,
    pub cost_per_kg: Option<Amount>,
}

pub open spec fn spec_history_metric_value(metrics: OutcomeMetrics, metric: ComparisonMetric) -> Option<Amount> {
    match metric {
        ComparisonMetric::SellableYieldKg => metrics.sellable_yield_kg,
        ComparisonMetric::Revenue => metrics.revenue,
        ComparisonMetric::TotalCost => metrics.total_cost,
        ComparisonMetric::Profit => metrics.profit,
        ComparisonMetric::AveragePricePerKg => metrics.average_price_per_kg,
        ComparisonMetric::CostPerKg => metrics.cost_per_kg,
    }
}

/// One figure of an outcome.
pub fn history_metric_value(metrics: &OutcomeMetrics, metric: ComparisonMetric) -> (r: Option<Amount>)
    ensures
        r == spec_history_metric_value(*metrics, metric),
{
    match metric {
        ComparisonMetric::SellableYieldKg => metrics.sellable_yield_kg,
        ComparisonMetric::Revenue => metrics.revenue,
        ComparisonMetric::TotalCost => metrics.total_cost,
        ComparisonMetric::Profit => metrics.profit,
        ComparisonMetric::AveragePricePerKg => metrics.average_price_per_kg,
        ComparisonMetric::CostPerKg => metrics.cost_per_kg,
    }
}


/// Whether the quick estimate may show a result: sellable kilograms,
/// average price and total cost all given and all above zero.
pub open spec fn quick_complete(sellable_kg: Option<Amount>, price: Option<Amount>, cost: Option<Amount>) -> bool {
    &&& sellable_kg matches Some(a) && a.spec_is_positive()
    &&& price matches Some(a) && a.spec_is_positive()
    &&& cost matches Some(a) && a.spec_is_positive()
}

pub fn quick_result_available(
    sellable_kg: Option<Amount>,
    price: Option<Amount>,
    cost: Option<Amount>,
) -> (r: bool)
    ensures
        r == quick_complete(sellable_kg, price, cost),
{
    given_and_positive(sellable_kg) && given_and_positive(price) && given_and_positive(cost)
}

fn given_and_positive(v: Option<Amount>) -> (b: bool)
    ensures
        b == (v matches Some(a) && a.spec_is_positive()),
{
    match v {
        Some(a) => a.is_positive(),
        None => false,
    }
}

/// How the quick result names its profit: a loss below zero, a profit
/// otherwise, with the style of each.
pub open spec fn profit_words(profit: Amount) -> (&'static str, &'static str) {
    if profit.spec_is_negative() {
        ("ขาดทุนโดยประมาณ", "hero-value bad-text")
    } else {
        ("กำไรโดยประมาณ", "hero-value good-text")
    }
}

pub fn quick_profit_label(profit: Amount) -> (r: (&'static str, &'static str))
    ensures
        r == profit_words(profit),
{
    if profit.is_negative() {
        ("ขาดทุนโดยประมาณ", "hero-value bad-text")
    } else {
        ("กำไรโดยประมาณ", "hero-value good-text")
    }
}

} // verus!
