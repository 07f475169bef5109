//! The plan as the calculation reads it, built from the form's text. Every
//! field is read in turn; a value that cannot be read is left out of the
//! plan and reported under its field, and the text stays in the form for
//! correction. Percentages become shares here, at the boundary.

use vstd::prelude::*;
use crate::amount::{
    rounded_to,
    checked_product, checked_quotient, decimal_hundredth, decimal_normal_text, decimal_product,
    checked_sum, decimal_parse, decimal_quotient, decimal_sum, decimal_times_hundred, hundredth,
    hundredth_is_exact, normal_text, plain_numeral, pow10, read_typed_number, round_two, times_hundred, value_eq,
    without_commas, Amount,
};
use crate::plan_form::{
    belongs_to_section, readiness_reading, AnalysisFacts, SectionReadiness, decimal_reading, error_views, errors_in_section, integer_reading,
    section_errors_from, optional_text, optional_text_reading,
    parse_decimal, parse_integer, reported, CashKind, FixedCostForm, FormError, GradeEntry,
    GradeForm, MarketForm, PlanForm, PriceSource, ProductionForm, TargetsForm, VariableCostForm,
    YieldSource, GRADE_KG_NEEDS_SELLABLE,
};
use crate::plan_ui::{HealthQuestion, VariableCostKind};
use crate::text::{
    chars_of, decimal_text, push_decimal, push_str, string_of, trim, trim_end, trim_start, trim_text,
};

verus! {

#[derive(Clone, Debug, PartialEq)]
pub struct MarketFacts {
    pub target_customer: Option<String>,
    pub buyer_committed_kg: Option<Amount>,
    pub minimum_price_per_kg: Option<Amount>,
    pub sales_period: Option<String>,
    pub sales_channels: Option<u32>,
    pub largest_buyer_share: Option<Amount>,
    pub quality_requirements: Option<String>,
}

#[derive(Clone, Debug, PartialEq)]
pub struct GradeFacts {
    pub name: String,
    pub share: Option<Amount>,
    pub price_per_kg: Option<Amount>,
    pub counts_as_quality_grade: bool,
}

#[derive(Clone, Debug, PartialEq)]
pub struct ProductionFacts {
    pub yield_source: YieldSource,
    pub sellable_yield_kg: Option<Amount>,
    pub area_rai: Option<Amount>,
    pub producing_trees: Option<Amount>,
    pub fruits_per_tree: Option<Amount>,
    pub average_fruit_weight_kg: Option<Amount>,
    pub loss_share: Option<Amount>,
    pub price_source: PriceSource,
    pub average_price_per_kg: Option<Amount>,
    pub grades: Vec<GradeFacts>,
}

#[derive(Clone, Debug, PartialEq)]
pub struct VariableCostFacts {
    pub name: String,
    pub kind: VariableCostKind,
    pub quantity: Option<Amount>,
    pub unit: String,
    pub unit_price: Option<Amount>,
}

#[derive(Clone, Debug, PartialEq)]
pub struct FixedCostFacts {
    pub name: String,
    pub cash_kind: CashKind,
    pub amount_per_year: Option<Amount>,
    pub investment_base: Option<Amount>,
}

#[derive(Clone, Copy, Debug, PartialEq, Eq, Structural)]
pub struct HealthAnswer {
    pub question: HealthQuestion,
    pub score: Option<u8>,
}

#[derive(Clone, Copy, Debug, PartialEq, Eq, Structural)]
pub struct TargetFacts {
    pub yield_per_rai: Option<Amount>,
    pub yield_per_tree: Option<Amount>,
    pub yield_per_labor_day: Option<Amount>,
    pub yield_per_fertilizer_kg: Option<Amount>,
    pub yield_per_water_cubic_meter: Option<Amount>,
    pub yield_per_kwh: Option<Amount>,
    pub quality_grade_share: Option<Amount>,
    pub loss_share: Option<Amount>,
    pub cost_per_kg: Option<Amount>,
}

/// A season's plan: the figures the calculation works from.
#[derive(Clone, Debug, PartialEq)]
pub struct PlanFacts {
    pub name: String,
    pub market: MarketFacts,
    pub production: ProductionFacts,
    pub variable_costs: Vec<VariableCostFacts>,
    pub fixed_costs: Vec<FixedCostFacts>,
    pub health_answers: Vec<HealthAnswer>,
    pub targets: TargetFacts,
}

// ----------------------------------------------------------------- one field

/// One error for `field`, or none.
pub open spec fn issue(refused: bool, field: Seq<char>, message: Seq<char>) -> Seq<(Seq<char>, Seq<char>)> {
    if refused {
        seq![(field, message)]
    } else {
        Seq::empty()
    }
}

/// The number typed in a decimal field, when there is one.
pub open spec fn decimal_value(value: Seq<char>) -> Option<Amount> {
    match decimal_reading(value) {
        Ok(Some(a)) => Some(a),
        _ => None,
    }
}

pub open spec fn decimal_issue(value: Seq<char>, field: Seq<char>) -> Seq<(Seq<char>, Seq<char>)> {
    issue(decimal_reading(value) is Err, field, "กรุณากรอกเป็นตัวเลข"@)
}

/// A percentage typed in a field, as a share: the number divided by a
/// hundred.
pub open spec fn share_value(value: Seq<char>) -> Option<Amount> {
    match decimal_value(value) {
        Some(a) => Some(decimal_hundredth(a)),
        None => None,
    }
}

pub open spec fn integer_value(value: Seq<char>, maximum: int) -> Option<int> {
    match integer_reading(value, maximum) {
        Ok(Some(n)) => Some(n),
        _ => None,
    }
}

pub open spec fn integer_issue(value: Seq<char>, field: Seq<char>, maximum: int) -> Seq<
    (Seq<char>, Seq<char>),
> {
    issue(integer_reading(value, maximum) is Err, field, "กรุณากรอกเป็นจำนวนเต็ม"@)
}

pub open spec fn text_view(value: Option<String>) -> Option<Seq<char>> {
    match value {
        Some(s) => Some(s@),
        None => None,
    }
}

proof fn lemma_reported_views(
    before: Seq<FormError>,
    after: Seq<FormError>,
    field: Seq<char>,
    message: Seq<char>,
    refused: bool,
)
    requires
        reported(before, after, field, message, refused),
    ensures
        error_views(after) == error_views(before) + issue(refused, field, message),
{
    if refused {
        assert(after == before.push(after.last()));
        assert(error_views(after) =~= error_views(before) + issue(refused, field, message));
    } else {
        assert(error_views(after) =~= error_views(before) + issue(refused, field, message));
    }
}

fn read_decimal(value: &str, field: &str, errors: &mut Vec<FormError>) -> (r: Option<Amount>)
    ensures
        r == decimal_value(value@),
        r matches Some(a) ==> a.wf(),
        error_views(final(errors)@) == error_views(old(errors)@) + decimal_issue(value@, field@),
{
    let r = parse_decimal(value, field, errors);
    proof {
        lemma_reported_views(
            old(errors)@,
            errors@,
            field@,
            "กรุณากรอกเป็นตัวเลข"@,
            decimal_reading(value@) is Err,
        );
    }
    r
}

/// A share read from a percentage is the hundredth of the number typed,
/// exactly where a `Decimal` holds that hundredth.
pub open spec fn share_is_hundredth(share: Option<Amount>, text: Seq<char>) -> bool {
    share matches Some(c) ==> (decimal_value(text) matches Some(b) && (hundredth_is_exact(b)
        ==> c.numerator() * 100 * pow10(b.scale as nat) == b.numerator() * pow10(c.scale as nat)))
}

fn read_share(value: &str, field: &str, errors: &mut Vec<FormError>) -> (r: Option<Amount>)
    ensures
        r == share_value(value@),
        share_is_hundredth(r, value@),
        r matches Some(a) ==> a.wf(),
        error_views(final(errors)@) == error_views(old(errors)@) + decimal_issue(value@, field@),
{
    match read_decimal(value, field, errors) {
        Some(a) => Some(hundredth(a)),
        None => None,
    }
}

fn read_integer(value: &str, field: &str, errors: &mut Vec<FormError>, maximum: u64) -> (r: Option<
    u64,
>)
    ensures
        match integer_value(value@, maximum as int) {
            Some(n) => r == Some(n as u64),
            None => r is None,
        },
        integer_value(value@, maximum as int) matches Some(n) ==> 0 <= n <= maximum,
        error_views(final(errors)@) == error_views(old(errors)@) + integer_issue(
            value@,
            field@,
            maximum as int,
        ),
{
    let r = parse_integer(value, field, errors, maximum);
    proof {
        lemma_reported_views(
            old(errors)@,
            errors@,
            field@,
            "กรุณากรอกเป็นจำนวนเต็ม"@,
            integer_reading(value@, maximum as int) is Err,
        );
    }
    r
}

fn text_of_trim(value: &str) -> (r: String)
    ensures
        r@ == trim(value@),
{
    let t = trim_text(value);
    string_of(&t)
}

/// `prefix`, the index in decimal, then `suffix`: the field of one line.
pub open spec fn indexed(prefix: Seq<char>, index: int, suffix: Seq<char>) -> Seq<char> {
    prefix + decimal_text(index as nat) + suffix
}

fn indexed_field(prefix: &str, index: usize, suffix: &str) -> (r: String)
    ensures
        r@ == indexed(prefix@, index as int, suffix@),
{
    let mut out = chars_of(prefix);
    push_decimal(&mut out, index as u128);
    push_str(&mut out, suffix);
    string_of(&out)
}

// -------------------------------------------------------------------- market

pub open spec fn market_agrees(m: MarketFacts, form: MarketForm) -> bool {
    &&& text_view(m.target_customer) == optional_text_reading(form.target_customer@)
    &&& m.buyer_committed_kg == decimal_value(form.buyer_committed_kg@)
    &&& m.minimum_price_per_kg == decimal_value(form.minimum_price_per_kg@)
    &&& text_view(m.sales_period) == optional_text_reading(form.sales_period@)
    &&& m.sales_channels == match integer_value(form.sales_channels@, u32::MAX as int) {
        Some(n) => Some(n as u32),
        None => None::<u32>,
    }
    &&& m.largest_buyer_share == share_value(form.largest_buyer_percent@)
    &&& text_view(m.quality_requirements) == optional_text_reading(form.quality_requirements@)
}

pub open spec fn market_errors(form: MarketForm) -> Seq<(Seq<char>, Seq<char>)> {
    decimal_issue(form.buyer_committed_kg@, "market.buyer_committed_kg"@) + decimal_issue(
        form.minimum_price_per_kg@,
        "market.minimum_price_per_kg"@,
    ) + integer_issue(form.sales_channels@, "market.sales_channels"@, u32::MAX as int)
        + decimal_issue(form.largest_buyer_percent@, "market.largest_buyer_share"@)
}

fn opt_text(value: &str) -> (r: Option<String>)
    ensures
        text_view(r) == optional_text_reading(value@),
{
    optional_text(value)
}

#[verifier::spinoff_prover]
#[verifier::rlimit(40)]
fn read_market(form: &MarketForm, errors: &mut Vec<FormError>) -> (r: MarketFacts)
    ensures
        market_agrees(r, *form),
        share_is_hundredth(r.largest_buyer_share, form.largest_buyer_percent@),
        error_views(final(errors)@) == error_views(old(errors)@) + market_errors(*form),
{
    let target_customer = opt_text(form.target_customer.as_str());
    let buyer_committed_kg = read_decimal(
        form.buyer_committed_kg.as_str(),
        "market.buyer_committed_kg",
        errors,
    );
    let minimum_price_per_kg = read_decimal(
        form.minimum_price_per_kg.as_str(),
        "market.minimum_price_per_kg",
        errors,
    );
    let sales_period = opt_text(form.sales_period.as_str());
    let channels = read_integer(form.sales_channels.as_str(), "market.sales_channels", errors, 4294967295);
    let sales_channels = match channels {
        Some(n) => Some(n as u32),
        None => None,
    };
    let largest_buyer_share = read_share(
        form.largest_buyer_percent.as_str(),
        "market.largest_buyer_share",
        errors,
    );
    let quality_requirements = opt_text(form.quality_requirements.as_str());
    MarketFacts {
        target_customer,
        buyer_committed_kg,
        minimum_price_per_kg,
        sales_period,
        sales_channels,
        largest_buyer_share,
        quality_requirements,
    }
}


// ---------------------------------------------------------------- production

pub open spec fn production_agrees(p: ProductionFacts, form: ProductionForm) -> bool {
    &&& p.yield_source == form.yield_source
    &&& p.sellable_yield_kg == decimal_value(form.sellable_yield_kg@)
    &&& p.area_rai == decimal_value(form.area_rai@)
    &&& p.producing_trees == decimal_value(form.producing_trees@)
    &&& p.fruits_per_tree == decimal_value(form.fruits_per_tree@)
    &&& p.average_fruit_weight_kg == decimal_value(form.average_fruit_weight_kg@)
    &&& p.loss_share == share_value(form.loss_percent@)
    &&& p.price_source == form.price_source
    &&& p.average_price_per_kg == decimal_value(form.average_price_per_kg@)
}

pub open spec fn production_errors(form: ProductionForm) -> Seq<(Seq<char>, Seq<char>)> {
    decimal_issue(form.sellable_yield_kg@, "production.sellable_yield_kg"@) + decimal_issue(
        form.area_rai@,
        "production.area_rai"@,
    ) + decimal_issue(form.producing_trees@, "production.producing_trees"@) + decimal_issue(
        form.fruits_per_tree@,
        "production.fruits_per_tree"@,
    ) + decimal_issue(form.average_fruit_weight_kg@, "production.average_fruit_weight_kg"@)
        + decimal_issue(form.loss_percent@, "production.loss_share"@) + decimal_issue(
        form.average_price_per_kg@,
        "production.average_price_per_kg"@,
    )
}

/// The production section without its grades.
#[verifier::spinoff_prover]
#[verifier::rlimit(40)]
fn read_production(form: &ProductionForm, errors: &mut Vec<FormError>) -> (r: ProductionFacts)
    ensures
        production_agrees(r, *form),
        share_is_hundredth(r.loss_share, form.loss_percent@),
        r.grades@.len() == 0,
        error_views(final(errors)@) == error_views(old(errors)@) + production_errors(*form),
{
    let ghost e0 = error_views(errors@);
    let sellable_yield_kg = read_decimal(form.sellable_yield_kg.as_str(), "production.sellable_yield_kg", errors);
    assert(error_views(errors@) =~= e0 + decimal_issue(form.sellable_yield_kg@, "production.sellable_yield_kg"@));
    let area_rai = read_decimal(form.area_rai.as_str(), "production.area_rai", errors);
    assert(error_views(errors@) =~= e0 + (decimal_issue(form.sellable_yield_kg@, "production.sellable_yield_kg"@) + decimal_issue(form.area_rai@, "production.area_rai"@)));
    let producing_trees = read_decimal(form.producing_trees.as_str(), "production.producing_trees", errors);
    assert(error_views(errors@) =~= e0 + ((decimal_issue(form.sellable_yield_kg@, "production.sellable_yield_kg"@) + decimal_issue(form.area_rai@, "production.area_rai"@)) + decimal_issue(form.producing_trees@, "production.producing_trees"@)));
    let fruits_per_tree = read_decimal(form.fruits_per_tree.as_str(), "production.fruits_per_tree", errors);
    assert(error_views(errors@) =~= e0 + (((decimal_issue(form.sellable_yield_kg@, "production.sellable_yield_kg"@) + decimal_issue(form.area_rai@, "production.area_rai"@)) + decimal_issue(form.producing_trees@, "production.producing_trees"@)) + decimal_issue(form.fruits_per_tree@, "production.fruits_per_tree"@)));
    let average_fruit_weight_kg = read_decimal(form.average_fruit_weight_kg.as_str(), "production.average_fruit_weight_kg", errors);
    assert(error_views(errors@) =~= e0 + ((((decimal_issue(form.sellable_yield_kg@, "production.sellable_yield_kg"@) + decimal_issue(form.area_rai@, "production.area_rai"@)) + decimal_issue(form.producing_trees@, "production.producing_trees"@)) + decimal_issue(form.fruits_per_tree@, "production.fruits_per_tree"@)) + decimal_issue(form.average_fruit_weight_kg@, "production.average_fruit_weight_kg"@)));
    let loss_share = read_share(form.loss_percent.as_str(), "production.loss_share", errors);
    assert(error_views(errors@) =~= e0 + (((((decimal_issue(form.sellable_yield_kg@, "production.sellable_yield_kg"@) + decimal_issue(form.area_rai@, "production.area_rai"@)) + decimal_issue(form.producing_trees@, "production.producing_trees"@)) + decimal_issue(form.fruits_per_tree@, "production.fruits_per_tree"@)) + decimal_issue(form.average_fruit_weight_kg@, "production.average_fruit_weight_kg"@)) + decimal_issue(form.loss_percent@, "production.loss_share"@)));
    let average_price_per_kg = read_decimal(form.average_price_per_kg.as_str(), "production.average_price_per_kg", errors);
    assert(error_views(errors@) =~= e0 + ((((((decimal_issue(form.sellable_yield_kg@, "production.sellable_yield_kg"@) + decimal_issue(form.area_rai@, "production.area_rai"@)) + decimal_issue(form.producing_trees@, "production.producing_trees"@)) + decimal_issue(form.fruits_per_tree@, "production.fruits_per_tree"@)) + decimal_issue(form.average_fruit_weight_kg@, "production.average_fruit_weight_kg"@)) + decimal_issue(form.loss_percent@, "production.loss_share"@)) + decimal_issue(form.average_price_per_kg@, "production.average_price_per_kg"@)));
    ProductionFacts {
        yield_source: form.yield_source,
        sellable_yield_kg,
        area_rai,
        producing_trees,
        fruits_per_tree,
        average_fruit_weight_kg,
        loss_share,
        price_source: form.price_source,
        average_price_per_kg,
        grades: Vec::new(),
    }
}

// -------------------------------------------------------------------- grades

/// The sellable kilograms kilogram entry converts against: known and not
/// zero, else none.
pub open spec fn usable_total(sellable: Option<Amount>) -> Option<Amount> {
    match sellable {
        Some(t) => if t.magnitude != 0 {
            Some(t)
        } else {
            None
        },
        None => None,
    }
}

/// A grade's share: its percentage over a hundred, or its kilograms over
/// the sellable kilograms.
pub open spec fn grade_share(g: GradeForm, entry: GradeEntry, total: Option<Amount>) -> Option<
    Amount,
> {
    match entry {
        GradeEntry::Percent => share_value(g.share_percent@),
        GradeEntry::Kilograms => match (decimal_value(g.share_kg@), total) {
            (Some(kg), Some(t)) => decimal_quotient(kg, t),
            _ => None,
        },
    }
}

pub open spec fn grade_errors(g: GradeForm, index: int, entry: GradeEntry, total: Option<Amount>) -> Seq<
    (Seq<char>, Seq<char>),
> {
    let kg_field = indexed("production.grades["@, index, "].share_kg"@);
    (match entry {
        GradeEntry::Percent => decimal_issue(
            g.share_percent@,
            indexed("production.grades["@, index, "].share"@),
        ),
        GradeEntry::Kilograms => decimal_issue(g.share_kg@, kg_field) + issue(
            decimal_value(g.share_kg@) is Some && total is None,
            kg_field,
            GRADE_KG_NEEDS_SELLABLE@,
        ),
    }) + decimal_issue(g.price_per_kg@, indexed("production.grades["@, index, "].price_per_kg"@))
}

pub open spec fn grade_agrees(f: GradeFacts, g: GradeForm, entry: GradeEntry, total: Option<Amount>) -> bool {
    &&& f.name@ == trim(g.name@)
    &&& f.share == grade_share(g, entry, total)
    &&& f.price_per_kg == decimal_value(g.price_per_kg@)
    &&& f.counts_as_quality_grade == g.counts_as_quality_grade
}

pub open spec fn grades_errors(gs: Seq<GradeForm>, entry: GradeEntry, total: Option<Amount>) -> Seq<
    (Seq<char>, Seq<char>),
>
    decreases gs.len(),
{
    if gs.len() == 0 {
        Seq::empty()
    } else {
        grades_errors(gs.drop_last(), entry, total) + grade_errors(
            gs.last(),
            gs.len() - 1,
            entry,
            total,
        )
    }
}

/// Kilograms over the sellable figure give a `Decimal` for every grade; a
/// quotient too large for one has no share.
pub open spec fn kg_shares_fit(gs: Seq<GradeForm>, entry: GradeEntry, total: Option<Amount>) -> bool {
    entry == GradeEntry::Kilograms ==> forall|i: int|
        0 <= i < gs.len() ==> match (decimal_value(#[trigger] gs[i].share_kg@), total) {
            (Some(kg), Some(t)) => decimal_quotient(kg, t) is Some,
            _ => true,
        }
}

fn read_grade(
    g: &GradeForm,
    index: usize,
    entry: GradeEntry,
    total: Option<Amount>,
    errors: &mut Vec<FormError>,
) -> (r: GradeFacts)
    requires
        total matches Some(t) ==> t.wf(),
    ensures
        grade_agrees(r, *g, entry, total),
        entry == GradeEntry::Percent ==> share_is_hundredth(r.share, g.share_percent@),
        error_views(final(errors)@) == error_views(old(errors)@) + grade_errors(
            *g,
            index as int,
            entry,
            total,
        ),
{
    let name = text_of_trim(g.name.as_str());
    let share = match entry {
        GradeEntry::Percent => {
            let field = indexed_field("production.grades[", index, "].share");
            read_share(g.share_percent.as_str(), field.as_str(), errors)
        },
        GradeEntry::Kilograms => {
            let field = indexed_field("production.grades[", index, "].share_kg");
            let kg = read_decimal(g.share_kg.as_str(), field.as_str(), errors);
            match (kg, total) {
                (Some(kg), Some(t)) => checked_quotient(kg, t),
                (Some(_), None) => {
                    let ghost before = errors@;
                    let m = chars_of(GRADE_KG_NEEDS_SELLABLE);
                    errors.push(FormError { field, message: string_of(&m) });
                    proof {
                        assert(errors@ == before.push(errors@.last()));
                        assert(error_views(errors@) =~= error_views(before) + issue(
                            true,
                            indexed("production.grades["@, index as int, "].share_kg"@),
                            GRADE_KG_NEEDS_SELLABLE@,
                        ));
                    }
                    None
                },
                (None, _) => None,
            }
        },
    };
    let field = indexed_field("production.grades[", index, "].price_per_kg");
    let price_per_kg = read_decimal(g.price_per_kg.as_str(), field.as_str(), errors);
    GradeFacts { name, share, price_per_kg, counts_as_quality_grade: g.counts_as_quality_grade }
}

fn read_grades(
    gs: &Vec<GradeForm>,
    entry: GradeEntry,
    total: Option<Amount>,
    errors: &mut Vec<FormError>,
) -> (r: Vec<GradeFacts>)
    requires
        total matches Some(t) ==> t.wf(),
    ensures
        r@.len() == gs@.len(),
        forall|i: int| 0 <= i < gs@.len() ==> grade_agrees(#[trigger] r@[i], gs@[i], entry, total),
        entry == GradeEntry::Percent ==> forall|i: int|
            0 <= i < gs@.len() ==> share_is_hundredth((#[trigger] r@[i]).share, gs@[i].share_percent@),
        error_views(final(errors)@) == error_views(old(errors)@) + grades_errors(gs@, entry, total),
{
    let mut out: Vec<GradeFacts> = Vec::new();
    let mut i: usize = 0;
    while i < gs.len()
        invariant
            i <= gs@.len(),
            total matches Some(t) ==> t.wf(),
            out@.len() == i,
            forall|j: int| 0 <= j < i ==> grade_agrees(#[trigger] out@[j], gs@[j], entry, total),
            entry == GradeEntry::Percent ==> forall|j: int|
                0 <= j < i ==> share_is_hundredth((#[trigger] out@[j]).share, gs@[j].share_percent@),
            error_views(errors@) == error_views(old(errors)@) + grades_errors(
                gs@.take(i as int),
                entry,
                total,
            ),
        decreases gs.len() - i,
    {
        let ghost before = errors@;
        let f = read_grade(&gs[i], i, entry, total, errors);
        proof {
            let t = gs@.take(i + 1);
            assert(t.drop_last() == gs@.take(i as int));
            assert(t.last() == gs@[i as int]);
            assert(error_views(errors@) == error_views(old(errors)@) + grades_errors(
                gs@.take(i as int),
                entry,
                total,
            ) + grade_errors(gs@[i as int], i as int, entry, total));
        }
        out.push(f);
        i += 1;
    }
    assert(gs@.take(gs@.len() as int) == gs@);
    out
}


// --------------------------------------------------------------------- costs

pub open spec fn variable_agrees(f: VariableCostFacts, line: VariableCostForm) -> bool {
    &&& f.name@ == trim(line.name@)
    &&& f.kind == line.kind
    &&& f.quantity == decimal_value(line.quantity@)
    &&& f.unit@ == trim(line.unit@)
    &&& f.unit_price == decimal_value(line.unit_price@)
}

pub open spec fn variable_errors(lines: Seq<VariableCostForm>) -> Seq<(Seq<char>, Seq<char>)>
    decreases lines.len(),
{
    if lines.len() == 0 {
        Seq::empty()
    } else {
        let i = lines.len() - 1;
        variable_errors(lines.drop_last()) + decimal_issue(
            lines.last().quantity@,
            indexed("variable_costs["@, i, "].quantity"@),
        ) + decimal_issue(lines.last().unit_price@, indexed("variable_costs["@, i, "].unit_price"@))
    }
}

fn read_variable_costs(lines: &Vec<VariableCostForm>, errors: &mut Vec<FormError>) -> (r: Vec<
    VariableCostFacts,
>)
    ensures
        r@.len() == lines@.len(),
        forall|i: int| 0 <= i < lines@.len() ==> variable_agrees(#[trigger] r@[i], lines@[i]),
        error_views(final(errors)@) == error_views(old(errors)@) + variable_errors(lines@),
{
    let mut out: Vec<VariableCostFacts> = Vec::new();
    let mut i: usize = 0;
    while i < lines.len()
        invariant
            i <= lines@.len(),
            out@.len() == i,
            forall|j: int| 0 <= j < i ==> variable_agrees(#[trigger] out@[j], lines@[j]),
            error_views(errors@) == error_views(old(errors)@) + variable_errors(
                lines@.take(i as int),
            ),
        decreases lines.len() - i,
    {
        let line = &lines[i];
        let name = text_of_trim(line.name.as_str());
        let field = indexed_field("variable_costs[", i, "].quantity");
        let quantity = read_decimal(line.quantity.as_str(), field.as_str(), errors);
        let unit = text_of_trim(line.unit.as_str());
        let field = indexed_field("variable_costs[", i, "].unit_price");
        let unit_price = read_decimal(line.unit_price.as_str(), field.as_str(), errors);
        proof {
            let t = lines@.take(i + 1);
            assert(t.drop_last() == lines@.take(i as int));
            assert(t.last() == lines@[i as int]);
        }
        out.push(VariableCostFacts { name, kind: line.kind, quantity, unit, unit_price });
        i += 1;
    }
    assert(lines@.take(lines@.len() as int) == lines@);
    out
}

pub open spec fn fixed_agrees(f: FixedCostFacts, line: FixedCostForm) -> bool {
    &&& f.name@ == trim(line.name@)
    &&& f.cash_kind == line.cash_kind
    &&& f.amount_per_year == decimal_value(line.amount_per_year@)
    &&& f.investment_base == decimal_value(line.investment_base@)
}

pub open spec fn fixed_errors(lines: Seq<FixedCostForm>) -> Seq<(Seq<char>, Seq<char>)>
    decreases lines.len(),
{
    if lines.len() == 0 {
        Seq::empty()
    } else {
        let i = lines.len() - 1;
        fixed_errors(lines.drop_last()) + decimal_issue(
            lines.last().amount_per_year@,
            indexed("fixed_costs["@, i, "].amount_per_year"@),
        ) + decimal_issue(lines.last().investment_base@, indexed("fixed_costs["@, i, "].investment_base"@))
    }
}

fn read_fixed_costs(lines: &Vec<FixedCostForm>, errors: &mut Vec<FormError>) -> (r: Vec<
    FixedCostFacts,
>)
    ensures
        r@.len() == lines@.len(),
        forall|i: int| 0 <= i < lines@.len() ==> fixed_agrees(#[trigger] r@[i], lines@[i]),
        error_views(final(errors)@) == error_views(old(errors)@) + fixed_errors(lines@),
{
    let mut out: Vec<FixedCostFacts> = Vec::new();
    let mut i: usize = 0;
    while i < lines.len()
        invariant
            i <= lines@.len(),
            out@.len() == i,
            forall|j: int| 0 <= j < i ==> fixed_agrees(#[trigger] out@[j], lines@[j]),
            error_views(errors@) == error_views(old(errors)@) + fixed_errors(lines@.take(i as int)),
        decreases lines.len() - i,
    {
        let line = &lines[i];
        let name = text_of_trim(line.name.as_str());
        let field = indexed_field("fixed_costs[", i, "].amount_per_year");
        let amount_per_year = read_decimal(line.amount_per_year.as_str(), field.as_str(), errors);
        let field = indexed_field("fixed_costs[", i, "].investment_base");
        let investment_base = read_decimal(line.investment_base.as_str(), field.as_str(), errors);
        proof {
            let t = lines@.take(i + 1);
            assert(t.drop_last() == lines@.take(i as int));
            assert(t.last() == lines@[i as int]);
        }
        out.push(FixedCostFacts { name, cash_kind: line.cash_kind, amount_per_year, investment_base });
        i += 1;
    }
    assert(lines@.take(lines@.len() as int) == lines@);
    out
}

// -------------------------------------------------------------------- health

/// The `i`-th question of the self-assessment.
pub open spec fn question_at(i: int) -> HealthQuestion {
    if i == 0 {
        HealthQuestion::ProfitAndCash
    } else if i == 1 {
        HealthQuestion::NextSeasonReserve
    } else if i == 2 {
        HealthQuestion::YieldAndQuality
    } else if i == 3 {
        HealthQuestion::LossControl
    } else if i == 4 {
        HealthQuestion::MultipleSalesChannels
    } else if i == 5 {
        HealthQuestion::PriceVolatility
    } else if i == 6 {
        HealthQuestion::ResourceEfficiency
    } else if i == 7 {
        HealthQuestion::EnvironmentalCare
    } else if i == 8 {
        HealthQuestion::FairAndSafeWork
    } else if i == 9 {
        HealthQuestion::LaborContinuity
    } else if i == 10 {
        HealthQuestion::DownsideSurvival
    } else {
        HealthQuestion::ContingencyPlan
    }
}

fn question(i: usize) -> (r: HealthQuestion)
    ensures
        r == question_at(i as int),
{
    if i == 0 {
        HealthQuestion::ProfitAndCash
    } else if i == 1 {
        HealthQuestion::NextSeasonReserve
    } else if i == 2 {
        HealthQuestion::YieldAndQuality
    } else if i == 3 {
        HealthQuestion::LossControl
    } else if i == 4 {
        HealthQuestion::MultipleSalesChannels
    } else if i == 5 {
        HealthQuestion::PriceVolatility
    } else if i == 6 {
        HealthQuestion::ResourceEfficiency
    } else if i == 7 {
        HealthQuestion::EnvironmentalCare
    } else if i == 8 {
        HealthQuestion::FairAndSafeWork
    } else if i == 9 {
        HealthQuestion::LaborContinuity
    } else if i == 10 {
        HealthQuestion::DownsideSurvival
    } else {
        HealthQuestion::ContingencyPlan
    }
}

/// The score typed for the `i`-th question; blank past the end of the list.
pub open spec fn score_text(scores: Seq<String>, i: int) -> Seq<char> {
    if i < scores.len() {
        scores[i]@
    } else {
        Seq::empty()
    }
}

pub open spec fn health_errors(scores: Seq<String>, n: nat) -> Seq<(Seq<char>, Seq<char>)>
    decreases n,
{
    if n == 0 {
        Seq::empty()
    } else {
        health_errors(scores, (n - 1) as nat) + integer_issue(
            score_text(scores, n - 1),
            indexed("health_answers["@, n - 1, "]"@),
            255,
        )
    }
}

/// The answers given among the first `n` questions: a question without a
/// readable score has no answer.
pub open spec fn health_answers(scores: Seq<String>, n: nat) -> Seq<HealthAnswer>
    decreases n,
{
    if n == 0 {
        Seq::empty()
    } else {
        health_answers(scores, (n - 1) as nat) + match integer_value(score_text(scores, n - 1), 255) {
            Some(v) => seq![HealthAnswer { question: question_at(n - 1), score: Some(v as u8) }],
            None => Seq::empty(),
        }
    }
}

fn read_health(scores: &Vec<String>, errors: &mut Vec<FormError>) -> (r: Vec<HealthAnswer>)
    ensures
        r@ == health_answers(scores@, 12),
        error_views(final(errors)@) == error_views(old(errors)@) + health_errors(scores@, 12),
{
    let mut out: Vec<HealthAnswer> = Vec::new();
    let mut i: usize = 0;
    while i < 12
        invariant
            i <= 12,
            out@ == health_answers(scores@, i as nat),
            error_views(errors@) == error_views(old(errors)@) + health_errors(scores@, i as nat),
        decreases 12 - i,
    {
        let field = indexed_field("health_answers[", i, "]");
        let score = if i < scores.len() {
            read_integer(scores[i].as_str(), field.as_str(), errors, 255)
        } else {
            read_integer("", field.as_str(), errors, 255)
        };
        proof {
            if i >= scores.len() {
                reveal_strlit("");
            }
        }
        match score {
            Some(v) => out.push(HealthAnswer { question: question(i), score: Some(v as u8) }),
            None => {},
        }
        proof {
            assert(out@ =~= health_answers(scores@, (i + 1) as nat));
        }
        i += 1;
    }
    out
}

// ------------------------------------------------------------------- targets

pub open spec fn targets_agree(t: TargetFacts, form: TargetsForm) -> bool {
    &&& t.yield_per_rai == decimal_value(form.yield_per_rai@)
    &&& t.yield_per_tree == decimal_value(form.yield_per_tree@)
    &&& t.yield_per_labor_day == decimal_value(form.yield_per_labor_day@)
    &&& t.yield_per_fertilizer_kg == decimal_value(form.yield_per_fertilizer_kg@)
    &&& t.yield_per_water_cubic_meter == decimal_value(form.yield_per_water_cubic_meter@)
    &&& t.yield_per_kwh == decimal_value(form.yield_per_kwh@)
    &&& t.quality_grade_share == share_value(form.quality_grade_percent@)
    &&& t.loss_share == share_value(form.loss_percent@)
    &&& t.cost_per_kg == decimal_value(form.cost_per_kg@)
}

pub open spec fn target_errors(form: TargetsForm) -> Seq<(Seq<char>, Seq<char>)> {
    decimal_issue(form.yield_per_rai@, "targets.yield_per_rai"@) + decimal_issue(
        form.yield_per_tree@,
        "targets.yield_per_tree"@,
    ) + decimal_issue(form.yield_per_labor_day@, "targets.yield_per_labor_day"@) + decimal_issue(
        form.yield_per_fertilizer_kg@,
        "targets.yield_per_fertilizer_kg"@,
    ) + decimal_issue(form.yield_per_water_cubic_meter@, "targets.yield_per_water_cubic_meter"@)
        + decimal_issue(form.yield_per_kwh@, "targets.yield_per_kwh"@) + decimal_issue(
        form.quality_grade_percent@,
        "targets.quality_grade_share"@,
    ) + decimal_issue(form.loss_percent@, "targets.loss_share"@) + decimal_issue(
        form.cost_per_kg@,
        "targets.cost_per_kg"@,
    )
}

#[verifier::spinoff_prover]
#[verifier::rlimit(40)]
fn read_targets(form: &TargetsForm, errors: &mut Vec<FormError>) -> (r: TargetFacts)
    ensures
        targets_agree(r, *form),
        share_is_hundredth(r.quality_grade_share, form.quality_grade_percent@),
        share_is_hundredth(r.loss_share, form.loss_percent@),
        error_views(final(errors)@) == error_views(old(errors)@) + target_errors(*form),
{
    let ghost e0 = error_views(errors@);
    let yield_per_rai = read_decimal(form.yield_per_rai.as_str(), "targets.yield_per_rai", errors);
    assert(error_views(errors@) =~= e0 + decimal_issue(form.yield_per_rai@, "targets.yield_per_rai"@));
    let yield_per_tree = read_decimal(form.yield_per_tree.as_str(), "targets.yield_per_tree", errors);
    assert(error_views(errors@) =~= e0 + (decimal_issue(form.yield_per_rai@, "targets.yield_per_rai"@) + decimal_issue(form.yield_per_tree@, "targets.yield_per_tree"@)));
    let yield_per_labor_day = read_decimal(form.yield_per_labor_day.as_str(), "targets.yield_per_labor_day", errors);
    assert(error_views(errors@) =~= e0 + ((decimal_issue(form.yield_per_rai@, "targets.yield_per_rai"@) + decimal_issue(form.yield_per_tree@, "targets.yield_per_tree"@)) + decimal_issue(form.yield_per_labor_day@, "targets.yield_per_labor_day"@)));
    let yield_per_fertilizer_kg = read_decimal(form.yield_per_fertilizer_kg.as_str(), "targets.yield_per_fertilizer_kg", errors);
    assert(error_views(errors@) =~= e0 + (((decimal_issue(form.yield_per_rai@, "targets.yield_per_rai"@) + decimal_issue(form.yield_per_tree@, "targets.yield_per_tree"@)) + decimal_issue(form.yield_per_labor_day@, "targets.yield_per_labor_day"@)) + decimal_issue(form.yield_per_fertilizer_kg@, "targets.yield_per_fertilizer_kg"@)));
    let yield_per_water_cubic_meter = read_decimal(form.yield_per_water_cubic_meter.as_str(), "targets.yield_per_water_cubic_meter", errors);
    assert(error_views(errors@) =~= e0 + ((((decimal_issue(form.yield_per_rai@, "targets.yield_per_rai"@) + decimal_issue(form.yield_per_tree@, "targets.yield_per_tree"@)) + decimal_issue(form.yield_per_labor_day@, "targets.yield_per_labor_day"@)) + decimal_issue(form.yield_per_fertilizer_kg@, "targets.yield_per_fertilizer_kg"@)) + decimal_issue(form.yield_per_water_cubic_meter@, "targets.yield_per_water_cubic_meter"@)));
    let yield_per_kwh = read_decimal(form.yield_per_kwh.as_str(), "targets.yield_per_kwh", errors);
    assert(error_views(errors@) =~= e0 + (((((decimal_issue(form.yield_per_rai@, "targets.yield_per_rai"@) + decimal_issue(form.yield_per_tree@, "targets.yield_per_tree"@)) + decimal_issue(form.yield_per_labor_day@, "targets.yield_per_labor_day"@)) + decimal_issue(form.yield_per_fertilizer_kg@, "targets.yield_per_fertilizer_kg"@)) + decimal_issue(form.yield_per_water_cubic_meter@, "targets.yield_per_water_cubic_meter"@)) + decimal_issue(form.yield_per_kwh@, "targets.yield_per_kwh"@)));
    let quality_grade_share = read_share(form.quality_grade_percent.as_str(), "targets.quality_grade_share", errors);
    assert(error_views(errors@) =~= e0 + ((((((decimal_issue(form.yield_per_rai@, "targets.yield_per_rai"@) + decimal_issue(form.yield_per_tree@, "targets.yield_per_tree"@)) + decimal_issue(form.yield_per_labor_day@, "targets.yield_per_labor_day"@)) + decimal_issue(form.yield_per_fertilizer_kg@, "targets.yield_per_fertilizer_kg"@)) + decimal_issue(form.yield_per_water_cubic_meter@, "targets.yield_per_water_cubic_meter"@)) + decimal_issue(form.yield_per_kwh@, "targets.yield_per_kwh"@)) + decimal_issue(form.quality_grade_percent@, "targets.quality_grade_share"@)));
    let loss_share = read_share(form.loss_percent.as_str(), "targets.loss_share", errors);
    assert(error_views(errors@) =~= e0 + (((((((decimal_issue(form.yield_per_rai@, "targets.yield_per_rai"@) + decimal_issue(form.yield_per_tree@, "targets.yield_per_tree"@)) + decimal_issue(form.yield_per_labor_day@, "targets.yield_per_labor_day"@)) + decimal_issue(form.yield_per_fertilizer_kg@, "targets.yield_per_fertilizer_kg"@)) + decimal_issue(form.yield_per_water_cubic_meter@, "targets.yield_per_water_cubic_meter"@)) + decimal_issue(form.yield_per_kwh@, "targets.yield_per_kwh"@)) + decimal_issue(form.quality_grade_percent@, "targets.quality_grade_share"@)) + decimal_issue(form.loss_percent@, "targets.loss_share"@)));
    let cost_per_kg = read_decimal(form.cost_per_kg.as_str(), "targets.cost_per_kg", errors);
    assert(error_views(errors@) =~= e0 + ((((((((decimal_issue(form.yield_per_rai@, "targets.yield_per_rai"@) + decimal_issue(form.yield_per_tree@, "targets.yield_per_tree"@)) + decimal_issue(form.yield_per_labor_day@, "targets.yield_per_labor_day"@)) + decimal_issue(form.yield_per_fertilizer_kg@, "targets.yield_per_fertilizer_kg"@)) + decimal_issue(form.yield_per_water_cubic_meter@, "targets.yield_per_water_cubic_meter"@)) + decimal_issue(form.yield_per_kwh@, "targets.yield_per_kwh"@)) + decimal_issue(form.quality_grade_percent@, "targets.quality_grade_share"@)) + decimal_issue(form.loss_percent@, "targets.loss_share"@)) + decimal_issue(form.cost_per_kg@, "targets.cost_per_kg"@)));
    TargetFacts {
        yield_per_rai,
        yield_per_tree,
        yield_per_labor_day,
        yield_per_fertilizer_kg,
        yield_per_water_cubic_meter,
        yield_per_kwh,
        quality_grade_share,
        loss_share,
        cost_per_kg,
    }
}


// ---------------------------------------------------------------- whole plan

/// The plan read from a form. `sellable` is the calculation's sellable
/// kilograms for the production section as read, which kilogram entry of
/// grades converts against.
pub open spec fn plan_agrees(p: PlanFacts, form: PlanForm, sellable: Option<Amount>) -> bool {
    &&& p.name@ == trim(form.name@)
    &&& market_agrees(p.market, form.market)
    &&& production_agrees(p.production, form.production)
    &&& p.production.grades@.len() == form.grades@.len()
    &&& forall|i: int|
        0 <= i < form.grades@.len() ==> grade_agrees(
            #[trigger] p.production.grades@[i],
            form.grades@[i],
            form.grade_entry,
            usable_total(sellable),
        )
    &&& p.variable_costs@.len() == form.variable_costs@.len()
    &&& forall|i: int|
        0 <= i < form.variable_costs@.len() ==> variable_agrees(
            #[trigger] p.variable_costs@[i],
            form.variable_costs@[i],
        )
    &&& p.fixed_costs@.len() == form.fixed_costs@.len()
    &&& forall|i: int|
        0 <= i < form.fixed_costs@.len() ==> fixed_agrees(
            #[trigger] p.fixed_costs@[i],
            form.fixed_costs@[i],
        )
    &&& p.health_answers@ == health_answers(form.health_scores@, 12)
    &&& targets_agree(p.targets, form.targets)
}

/// Every value of the form that cannot be read, by field, in the order of
/// the sections.
pub open spec fn plan_errors(form: PlanForm, sellable: Option<Amount>) -> Seq<(Seq<char>, Seq<char>)> {
    market_errors(form.market) + production_errors(form.production) + grades_errors(
        form.grades@,
        form.grade_entry,
        usable_total(sellable),
    ) + variable_errors(form.variable_costs@) + fixed_errors(form.fixed_costs@) + health_errors(
        form.health_scores@,
        12,
    ) + target_errors(form.targets)
}

/// Every share read from a percentage is that percentage's hundredth,
/// exactly where a `Decimal` holds it.
pub open spec fn shares_are_hundredths(p: PlanFacts, form: PlanForm) -> bool {
    &&& share_is_hundredth(p.market.largest_buyer_share, form.market.largest_buyer_percent@)
    &&& share_is_hundredth(p.production.loss_share, form.production.loss_percent@)
    &&& form.grade_entry == GradeEntry::Percent ==> forall|i: int|
        0 <= i < form.grades@.len() ==> share_is_hundredth(
            (#[trigger] p.production.grades@[i]).share,
            form.grades@[i].share_percent@,
        )
    &&& share_is_hundredth(p.targets.quality_grade_share, form.targets.quality_grade_percent@)
    &&& share_is_hundredth(p.targets.loss_share, form.targets.loss_percent@)
}

/// What the calculation's own validation finds wrong with a plan.
#[derive(Clone, Copy, Debug, PartialEq, Eq, Structural)]
pub enum InputIssueKind {
    Negative,
    OutsideShareRange,
    GradeSharesDoNotTotalOne,
    HealthScoreOutsideRange,
    DuplicateHealthAnswer,
}

#[derive(Clone, Debug, PartialEq, Eq)]
pub struct InputIssue {
    pub field: String,
    pub kind: InputIssueKind,
}

/// How the owner is told of an issue; a grade mix that does not add up is
/// explained in the unit the grades are typed in.
pub open spec fn issue_message(kind: InputIssueKind, entry: GradeEntry) -> &'static str {
    match kind {
        InputIssueKind::Negative => "กรุณากรอกตัวเลขตั้งแต่ 0 ขึ้นไป",
        InputIssueKind::OutsideShareRange => "กรุณากรอกสัดส่วนระหว่าง 0 ถึง 100%",
        InputIssueKind::GradeSharesDoNotTotalOne => match entry {
            GradeEntry::Percent => "สัดส่วนทุกเกรดรวมกันต้องเท่ากับ 100%",
            GradeEntry::Kilograms => "กิโลกรัมทุกเกรดรวมกันต้องเท่ากับกิโลที่คาดว่าจะขายได้",
        },
        InputIssueKind::HealthScoreOutsideRange => "กรุณาเลือกคะแนนระหว่าง 1 ถึง 5",
        InputIssueKind::DuplicateHealthAnswer => "คำถามข้อนี้มีคำตอบซ้ำ กรุณาเลือกเพียงคำตอบเดียว",
    }
}

fn issue_text(kind: InputIssueKind, entry: GradeEntry) -> (r: &'static str)
    ensures
        r == issue_message(kind, entry),
{
    match kind {
        InputIssueKind::Negative => "กรุณากรอกตัวเลขตั้งแต่ 0 ขึ้นไป",
        InputIssueKind::OutsideShareRange => "กรุณากรอกสัดส่วนระหว่าง 0 ถึง 100%",
        InputIssueKind::GradeSharesDoNotTotalOne => match entry {
            GradeEntry::Percent => "สัดส่วนทุกเกรดรวมกันต้องเท่ากับ 100%",
            GradeEntry::Kilograms => "กิโลกรัมทุกเกรดรวมกันต้องเท่ากับกิโลที่คาดว่าจะขายได้",
        },
        InputIssueKind::HealthScoreOutsideRange => "กรุณาเลือกคะแนนระหว่าง 1 ถึง 5",
        InputIssueKind::DuplicateHealthAnswer => "คำถามข้อนี้มีคำตอบซ้ำ กรุณาเลือกเพียงคำตอบเดียว",
    }
}

/// The issues as form errors: each under its field.
pub open spec fn issue_views(issues: Seq<InputIssue>, entry: GradeEntry) -> Seq<(Seq<char>, Seq<char>)> {
    issues.map_values(|i: InputIssue| (i.field@, issue_message(i.kind, entry)@))
}

/// The plan, or every reason it cannot be used: the unreadable values
/// first, then the issues the calculation's validation found in the plan.
pub fn settle_plan(
    plan: PlanFacts,
    errors: Vec<FormError>,
    issues: &Vec<InputIssue>,
    entry: GradeEntry,
) -> (r: Result<PlanFacts, Vec<FormError>>)
    ensures
        match r {
            Ok(p) => p == plan && errors@.len() == 0 && issues@.len() == 0,
            Err(e) => error_views(e@) == error_views(errors@) + issue_views(issues@, entry) && (
            errors@.len() > 0 || issues@.len() > 0),
        },
{
    let mut all = errors;
    let mut i: usize = 0;
    while i < issues.len()
        invariant
            i <= issues@.len(),
            error_views(all@) == error_views(errors@) + issue_views(issues@.take(i as int), entry),
            all@.len() == errors@.len() + i,
        decreases issues.len() - i,
    {
        let ghost before = all@;
        let message = issue_text(issues[i].kind, entry);
        let m = chars_of(message);
        all.push(FormError { field: issues[i].field.clone(), message: string_of(&m) });
        proof {
            assert(all@ == before.push(all@.last()));
            assert(issues@.take(i + 1) == issues@.take(i as int).push(issues@[i as int]));
            assert(all@.last().field@ == issues@[i as int].field@);
            assert(all@.last().message@ == issue_message(issues@[i as int].kind, entry)@);
            assert(issue_views(issues@.take(i + 1), entry) =~= issue_views(
                issues@.take(i as int),
                entry,
            ).push((issues@[i as int].field@, issue_message(issues@[i as int].kind, entry)@)));
            assert(error_views(all@) =~= error_views(before).push(
                (all@.last().field@, all@.last().message@),
            ));
            assert(error_views(all@) =~= error_views(errors@) + issue_views(
                issues@.take(i + 1),
                entry,
            ));
        }
        i += 1;
    }
    assert(issues@.take(issues@.len() as int) == issues@);
    if all.len() == 0 {
        Ok(plan)
    } else {
        Err(all)
    }
}

impl PlanForm {
    /// Reads every section of the form into a plan, and every value that
    /// cannot be read into an error under its field.
    pub fn read_plan(&self, sellable: Option<Amount>) -> (r: (PlanFacts, Vec<FormError>))
        requires
            sellable matches Some(t) ==> t.wf(),
        ensures
            plan_agrees(r.0, *self, sellable),
            shares_are_hundredths(r.0, *self),
            error_views(r.1@) == plan_errors(*self, sellable),
    {
        let mut errors: Vec<FormError> = Vec::new();
        let market = read_market(&self.market, &mut errors);
        let mut production = read_production(&self.production, &mut errors);
        let total = match sellable {
            Some(t) => if t.magnitude != 0 {
                Some(t)
            } else {
                None
            },
            None => None,
        };
        production.grades = read_grades(&self.grades, self.grade_entry, total, &mut errors);
        let variable_costs = read_variable_costs(&self.variable_costs, &mut errors);
        let fixed_costs = read_fixed_costs(&self.fixed_costs, &mut errors);
        let health_answers = read_health(&self.health_scores, &mut errors);
        let targets = read_targets(&self.targets, &mut errors);
        let name = text_of_trim(self.name.as_str());
        proof {
            assert(error_views(Seq::<FormError>::empty()) =~= Seq::empty());
        }
        (
            PlanFacts { name, market, production, variable_costs, fixed_costs, health_answers, targets },
            errors,
        )
    }

    /// The plan the calculation works from, or every reason it cannot be
    /// used. `sellable` is the calculation's sellable kilograms for the
    /// production section as read; `issues` are what its validation finds in
    /// the plan `read_plan` gives for the same `sellable`. Kilograms of a
    /// grade too large to divide by the sellable figure are left out.
    pub fn to_plan(&self, sellable: Option<Amount>, issues: &Vec<InputIssue>) -> (r: Result<
        PlanFacts,
        Vec<FormError>,
    >)
        requires
            sellable matches Some(t) ==> t.wf(),
            kg_shares_fit(self.grades@, self.grade_entry, usable_total(sellable)),
        ensures
            match r {
                Ok(p) => plan_agrees(p, *self, sellable) && plan_errors(*self, sellable).len() == 0
                    && issues@.len() == 0,
                Err(e) => error_views(e@) == plan_errors(*self, sellable) + issue_views(
                    issues@,
                    self.grade_entry,
                ) && (plan_errors(*self, sellable).len() > 0 || issues@.len() > 0),
            },
    {
        let (plan, errors) = self.read_plan(sellable);
        settle_plan(plan, errors, issues, self.grade_entry)
    }

    /// `to_plan` where every grade's kilograms divide by the sellable
    /// figure; `None` where one does not.
    pub fn checked_to_plan(&self, sellable: Option<Amount>, issues: &Vec<InputIssue>) -> (r: Option<
        Result<PlanFacts, Vec<FormError>>,
    >)
        requires
            sellable matches Some(t) ==> t.wf(),
        ensures
            r is None <==> !kg_shares_fit(self.grades@, self.grade_entry, usable_total(sellable)),
            r matches Some(Ok(p)) ==> plan_agrees(p, *self, sellable) && plan_errors(
                *self,
                sellable,
            ).len() == 0 && issues@.len() == 0,
            r matches Some(Err(e)) ==> error_views(e@) == plan_errors(*self, sellable) + issue_views(
                issues@,
                self.grade_entry,
            ),
    {
        if !self.shares_fit(sellable) {
            return None;
        }
        Some(self.to_plan(sellable, issues))
    }

    fn shares_fit(&self, sellable: Option<Amount>) -> (r: bool)
        requires
            sellable matches Some(t) ==> t.wf(),
        ensures
            r == kg_shares_fit(self.grades@, self.grade_entry, usable_total(sellable)),
    {
        let total = match sellable {
            Some(t) => if t.magnitude != 0 {
                Some(t)
            } else {
                None
            },
            None => None,
        };
        match (self.grade_entry, total) {
            (GradeEntry::Kilograms, Some(t)) => {
                let mut i: usize = 0;
                while i < self.grades.len()
                    invariant
                        i <= self.grades@.len(),
                        self.grade_entry == GradeEntry::Kilograms,
                        total == Some(t),
                        t.wf(),
                        total == usable_total(sellable),
                        forall|j: int|
                            0 <= j < i ==> match (decimal_value(#[trigger] self.grades@[j].share_kg@), total) {
                                (Some(kg), Some(t)) => decimal_quotient(kg, t) is Some,
                                _ => true,
                            },
                    decreases self.grades.len() - i,
                {
                    let mut scratch: Vec<FormError> = Vec::new();
                    let kg = read_decimal(self.grades[i].share_kg.as_str(), "", &mut scratch);
                    match kg {
                        Some(kg) => {
                            if checked_quotient(kg, t).is_none() {
                                return false;
                            }
                        },
                        None => {},
                    }
                    i += 1;
                }
                true
            },
            _ => true,
        }
    }
}


// ------------------------------------------------------------- plan to form

pub open spec fn amount_ok(v: Option<Amount>) -> bool {
    v matches Some(a) ==> a.wf()
}

pub open spec fn share_ok(v: Option<Amount>) -> bool {
    v matches Some(a) ==> a.wf() && a.fits_times_hundred()
}

/// A number written back into its field: without trailing zeros, or blank.
pub open spec fn number_words(v: Option<Amount>) -> Seq<char> {
    match v {
        Some(a) => decimal_normal_text(a),
        None => Seq::empty(),
    }
}

/// A share written back as a percentage.
pub open spec fn percent_words(v: Option<Amount>) -> Seq<char> {
    match v {
        Some(a) => decimal_normal_text(decimal_times_hundred(a)),
        None => Seq::empty(),
    }
}

pub open spec fn optional_words(v: Option<String>) -> Seq<char> {
    match v {
        Some(s) => s@,
        None => Seq::empty(),
    }
}

/// A grade's kilograms: its share of the sellable kilograms.
pub open spec fn grade_kg_words(share: Option<Amount>, sellable: Option<Amount>) -> Seq<char> {
    match (share, sellable) {
        (Some(s), Some(k)) => match decimal_product(s, k) {
            Some(p) => decimal_normal_text(p),
            None => Seq::empty(),
        },
        _ => Seq::empty(),
    }
}

/// The score given to a question: that of its first answer.
pub open spec fn score_of(answers: Seq<HealthAnswer>, q: HealthQuestion) -> Option<u8>
    decreases answers.len(),
{
    if answers.len() == 0 {
        None
    } else if answers[0].question == q {
        answers[0].score
    } else {
        score_of(answers.drop_first(), q)
    }
}

pub open spec fn score_words(score: Option<u8>) -> Seq<char> {
    match score {
        Some(v) => decimal_text(v as nat),
        None => Seq::empty(),
    }
}

/// A grade's kilograms can be written: its share of the sellable figure is a
/// `Decimal`.
pub open spec fn kg_writable(share: Option<Amount>, sellable: Option<Amount>) -> bool {
    match (share, sellable) {
        (Some(s), Some(k)) => decimal_product(s, k) is Some,
        _ => true,
    }
}

/// A plan every figure of which can be written back: each a `Decimal`, each
/// share a hundredfold still a `Decimal`, each grade's kilograms too.
pub open spec fn writable_plan(p: PlanFacts, sellable: Option<Amount>) -> bool {
    &&& amount_ok(sellable)
    &&& amount_ok(p.market.buyer_committed_kg)
    &&& amount_ok(p.market.minimum_price_per_kg)
    &&& share_ok(p.market.largest_buyer_share)
    &&& amount_ok(p.production.sellable_yield_kg)
    &&& amount_ok(p.production.area_rai)
    &&& amount_ok(p.production.producing_trees)
    &&& amount_ok(p.production.fruits_per_tree)
    &&& amount_ok(p.production.average_fruit_weight_kg)
    &&& share_ok(p.production.loss_share)
    &&& amount_ok(p.production.average_price_per_kg)
    &&& forall|i: int|
        0 <= i < p.production.grades@.len() ==> {
            let g = #[trigger] p.production.grades@[i];
            &&& share_ok(g.share)
            &&& amount_ok(g.price_per_kg)
            &&& kg_writable(g.share, sellable)
        }
    &&& forall|i: int|
        0 <= i < p.variable_costs@.len() ==> amount_ok(#[trigger] p.variable_costs@[i].quantity)
            && amount_ok(p.variable_costs@[i].unit_price)
    &&& forall|i: int|
        0 <= i < p.fixed_costs@.len() ==> amount_ok(#[trigger] p.fixed_costs@[i].amount_per_year)
            && amount_ok(p.fixed_costs@[i].investment_base)
    &&& amount_ok(p.targets.yield_per_rai)
    &&& amount_ok(p.targets.yield_per_tree)
    &&& amount_ok(p.targets.yield_per_labor_day)
    &&& amount_ok(p.targets.yield_per_fertilizer_kg)
    &&& amount_ok(p.targets.yield_per_water_cubic_meter)
    &&& amount_ok(p.targets.yield_per_kwh)
    &&& share_ok(p.targets.quality_grade_share)
    &&& share_ok(p.targets.loss_share)
    &&& amount_ok(p.targets.cost_per_kg)
}

/// The form that shows a plan: every figure as text, shares as
/// percentages, grades in percent with their kilograms beside them.
pub open spec fn form_agrees(f: PlanForm, p: PlanFacts, sellable: Option<Amount>) -> bool {
    &&& f.name@ == p.name@
    &&& f.market.target_customer@ == optional_words(p.market.target_customer)
    &&& f.market.buyer_committed_kg@ == number_words(p.market.buyer_committed_kg)
    &&& f.market.minimum_price_per_kg@ == number_words(p.market.minimum_price_per_kg)
    &&& f.market.sales_period@ == optional_words(p.market.sales_period)
    &&& f.market.sales_channels@ == match p.market.sales_channels {
        Some(n) => decimal_text(n as nat),
        None => Seq::empty(),
    }
    &&& f.market.largest_buyer_percent@ == percent_words(p.market.largest_buyer_share)
    &&& f.market.quality_requirements@ == optional_words(p.market.quality_requirements)
    &&& f.production.yield_source == p.production.yield_source
    &&& f.production.sellable_yield_kg@ == number_words(p.production.sellable_yield_kg)
    &&& f.production.area_rai@ == number_words(p.production.area_rai)
    &&& f.production.producing_trees@ == number_words(p.production.producing_trees)
    &&& f.production.fruits_per_tree@ == number_words(p.production.fruits_per_tree)
    &&& f.production.average_fruit_weight_kg@ == number_words(p.production.average_fruit_weight_kg)
    &&& f.production.loss_percent@ == percent_words(p.production.loss_share)
    &&& f.production.price_source == p.production.price_source
    &&& f.production.average_price_per_kg@ == number_words(p.production.average_price_per_kg)
    &&& f.grade_entry == GradeEntry::Percent
    &&& f.grades@.len() == p.production.grades@.len()
    &&& forall|i: int|
        0 <= i < f.grades@.len() ==> {
            let g = #[trigger] f.grades@[i];
            let h = p.production.grades@[i];
            &&& g.name@ == h.name@
            &&& g.share_percent@ == percent_words(h.share)
            &&& g.share_kg@ == grade_kg_words(h.share, sellable)
            &&& g.price_per_kg@ == number_words(h.price_per_kg)
            &&& g.counts_as_quality_grade == h.counts_as_quality_grade
        }
    &&& f.variable_costs@.len() == p.variable_costs@.len()
    &&& forall|i: int|
        0 <= i < f.variable_costs@.len() ==> {
            let l = #[trigger] f.variable_costs@[i];
            let m = p.variable_costs@[i];
            &&& l.name@ == m.name@
            &&& l.kind == m.kind
            &&& l.quantity@ == number_words(m.quantity)
            &&& l.unit@ == m.unit@
            &&& l.unit_price@ == number_words(m.unit_price)
        }
    &&& f.fixed_costs@.len() == p.fixed_costs@.len()
    &&& forall|i: int|
        0 <= i < f.fixed_costs@.len() ==> {
            let l = #[trigger] f.fixed_costs@[i];
            let m = p.fixed_costs@[i];
            &&& l.name@ == m.name@
            &&& l.cash_kind == m.cash_kind
            &&& l.amount_per_year@ == number_words(m.amount_per_year)
            &&& l.investment_base@ == number_words(m.investment_base)
        }
    &&& f.targets.yield_per_rai@ == number_words(p.targets.yield_per_rai)
    &&& f.targets.yield_per_tree@ == number_words(p.targets.yield_per_tree)
    &&& f.targets.yield_per_labor_day@ == number_words(p.targets.yield_per_labor_day)
    &&& f.targets.yield_per_fertilizer_kg@ == number_words(p.targets.yield_per_fertilizer_kg)
    &&& f.targets.yield_per_water_cubic_meter@ == number_words(p.targets.yield_per_water_cubic_meter)
    &&& f.targets.yield_per_kwh@ == number_words(p.targets.yield_per_kwh)
    &&& f.targets.quality_grade_percent@ == percent_words(p.targets.quality_grade_share)
    &&& f.targets.loss_percent@ == percent_words(p.targets.loss_share)
    &&& f.targets.cost_per_kg@ == number_words(p.targets.cost_per_kg)
    &&& f.health_scores@.len() == 12
    &&& forall|i: int|
        0 <= i < 12 ==> (#[trigger] f.health_scores@[i])@ == score_words(
            score_of(p.health_answers@, question_at(i)),
        )
}

/// A figure's text reads back as the figure: blank for none, otherwise a
/// number equal to it, with no error.
pub open spec fn reads_as(text: Seq<char>, v: Option<Amount>) -> bool {
    &&& decimal_reading(text) is Ok
    &&& match v {
        None => decimal_value(text) is None,
        Some(a) => decimal_value(text) matches Some(b) && b.wf() && value_eq(b, a),
    }
}

/// A share's text reads back as a hundred times the share.
pub open spec fn reads_as_percent(text: Seq<char>, v: Option<Amount>) -> bool {
    &&& decimal_reading(text) is Ok
    &&& match v {
        None => decimal_value(text) is None,
        Some(a) => decimal_value(text) matches Some(b) && b.wf() && b.numerator() * pow10(
            a.scale as nat,
        ) == a.numerator() * 100 * pow10(b.scale as nat),
    }
}

proof fn lemma_plain_numeral_is_kept(s: Seq<char>)
    requires
        plain_numeral(s),
    ensures
        trim(s) == s,
        without_commas(s) == s,
    decreases s.len(),
{
    assert(!is_white_space_at(s, 0));
    assert(trim_start(s) == s);
    assert(!is_white_space_at(s, s.len() - 1));
    assert(trim_end(s) == s);
    lemma_no_commas_kept(s);
}

spec fn is_white_space_at(s: Seq<char>, i: int) -> bool {
    crate::text::is_white_space(s[i])
}

proof fn lemma_no_commas_kept(s: Seq<char>)
    requires
        forall|i: int| 0 <= i < s.len() ==> #[trigger] s[i] != ',',
    ensures
        without_commas(s) == s,
    decreases s.len(),
{
    if s.len() > 0 {
        let d = s.drop_last();
        assert forall|i: int| 0 <= i < d.len() implies #[trigger] d[i] != ',' by {
            assert(d[i] == s[i]);
        }
        lemma_no_commas_kept(d);
        assert(s.last() == s[s.len() - 1]);
        assert(d.push(s.last()) =~= s);
    }
}

fn number_text(v: Option<Amount>) -> (r: String)
    requires
        amount_ok(v),
    ensures
        r@ == number_words(v),
        reads_as(r@, v),
{
    match v {
        Some(a) => {
            let t = normal_text(a);
            proof {
                lemma_plain_numeral_is_kept(t@);
            }
            t
        },
        None => {
            let t = String::new();
            proof {
                assert(trim(t@) =~= Seq::<char>::empty());
            }
            t
        },
    }
}

fn percent_text(v: Option<Amount>) -> (r: String)
    requires
        share_ok(v),
    ensures
        r@ == percent_words(v),
        reads_as_percent(r@, v),
{
    match v {
        Some(a) => {
            let h = times_hundred(a);
            let t = normal_text(h);
            proof {
                lemma_plain_numeral_is_kept(t@);
                let b = decimal_parse(t@)->0;
                let bn = b.numerator();
                let hn = h.numerator();
                let an = a.numerator();
                let pa = pow10(a.scale as nat);
                let pb = pow10(b.scale as nat);
                let ph = pow10(h.scale as nat);
                crate::amount::lemma_pow10_positive(h.scale as nat);
                assert(bn * ph == hn * pb);
                assert(hn * pa == an * 100 * ph);
                assert(bn * pa == an * 100 * pb) by (nonlinear_arith)
                    requires
                        bn * ph == hn * pb,
                        hn * pa == an * 100 * ph,
                        ph > 0,
                ;
            }
            t
        },
        None => {
            let t = String::new();
            proof {
                assert(trim(t@) =~= Seq::<char>::empty());
            }
            t
        },
    }
}

fn optional_text_words(v: &Option<String>) -> (r: String)
    ensures
        r@ == optional_words(*v),
{
    match v {
        Some(s) => s.clone(),
        None => String::new(),
    }
}

fn count_text(n: u128, max: u64) -> (r: String)
    requires
        n <= max,
    ensures
        r@ == decimal_text(n as nat),
        integer_reading(r@, max as int) == Ok::<Option<int>, ()>(Some(n as int)),
{
    proof {
        crate::text::law_decimal_text_reads_back(n as nat, max as int);
    }
    let mut out: Vec<char> = Vec::new();
    push_decimal(&mut out, n);
    assert(out@ =~= decimal_text(n as nat));
    string_of(&out)
}

fn first_score(answers: &Vec<HealthAnswer>, q: HealthQuestion) -> (r: Option<u8>)
    ensures
        r == score_of(answers@, q),
{
    let mut i: usize = 0;
    assert(answers@.skip(0) =~= answers@);
    while i < answers.len()
        invariant
            i <= answers@.len(),
            score_of(answers@, q) == score_of(answers@.skip(i as int), q),
        decreases answers.len() - i,
    {
        let ghost rest = answers@.skip(i as int);
        assert(rest.len() > 0 && rest[0] == answers@[i as int]);
        if answers[i].question == q {
            return answers[i].score;
        }
        assert(rest.drop_first() =~= answers@.skip(i + 1));
        i += 1;
    }
    proof {
        assert(answers@.skip(i as int).len() == 0);
    }
    None
}

/// Every figure written into the form reads back as the plan's: numbers as
/// themselves, shares as their percentages, counts and scores as
/// themselves, with no error.
pub open spec fn form_reads_back(f: PlanForm, p: PlanFacts) -> bool {
    &&& reads_as(f.market.buyer_committed_kg@, p.market.buyer_committed_kg)
    &&& reads_as(f.market.minimum_price_per_kg@, p.market.minimum_price_per_kg)
    &&& integer_reading(f.market.sales_channels@, u32::MAX as int) == Ok::<Option<int>, ()>(
        match p.market.sales_channels {
            Some(n) => Some(n as int),
            None => None,
        },
    )
    &&& reads_as_percent(f.market.largest_buyer_percent@, p.market.largest_buyer_share)
    &&& reads_as(f.production.sellable_yield_kg@, p.production.sellable_yield_kg)
    &&& reads_as(f.production.area_rai@, p.production.area_rai)
    &&& reads_as(f.production.producing_trees@, p.production.producing_trees)
    &&& reads_as(f.production.fruits_per_tree@, p.production.fruits_per_tree)
    &&& reads_as(f.production.average_fruit_weight_kg@, p.production.average_fruit_weight_kg)
    &&& reads_as_percent(f.production.loss_percent@, p.production.loss_share)
    &&& reads_as(f.production.average_price_per_kg@, p.production.average_price_per_kg)
    &&& forall|i: int|
        0 <= i < f.grades@.len() && i < p.production.grades@.len() ==> {
            &&& reads_as_percent((#[trigger] f.grades@[i]).share_percent@, p.production.grades@[i].share)
            &&& reads_as(f.grades@[i].price_per_kg@, p.production.grades@[i].price_per_kg)
        }
    &&& forall|i: int|
        0 <= i < f.variable_costs@.len() && i < p.variable_costs@.len() ==> {
            &&& reads_as((#[trigger] f.variable_costs@[i]).quantity@, p.variable_costs@[i].quantity)
            &&& reads_as(f.variable_costs@[i].unit_price@, p.variable_costs@[i].unit_price)
        }
    &&& forall|i: int|
        0 <= i < f.fixed_costs@.len() && i < p.fixed_costs@.len() ==> {
            &&& reads_as((#[trigger] f.fixed_costs@[i]).amount_per_year@, p.fixed_costs@[i].amount_per_year)
            &&& reads_as(f.fixed_costs@[i].investment_base@, p.fixed_costs@[i].investment_base)
        }
    &&& reads_as(f.targets.yield_per_rai@, p.targets.yield_per_rai)
    &&& reads_as(f.targets.yield_per_tree@, p.targets.yield_per_tree)
    &&& reads_as(f.targets.yield_per_labor_day@, p.targets.yield_per_labor_day)
    &&& reads_as(f.targets.yield_per_fertilizer_kg@, p.targets.yield_per_fertilizer_kg)
    &&& reads_as(f.targets.yield_per_water_cubic_meter@, p.targets.yield_per_water_cubic_meter)
    &&& reads_as(f.targets.yield_per_kwh@, p.targets.yield_per_kwh)
    &&& reads_as_percent(f.targets.quality_grade_percent@, p.targets.quality_grade_share)
    &&& reads_as_percent(f.targets.loss_percent@, p.targets.loss_share)
    &&& reads_as(f.targets.cost_per_kg@, p.targets.cost_per_kg)
    &&& forall|i: int|
        0 <= i < f.health_scores@.len() ==> integer_reading(
            (#[trigger] f.health_scores@[i])@,
            255,
        ) == Ok::<Option<int>, ()>(
            match score_of(p.health_answers@, question_at(i)) {
                Some(v) => Some(v as int),
                None => None,
            },
        )
}

impl PlanForm {
    /// The form that shows a plan. `sellable` is the calculation's sellable
    /// kilograms for the plan, against which each grade's share is also
    /// written in kilograms.
    pub fn from_plan(plan: &PlanFacts, sellable: Option<Amount>) -> (r: PlanForm)
        requires
            writable_plan(*plan, sellable),
        ensures
            form_agrees(r, *plan, sellable),
            form_reads_back(r, *plan),
    {
        let m = &plan.market;
        let market = MarketForm {
            target_customer: optional_text_words(&m.target_customer),
            buyer_committed_kg: number_text(m.buyer_committed_kg),
            minimum_price_per_kg: number_text(m.minimum_price_per_kg),
            sales_period: optional_text_words(&m.sales_period),
            sales_channels: match m.sales_channels {
                Some(n) => count_text(n as u128, 4294967295),
                None => {
                    let t = String::new();
                    proof {
                        assert(trim(t@) =~= Seq::<char>::empty());
                    }
                    t
                },
            },
            largest_buyer_percent: percent_text(m.largest_buyer_share),
            quality_requirements: optional_text_words(&m.quality_requirements),
        };
        let p = &plan.production;
        let production = ProductionForm {
            yield_source: p.yield_source,
            sellable_yield_kg: number_text(p.sellable_yield_kg),
            area_rai: number_text(p.area_rai),
            producing_trees: number_text(p.producing_trees),
            fruits_per_tree: number_text(p.fruits_per_tree),
            average_fruit_weight_kg: number_text(p.average_fruit_weight_kg),
            loss_percent: percent_text(p.loss_share),
            price_source: p.price_source,
            average_price_per_kg: number_text(p.average_price_per_kg),
        };
        let mut grades: Vec<GradeForm> = Vec::new();
        let mut i: usize = 0;
        while i < p.grades.len()
            invariant
                writable_plan(*plan, sellable),
                *p == plan.production,
                i <= p.grades@.len(),
                grades@.len() == i,
                forall|j: int|
                    0 <= j < i ==> {
                        let g = #[trigger] grades@[j];
                        let h = p.grades@[j];
                        &&& g.name@ == h.name@
                        &&& g.share_percent@ == percent_words(h.share)
                        &&& g.share_kg@ == grade_kg_words(h.share, sellable)
                        &&& g.price_per_kg@ == number_words(h.price_per_kg)
                        &&& g.counts_as_quality_grade == h.counts_as_quality_grade
                        &&& reads_as_percent(g.share_percent@, h.share)
                        &&& reads_as(g.price_per_kg@, h.price_per_kg)
                    },
            decreases p.grades.len() - i,
        {
            let h = &p.grades[i];
            assert(share_ok(h.share) && amount_ok(h.price_per_kg));
            let share_kg = match (h.share, sellable) {
                (Some(s), Some(k)) => match checked_product(s, k) {
                    Some(x) => normal_text(x),
                    None => String::new(),
                },
                _ => String::new(),
            };
            grades.push(
                GradeForm {
                    name: h.name.clone(),
                    share_percent: percent_text(h.share),
                    share_kg,
                    price_per_kg: number_text(h.price_per_kg),
                    counts_as_quality_grade: h.counts_as_quality_grade,
                },
            );
            i += 1;
        }
        let mut variable_costs: Vec<VariableCostForm> = Vec::new();
        let mut i: usize = 0;
        while i < plan.variable_costs.len()
            invariant
                writable_plan(*plan, sellable),
                i <= plan.variable_costs@.len(),
                variable_costs@.len() == i,
                forall|j: int|
                    0 <= j < i ==> {
                        let l = #[trigger] variable_costs@[j];
                        let m = plan.variable_costs@[j];
                        &&& l.name@ == m.name@
                        &&& l.kind == m.kind
                        &&& l.quantity@ == number_words(m.quantity)
                        &&& l.unit@ == m.unit@
                        &&& l.unit_price@ == number_words(m.unit_price)
                        &&& reads_as(l.quantity@, m.quantity)
                        &&& reads_as(l.unit_price@, m.unit_price)
                    },
            decreases plan.variable_costs.len() - i,
        {
            let line = &plan.variable_costs[i];
            assert(amount_ok(line.quantity) && amount_ok(line.unit_price));
            variable_costs.push(
                VariableCostForm {
                    name: line.name.clone(),
                    kind: line.kind,
                    quantity: number_text(line.quantity),
                    unit: line.unit.clone(),
                    unit_price: number_text(line.unit_price),
                },
            );
            i += 1;
        }
        let mut fixed_costs: Vec<FixedCostForm> = Vec::new();
        let mut i: usize = 0;
        while i < plan.fixed_costs.len()
            invariant
                writable_plan(*plan, sellable),
                i <= plan.fixed_costs@.len(),
                fixed_costs@.len() == i,
                forall|j: int|
                    0 <= j < i ==> {
                        let l = #[trigger] fixed_costs@[j];
                        let m = plan.fixed_costs@[j];
                        &&& l.name@ == m.name@
                        &&& l.cash_kind == m.cash_kind
                        &&& l.amount_per_year@ == number_words(m.amount_per_year)
                        &&& l.investment_base@ == number_words(m.investment_base)
                        &&& reads_as(l.amount_per_year@, m.amount_per_year)
                        &&& reads_as(l.investment_base@, m.investment_base)
                    },
            decreases plan.fixed_costs.len() - i,
        {
            let line = &plan.fixed_costs[i];
            assert(amount_ok(line.amount_per_year) && amount_ok(line.investment_base));
            fixed_costs.push(
                FixedCostForm {
                    name: line.name.clone(),
                    cash_kind: line.cash_kind,
                    amount_per_year: number_text(line.amount_per_year),
                    investment_base: number_text(line.investment_base),
                },
            );
            i += 1;
        }
        let t = &plan.targets;
        let targets = TargetsForm {
            yield_per_rai: number_text(t.yield_per_rai),
            yield_per_tree: number_text(t.yield_per_tree),
            yield_per_labor_day: number_text(t.yield_per_labor_day),
            yield_per_fertilizer_kg: number_text(t.yield_per_fertilizer_kg),
            yield_per_water_cubic_meter: number_text(t.yield_per_water_cubic_meter),
            yield_per_kwh: number_text(t.yield_per_kwh),
            quality_grade_percent: percent_text(t.quality_grade_share),
            loss_percent: percent_text(t.loss_share),
            cost_per_kg: number_text(t.cost_per_kg),
        };
        let mut health_scores: Vec<String> = Vec::new();
        let mut i: usize = 0;
        while i < 12
            invariant
                i <= 12,
                health_scores@.len() == i,
                forall|j: int|
                    0 <= j < i ==> (#[trigger] health_scores@[j])@ == score_words(
                        score_of(plan.health_answers@, question_at(j)),
                    ) && integer_reading(health_scores@[j]@, 255) == Ok::<Option<int>, ()>(
                        match score_of(plan.health_answers@, question_at(j)) {
                            Some(v) => Some(v as int),
                            None => None,
                        },
                    ),
            decreases 12 - i,
        {
            let words = match first_score(&plan.health_answers, question(i)) {
                Some(v) => count_text(v as u128, 255),
                None => {
                    let t = String::new();
                    proof {
                        assert(trim(t@) =~= Seq::<char>::empty());
                    }
                    t
                },
            };
            health_scores.push(words);
            i += 1;
        }
        PlanForm {
            name: plan.name.clone(),
            market,
            production,
            grade_entry: GradeEntry::Percent,
            grades,
            variable_costs,
            fixed_costs,
            targets,
            health_scores,
        }
    }
}


// -------------------------------------------------------- grade entry units

/// A grade's percentage as kilograms of `total`, to two places.
pub open spec fn kg_of_percent(share_percent: Seq<char>, total: Amount) -> Option<Amount> {
    match decimal_parse(trim(share_percent)) {
        Some(p) => match decimal_product(decimal_hundredth(p), total) {
            Some(kg) => Some(rounded_to(kg, 2, false)),
            None => None,
        },
        None => None,
    }
}

/// A grade's kilograms as a percentage of `total`, to two places.
pub open spec fn percent_of_kg(share_kg: Seq<char>, total: Amount) -> Option<Amount> {
    match decimal_parse(without_commas(trim(share_kg))) {
        Some(kg) => match decimal_quotient(kg, total) {
            Some(q) => Some(rounded_to(decimal_times_hundred(q), 2, false)),
            None => None,
        },
        None => None,
    }
}

/// Every typed quantity converts to the other unit without overflow: the
/// inputs on which the conversion is defined.
pub open spec fn conversion_fits(gs: Seq<GradeForm>, entry: GradeEntry, total: Amount) -> bool {
    forall|i: int|
        0 <= i < gs.len() ==> match entry {
            GradeEntry::Kilograms => match decimal_parse(trim(#[trigger] gs[i].share_percent@)) {
                Some(p) => decimal_product(decimal_hundredth(p), total) is Some,
                None => true,
            },
            GradeEntry::Percent => match decimal_parse(without_commas(trim(gs[i].share_kg@))) {
                Some(kg) => decimal_quotient(kg, total) matches Some(q) && q.fits_times_hundred(),
                None => true,
            },
        }
}

/// A grade after switching to `entry` against `total`: the field of the new
/// unit is filled from the typed one where that reads as a number.
pub open spec fn grade_converted(after: GradeForm, before: GradeForm, entry: GradeEntry, total: Amount) -> bool {
    &&& after.name == before.name
    &&& after.price_per_kg == before.price_per_kg
    &&& after.counts_as_quality_grade == before.counts_as_quality_grade
    &&& match entry {
        GradeEntry::Kilograms => {
            &&& after.share_percent == before.share_percent
            &&& after.share_kg@ == match kg_of_percent(before.share_percent@, total) {
                Some(kg) => decimal_normal_text(kg),
                None => before.share_kg@,
            }
        },
        GradeEntry::Percent => {
            &&& after.share_kg == before.share_kg
            &&& after.share_percent@ == match percent_of_kg(before.share_kg@, total) {
                Some(p) => decimal_normal_text(p),
                None => before.share_percent@,
            }
        },
    }
}

/// Everything of the form but its grades and grade unit is left as it was.
pub open spec fn same_but_grades(a: PlanForm, b: PlanForm) -> bool {
    &&& a.name == b.name
    &&& a.market == b.market
    &&& a.production == b.production
    &&& a.variable_costs@ == b.variable_costs@
    &&& a.fixed_costs@ == b.fixed_costs@
    &&& a.targets == b.targets
    &&& a.health_scores@ == b.health_scores@
}

fn convert_grade(g: &GradeForm, entry: GradeEntry, total: Amount) -> (r: GradeForm)
    requires
        total.wf(),
        match entry {
            GradeEntry::Kilograms => match decimal_parse(trim(g.share_percent@)) {
                Some(p) => decimal_product(decimal_hundredth(p), total) is Some,
                None => true,
            },
            GradeEntry::Percent => match decimal_parse(without_commas(trim(g.share_kg@))) {
                Some(kg) => decimal_quotient(kg, total) matches Some(q) && q.fits_times_hundred(),
                None => true,
            },
        },
    ensures
        grade_converted(r, *g, entry, total),
{
    let mut out = GradeForm {
        name: g.name.clone(),
        share_percent: g.share_percent.clone(),
        share_kg: g.share_kg.clone(),
        price_per_kg: g.price_per_kg.clone(),
        counts_as_quality_grade: g.counts_as_quality_grade,
    };
    match entry {
        GradeEntry::Kilograms => {
            let t = text_of_trim(g.share_percent.as_str());
            match crate::amount::parse_decimal_text(t.as_str()) {
                Some(p) => match checked_product(hundredth(p), total) {
                    Some(kg) => {
                        out.share_kg = normal_text(round_two(kg));
                    },
                    None => {},
                },
                None => {},
            }
        },
        GradeEntry::Percent => {
            let t = trim_text(g.share_kg.as_str());
            match read_typed_number(&t) {
                Some(kg) => match checked_quotient(kg, total) {
                    Some(q) => {
                        out.share_percent = normal_text(round_two(times_hundred(q)));
                    },
                    None => {},
                },
                None => {},
            }
        },
    }
    out
}

impl PlanForm {
    /// Switches the unit grade quantities are typed in, filling the other
    /// unit's field from the typed one so the conversion is visible.
    /// `sellable` is the calculation's sellable kilograms for the form as
    /// typed, grades aside. Kilogram entry needs that figure known and not
    /// zero; without it the switch to kilograms is refused, and nothing
    /// changes.
    pub fn set_grade_entry(&mut self, entry: GradeEntry, sellable: Option<Amount>) -> (r: bool)
        requires
            sellable matches Some(t) ==> t.wf(),
            entry != old(self).grade_entry ==> (usable_total(sellable) matches Some(t)
                ==> conversion_fits(old(self).grades@, entry, t)),
        ensures
            r <==> !(entry == GradeEntry::Kilograms && old(self).grade_entry == GradeEntry::Percent
                && usable_total(sellable) is None),
            !r ==> *final(self) == *old(self),
            r ==> final(self).grade_entry == entry,
            same_but_grades(*final(self), *old(self)),
            entry == old(self).grade_entry ==> r && *final(self) == *old(self),
            entry != old(self).grade_entry ==> match usable_total(sellable) {
                None => if entry == GradeEntry::Percent {
                    r && final(self).grade_entry == entry && final(self).grades@ == old(self).grades@
                } else {
                    !r && *final(self) == *old(self)
                },
                Some(t) => {
                    &&& r
                    &&& final(self).grade_entry == entry
                    &&& final(self).grades@.len() == old(self).grades@.len()
                    &&& forall|i: int|
                        0 <= i < old(self).grades@.len() ==> grade_converted(
                            #[trigger] final(self).grades@[i],
                            old(self).grades@[i],
                            entry,
                            t,
                        )
                },
            },
    {
        if entry == self.grade_entry {
            return true;
        }
        let total = match sellable {
            Some(t) => if t.magnitude != 0 {
                Some(t)
            } else {
                None
            },
            None => None,
        };
        match total {
            None => {
                match entry {
                    GradeEntry::Percent => {
                        self.grade_entry = entry;
                        true
                    },
                    GradeEntry::Kilograms => false,
                }
            },
            Some(t) => {
                let ghost old_grades = self.grades@;
                let mut converted: Vec<GradeForm> = Vec::new();
                let mut i: usize = 0;
                while i < self.grades.len()
                    invariant
                        self.grades@ == old_grades,
                        t.wf(),
                        conversion_fits(old_grades, entry, t),
                        i <= old_grades.len(),
                        converted@.len() == i,
                        forall|j: int|
                            0 <= j < i ==> grade_converted(
                                #[trigger] converted@[j],
                                old_grades[j],
                                entry,
                                t,
                            ),
                    decreases self.grades.len() - i,
                {
                    assert(match entry {
                        GradeEntry::Kilograms => match decimal_parse(
                            trim(old_grades[i as int].share_percent@),
                        ) {
                            Some(p) => decimal_product(decimal_hundredth(p), t) is Some,
                            None => true,
                        },
                        GradeEntry::Percent => match decimal_parse(
                            without_commas(trim(old_grades[i as int].share_kg@)),
                        ) {
                            Some(kg) => decimal_quotient(kg, t) matches Some(q)
                                && q.fits_times_hundred(),
                            None => true,
                        },
                    });
                    let g = convert_grade(&self.grades[i], entry, t);
                    converted.push(g);
                    i += 1;
                }
                self.grades = converted;
                self.grade_entry = entry;
                true
            },
        }
    }
}


/// Whether switching to `entry` against `sellable` converts every typed
/// quantity.
pub open spec fn switch_fits(gs: Seq<GradeForm>, entry: GradeEntry, sellable: Option<Amount>) -> bool {
    match usable_total(sellable) {
        Some(t) => conversion_fits(gs, entry, t),
        None => true,
    }
}

fn grade_converts(g: &GradeForm, entry: GradeEntry, total: Amount) -> (r: bool)
    requires
        total.wf(),
    ensures
        r == match entry {
            GradeEntry::Kilograms => match decimal_parse(trim(g.share_percent@)) {
                Some(p) => decimal_product(decimal_hundredth(p), total) is Some,
                None => true,
            },
            GradeEntry::Percent => match decimal_parse(without_commas(trim(g.share_kg@))) {
                Some(kg) => decimal_quotient(kg, total) matches Some(q) && q.fits_times_hundred(),
                None => true,
            },
        },
{
    match entry {
        GradeEntry::Kilograms => {
            let t = text_of_trim(g.share_percent.as_str());
            match crate::amount::parse_decimal_text(t.as_str()) {
                Some(p) => checked_product(hundredth(p), total).is_some(),
                None => true,
            }
        },
        GradeEntry::Percent => {
            let t = trim_text(g.share_kg.as_str());
            match read_typed_number(&t) {
                Some(kg) => match checked_quotient(kg, total) {
                    Some(q) => q.fits_hundredfold(),
                    None => false,
                },
                None => true,
            }
        },
    }
}

impl PlanForm {
    /// `set_grade_entry` where every typed quantity converts; `None`, with
    /// the form unchanged, where one is too large to convert.
    pub fn checked_set_grade_entry(&mut self, entry: GradeEntry, sellable: Option<Amount>) -> (r:
        Option<bool>)
        requires
            sellable matches Some(t) ==> t.wf(),
        ensures
            r is None <==> (entry != old(self).grade_entry && !switch_fits(
                old(self).grades@,
                entry,
                sellable,
            )),
            r is None ==> *final(self) == *old(self),
            r matches Some(b) ==> same_but_grades(*final(self), *old(self)),
    {
        if entry != self.grade_entry {
            match sellable {
                Some(t) => if t.magnitude != 0 {
                    let mut i: usize = 0;
                    while i < self.grades.len()
                        invariant
                            t.wf(),
                            sellable == Some(t),
                            t.magnitude != 0,
                            entry != self.grade_entry,
                            *self == *old(self),
                            i <= self.grades@.len(),
                            forall|j: int|
                                0 <= j < i ==> match entry {
                                    GradeEntry::Kilograms => match decimal_parse(
                                        trim(#[trigger] self.grades@[j].share_percent@),
                                    ) {
                                        Some(p) => decimal_product(decimal_hundredth(p), t) is Some,
                                        None => true,
                                    },
                                    GradeEntry::Percent => match decimal_parse(
                                        without_commas(trim(self.grades@[j].share_kg@)),
                                    ) {
                                        Some(kg) => decimal_quotient(kg, t) matches Some(q)
                                            && q.fits_times_hundred(),
                                        None => true,
                                    },
                                },
                        decreases self.grades.len() - i,
                    {
                        if !grade_converts(&self.grades[i], entry, t) {
                            proof {
                                assert(usable_total(sellable) == Some(t));
                                let gs = self.grades@;
                                assert(gs[i as int] == self.grades[i as int]);
                                assert(gs[i as int].share_percent@ == self.grades@[i as int].share_percent@);
                                assert(!conversion_fits(gs, entry, t));
                            }
                            return None;
                        }
                        i += 1;
                    }
                },
                None => {},
            }
        }
        Some(self.set_grade_entry(entry, sellable))
    }
}


impl PlanForm {
    /// The errors a save of the form would report that belong to one
    /// section; a section's check ignores values outside it.
    pub fn section_errors(&self, section: &str, sellable: Option<Amount>, issues: &Vec<InputIssue>) -> (r:
        Vec<FormError>)
        requires
            sellable matches Some(t) ==> t.wf(),
            kg_shares_fit(self.grades@, self.grade_entry, usable_total(sellable)),
        ensures
            error_views(r@) == errors_in_section(
                plan_errors(*self, sellable) + issue_views(issues@, self.grade_entry),
                section@,
            ),
    {
        match self.to_plan(sellable, issues) {
            Ok(_) => {
                let r: Vec<FormError> = Vec::new();
                proof {
                    let all = plan_errors(*self, sellable) + issue_views(issues@, self.grade_entry);
                    assert(all =~= Seq::empty());
                    assert(all.filter(|e: (Seq<char>, Seq<char>)| belongs_to_section(e.0, section@))
                        =~= Seq::empty()) by {
                        reveal_with_fuel(Seq::filter, 1);
                    }
                    assert(error_views(r@) =~= Seq::empty());
                }
                r
            },
            Err(errors) => section_errors_from(&errors, section),
        }
    }
}


impl PlanForm {
    /// `section_errors` where every grade's kilograms divide by the
    /// sellable figure; `None` where one does not.
    pub fn checked_section_errors(
        &self,
        section: &str,
        sellable: Option<Amount>,
        issues: &Vec<InputIssue>,
    ) -> (r: Option<Vec<FormError>>)
        requires
            sellable matches Some(t) ==> t.wf(),
        ensures
            r is None <==> !kg_shares_fit(self.grades@, self.grade_entry, usable_total(sellable)),
            r matches Some(e) ==> error_views(e@) == errors_in_section(
                plan_errors(*self, sellable) + issue_views(issues@, self.grade_entry),
                section@,
            ),
    {
        if !self.shares_fit(sellable) {
            return None;
        }
        Some(self.section_errors(section, sellable, issues))
    }
}


// ------------------------------------------------- a grade in the other unit

/// The kilograms of one grade's typed percentage against the sellable
/// figure, or nothing where there is no such grade, no number or no
/// sellable figure.
pub open spec fn grade_kg_reading(gs: Seq<GradeForm>, index: int, sellable: Option<Amount>) -> Option<
    Amount,
> {
    if 0 <= index < gs.len() {
        match (decimal_parse(trim(gs[index].share_percent@)), usable_total(sellable)) {
            (Some(p), Some(t)) => decimal_product(decimal_hundredth(p), t),
            _ => None,
        }
    } else {
        None
    }
}

/// The percentage of one grade's typed kilograms of the sellable figure.
pub open spec fn grade_percent_reading(gs: Seq<GradeForm>, index: int, sellable: Option<Amount>) -> Option<
    Amount,
> {
    if 0 <= index < gs.len() {
        match (decimal_parse(without_commas(trim(gs[index].share_kg@))), usable_total(sellable)) {
            (Some(kg), Some(t)) => match decimal_quotient(kg, t) {
                Some(q) => Some(decimal_times_hundred(q)),
                None => None,
            },
            _ => None,
        }
    } else {
        None
    }
}

/// One grade's conversion into `entry` gives a `Decimal`: the inputs on
/// which it is defined.
pub open spec fn grade_unit_fits(
    gs: Seq<GradeForm>,
    index: int,
    sellable: Option<Amount>,
    entry: GradeEntry,
) -> bool {
    0 <= index < gs.len() ==> match usable_total(sellable) {
        Some(t) => conversion_fits(seq![gs[index]], entry, t),
        None => true,
    }
}

impl PlanForm {
    /// One grade's typed percentage as kilograms of the sellable figure.
    pub fn grade_kg_from_percent(&self, index: usize, sellable: Option<Amount>) -> (r: Option<Amount>)
        requires
            sellable matches Some(t) ==> t.wf(),
            grade_unit_fits(self.grades@, index as int, sellable, GradeEntry::Kilograms),
        ensures
            r == grade_kg_reading(self.grades@, index as int, sellable),
    {
        if index >= self.grades.len() {
            return None;
        }
        let total = match sellable {
            Some(t) => if t.magnitude != 0 {
                Some(t)
            } else {
                None
            },
            None => None,
        };
        let g = &self.grades[index];
        let text = text_of_trim(g.share_percent.as_str());
        match (crate::amount::parse_decimal_text(text.as_str()), total) {
            (Some(p), Some(t)) => {
                assert(conversion_fits(seq![self.grades@[index as int]], GradeEntry::Kilograms, t));
                assert(seq![self.grades@[index as int]][0] == self.grades@[index as int]);
                checked_product(hundredth(p), t)
            },
            _ => None,
        }
    }

    /// One grade's typed kilograms as a percentage of the sellable figure.
    pub fn grade_percent_from_kg(&self, index: usize, sellable: Option<Amount>) -> (r: Option<Amount>)
        requires
            sellable matches Some(t) ==> t.wf(),
            grade_unit_fits(self.grades@, index as int, sellable, GradeEntry::Percent),
        ensures
            r == grade_percent_reading(self.grades@, index as int, sellable),
    {
        if index >= self.grades.len() {
            return None;
        }
        let total = match sellable {
            Some(t) => if t.magnitude != 0 {
                Some(t)
            } else {
                None
            },
            None => None,
        };
        let g = &self.grades[index];
        let text = trim_text(g.share_kg.as_str());
        match (read_typed_number(&text), total) {
            (Some(kg), Some(t)) => {
                let ghost one = seq![self.grades@[index as int]];
                assert(conversion_fits(one, GradeEntry::Percent, t));
                assert(one[0] == self.grades@[index as int]);
                assert(one[0].share_percent@ == g.share_percent@);
                match checked_quotient(kg, t) {
                    Some(q) => Some(times_hundred(q)),
                    None => None,
                }
            },
            _ => None,
        }
    }

    /// Both conversions of one grade where they are defined; `None` where
    /// a typed quantity is too large to convert.
    pub fn checked_grade_units(&self, index: usize, sellable: Option<Amount>) -> (r: (
        Option<Option<Amount>>,
        Option<Option<Amount>>,
    ))
        requires
            sellable matches Some(t) ==> t.wf(),
        ensures
            r.0 is None <==> !grade_unit_fits(self.grades@, index as int, sellable, GradeEntry::Kilograms),
            r.0 matches Some(kg) ==> kg == grade_kg_reading(self.grades@, index as int, sellable),
            r.1 is None <==> !grade_unit_fits(self.grades@, index as int, sellable, GradeEntry::Percent),
            r.1 matches Some(p) ==> p == grade_percent_reading(self.grades@, index as int, sellable),
    {
        let mut to_kg = true;
        let mut to_percent = true;
        if index < self.grades.len() {
            match sellable {
                Some(t) => if t.magnitude != 0 {
                    let g = &self.grades[index];
                    to_kg = grade_converts(g, GradeEntry::Kilograms, t);
                    to_percent = grade_converts(g, GradeEntry::Percent, t);
                    proof {
                        let one = seq![self.grades@[index as int]];
                        assert(one[0] == self.grades@[index as int]);
                        assert(conversion_fits(one, GradeEntry::Kilograms, t) == to_kg);
                        assert(conversion_fits(one, GradeEntry::Percent, t) == to_percent);
                    }
                },
                None => {},
            }
        }
        let kg = if to_kg {
            Some(self.grade_kg_from_percent(index, sellable))
        } else {
            None
        };
        let percent = if to_percent {
            Some(self.grade_percent_from_kg(index, sellable))
        } else {
            None
        };
        (kg, percent)
    }
}


// ------------------------------------------------------------- grade totals

/// A grade's typed quantity: its percentage, or its kilograms with
/// separators set aside.
pub open spec fn typed_quantity(g: GradeForm, kilograms: bool) -> Option<Amount> {
    if kilograms {
        decimal_parse(without_commas(trim(g.share_kg@)))
    } else {
        decimal_parse(trim(g.share_percent@))
    }
}

/// The total of the typed quantities, from zero, grade by grade; nothing
/// once one grade has no number.
pub open spec fn typed_total(gs: Seq<GradeForm>, kilograms: bool) -> Option<Amount>
    decreases gs.len(),
{
    if gs.len() == 0 {
        Some(Amount { negative: false, magnitude: 0, scale: 0 })
    } else {
        match (typed_total(gs.drop_last(), kilograms), typed_quantity(gs.last(), kilograms)) {
            (Some(t), Some(q)) => decimal_sum(t, q),
            _ => None,
        }
    }
}

/// Every step of the total stays a `Decimal`: the inputs on which adding
/// up does not overflow.
pub open spec fn total_fits(gs: Seq<GradeForm>, kilograms: bool) -> bool
    decreases gs.len(),
{
    gs.len() == 0 || (total_fits(gs.drop_last(), kilograms) && match (
        typed_total(gs.drop_last(), kilograms),
        typed_quantity(gs.last(), kilograms),
    ) {
        (Some(t), Some(q)) => decimal_sum(t, q) is Some,
        _ => true,
    })
}

fn typed_quantity_of(g: &GradeForm, kilograms: bool) -> (r: Option<Amount>)
    ensures
        r == typed_quantity(*g, kilograms),
        r matches Some(a) ==> a.wf(),
{
    if kilograms {
        let t = trim_text(g.share_kg.as_str());
        read_typed_number(&t)
    } else {
        let t = text_of_trim(g.share_percent.as_str());
        crate::amount::parse_decimal_text(t.as_str())
    }
}

/// The total, or `Err` where a step would overflow.
fn add_up(gs: &Vec<GradeForm>, kilograms: bool) -> (r: Result<Option<Amount>, ()>)
    ensures
        r is Err <==> !total_fits(gs@, kilograms),
        r matches Ok(t) ==> t == typed_total(gs@, kilograms),
{
    let mut total: Option<Amount> = Some(Amount { negative: false, magnitude: 0, scale: 0 });
    let mut i: usize = 0;
    while i < gs.len()
        invariant
            i <= gs@.len(),
            total == typed_total(gs@.take(i as int), kilograms),
            total_fits(gs@.take(i as int), kilograms),
            total matches Some(a) ==> a.wf(),
        decreases gs.len() - i,
    {
        let ghost prefix = gs@.take(i + 1);
        assert(prefix.drop_last() == gs@.take(i as int));
        assert(prefix.last() == gs@[i as int]);
        let q = typed_quantity_of(&gs[i], kilograms);
        match (total, q) {
            (Some(t), Some(q)) => {
                match checked_sum(t, q) {
                    Some(s) => {
                        total = Some(s);
                    },
                    None => {
                        proof {
                            lemma_total_fits_prefix(gs@, kilograms, i + 1);
                        }
                        return Err(());
                    },
                }
            },
            _ => {
                total = None;
            },
        }
        i += 1;
    }
    assert(gs@.take(gs@.len() as int) == gs@);
    Ok(total)
}

proof fn lemma_total_fits_prefix(gs: Seq<GradeForm>, kilograms: bool, n: int)
    requires
        0 <= n <= gs.len(),
        !total_fits(gs.take(n), kilograms),
    ensures
        !total_fits(gs, kilograms),
    decreases gs.len(),
{
    if n < gs.len() {
        assert(gs.drop_last().take(n) == gs.take(n));
        lemma_total_fits_prefix(gs.drop_last(), kilograms, n);
    } else {
        assert(gs.take(n) == gs);
    }
}

impl PlanForm {
    /// The total of the grades' typed percentages, or nothing while one is
    /// not a number.
    pub fn grade_total_percent(&self) -> (r: Option<Amount>)
        requires
            total_fits(self.grades@, false),
        ensures
            r == typed_total(self.grades@, false),
    {
        match add_up(&self.grades, false) {
            Ok(t) => t,
            Err(()) => None,
        }
    }

    /// The total of the grades' typed kilograms, or nothing while one is
    /// not a number.
    pub fn grade_total_kg(&self) -> (r: Option<Amount>)
        requires
            total_fits(self.grades@, true),
        ensures
            r == typed_total(self.grades@, true),
    {
        match add_up(&self.grades, true) {
            Ok(t) => t,
            Err(()) => None,
        }
    }

    /// Both totals where adding up does not overflow; `None` where it
    /// would.
    pub fn checked_grade_totals(&self) -> (r: Option<(Option<Amount>, Option<Amount>)>)
        ensures
            r is None <==> !(total_fits(self.grades@, false) && total_fits(self.grades@, true)),
            r matches Some(pair) ==> pair.0 == typed_total(self.grades@, false) && pair.1
                == typed_total(self.grades@, true),
    {
        match (add_up(&self.grades, false), add_up(&self.grades, true)) {
            (Ok(p), Ok(k)) => Some((p, k)),
            _ => None,
        }
    }
}


// ------------------------------------------------------- writable plans

fn amount_fits(v: Option<Amount>) -> (r: bool)
    ensures
        r == amount_ok(v),
{
    match v {
        Some(a) => a.magnitude < 0x1_0000_0000_0000_0000_0000_0000 && a.scale <= 28,
        None => true,
    }
}

fn share_fits(v: Option<Amount>) -> (r: bool)
    ensures
        r == share_ok(v),
{
    match v {
        Some(a) => a.magnitude < 0x1_0000_0000_0000_0000_0000_0000 && a.scale <= 28
            && a.fits_hundredfold(),
        None => true,
    }
}

fn plan_writable(plan: &PlanFacts, sellable: Option<Amount>) -> (r: bool)
    ensures
        r == writable_plan(*plan, sellable),
{
    let m = &plan.market;
    let p = &plan.production;
    let t = &plan.targets;
    if !(amount_fits(sellable) && amount_fits(m.buyer_committed_kg) && amount_fits(
        m.minimum_price_per_kg,
    ) && share_fits(m.largest_buyer_share) && amount_fits(p.sellable_yield_kg) && amount_fits(
        p.area_rai,
    ) && amount_fits(p.producing_trees) && amount_fits(p.fruits_per_tree) && amount_fits(
        p.average_fruit_weight_kg,
    ) && share_fits(p.loss_share) && amount_fits(p.average_price_per_kg) && amount_fits(
        t.yield_per_rai,
    ) && amount_fits(t.yield_per_tree) && amount_fits(t.yield_per_labor_day) && amount_fits(
        t.yield_per_fertilizer_kg,
    ) && amount_fits(t.yield_per_water_cubic_meter) && amount_fits(t.yield_per_kwh) && share_fits(
        t.quality_grade_share,
    ) && share_fits(t.loss_share) && amount_fits(t.cost_per_kg)) {
        return false;
    }
    let mut i: usize = 0;
    while i < p.grades.len()
        invariant
            *p == plan.production,
            amount_ok(sellable),
            i <= p.grades@.len(),
            forall|j: int|
                0 <= j < i ==> {
                    let g = #[trigger] p.grades@[j];
                    &&& share_ok(g.share)
                    &&& amount_ok(g.price_per_kg)
                    &&& kg_writable(g.share, sellable)
                },
        decreases p.grades.len() - i,
    {
        let g = &p.grades[i];
        if !(share_fits(g.share) && amount_fits(g.price_per_kg)) {
            return false;
        }
        match (g.share, sellable) {
            (Some(s), Some(k)) => {
                if checked_product(s, k).is_none() {
                    return false;
                }
                assert(decimal_product(s, k) is Some);
            },
            _ => {},
        }
        assert(p.grades@[i as int] == *g);
        i += 1;
    }
    let mut i: usize = 0;
    while i < plan.variable_costs.len()
        invariant
            i <= plan.variable_costs@.len(),
            forall|j: int|
                0 <= j < i ==> amount_ok(#[trigger] plan.variable_costs@[j].quantity) && amount_ok(
                    plan.variable_costs@[j].unit_price,
                ),
        decreases plan.variable_costs.len() - i,
    {
        let l = &plan.variable_costs[i];
        if !(amount_fits(l.quantity) && amount_fits(l.unit_price)) {
            return false;
        }
        i += 1;
    }
    let mut i: usize = 0;
    while i < plan.fixed_costs.len()
        invariant
            i <= plan.fixed_costs@.len(),
            forall|j: int|
                0 <= j < i ==> amount_ok(#[trigger] plan.fixed_costs@[j].amount_per_year) && amount_ok(
                    plan.fixed_costs@[j].investment_base,
                ),
        decreases plan.fixed_costs.len() - i,
    {
        let l = &plan.fixed_costs[i];
        if !(amount_fits(l.amount_per_year) && amount_fits(l.investment_base)) {
            return false;
        }
        i += 1;
    }
    true
}

impl PlanForm {
    /// `from_plan` where every figure of the plan can be written back;
    /// `None` where one cannot.
    pub fn checked_from_plan(plan: &PlanFacts, sellable: Option<Amount>) -> (r: Option<PlanForm>)
        ensures
            r is None <==> !writable_plan(*plan, sellable),
            r matches Some(f) ==> form_agrees(f, *plan, sellable) && form_reads_back(f, *plan),
    {
        if plan_writable(plan, sellable) {
            Some(PlanForm::from_plan(plan, sellable))
        } else {
            None
        }
    }
}


// ------------------------------------------------------- section badges

/// Whether the form reads as a plan: no value unreadable and no issue found.
pub open spec fn form_reads(form: PlanForm, sellable: Option<Amount>, issues: Seq<InputIssue>) -> bool {
    plan_errors(form, sellable).len() == 0 && issues.len() == 0
}

impl PlanForm {
    /// A section's badge, the form's reading decided here: a form that does
    /// not read as a plan shows that a value needs checking; one that does
    /// shows what the calculation found (`analysis`).
    pub fn section_readiness_of(
        &self,
        section: &str,
        sellable: Option<Amount>,
        issues: &Vec<InputIssue>,
        analysis: AnalysisFacts,
    ) -> (r: SectionReadiness)
        requires
            sellable matches Some(t) ==> t.wf(),
            kg_shares_fit(self.grades@, self.grade_entry, usable_total(sellable)),
        ensures
            r == readiness_reading(
                *self,
                if form_reads(*self, sellable, issues@) {
                    Some(analysis)
                } else {
                    None
                },
                section@,
            ),
    {
        let found = match self.to_plan(sellable, issues) {
            Ok(_) => Some(analysis),
            Err(_) => None,
        };
        self.section_readiness(section, found)
    }

    /// `section_readiness_of` where every grade's kilograms divide by the
    /// sellable figure; `None` where one does not.
    pub fn checked_section_readiness(
        &self,
        section: &str,
        sellable: Option<Amount>,
        issues: &Vec<InputIssue>,
        analysis: AnalysisFacts,
    ) -> (r: Option<SectionReadiness>)
        requires
            sellable matches Some(t) ==> t.wf(),
        ensures
            r is None <==> !kg_shares_fit(self.grades@, self.grade_entry, usable_total(sellable)),
            r matches Some(b) ==> b == readiness_reading(
                *self,
                if form_reads(*self, sellable, issues@) {
                    Some(analysis)
                } else {
                    None
                },
                section@,
            ),
    {
        if !self.shares_fit(sellable) {
            return None;
        }
        Some(self.section_readiness_of(section, sellable, issues, analysis))
    }
}

} // verus!
