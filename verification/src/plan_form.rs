//! What an owner types into the plan's sections, kept as text so an invalid
//! value stays visible for correction, and the rules that read it.

use vstd::prelude::*;
use crate::amount::{read_typed_number, without_commas, Amount, decimal_parse};
use crate::plan_ui::VariableCostKind;
use crate::text::{
    chars_of, chars_start_with, parse_unsigned, parse_unsigned_chars, push_str, same_text,
    starts_with, string_of, trim, trim_text,
};

verus! {

#[derive(Clone, Debug, Default, PartialEq)]
pub struct MarketForm {
    pub target_customer: String,
    pub buyer_committed_kg: String,
    pub minimum_price_per_kg: String,
    pub sales_period: String,
    pub sales_channels: String,
    pub largest_buyer_percent: String,
    pub quality_requirements: String,
}

/// Which unit the owner is typing grade quantities in. The stored share is
/// always a fraction; this only decides which text field is read.
#[derive(Clone, Copy, Debug, Default, PartialEq, Eq, Structural)]
pub enum GradeEntry {
    #[default]
    Percent,
    Kilograms,
}

#[derive(Clone, Debug, Default, PartialEq)]
pub struct GradeForm {
    pub name: String,
    pub share_percent: String,
    /// Kilograms for this grade, read only while the grade entry is
    /// `Kilograms`; converted to a share against sellable kilograms.
    pub share_kg: String,
    pub price_per_kg: String,
    pub counts_as_quality_grade: bool,
}

#[derive(Clone, Debug, Default, PartialEq)]
pub struct TargetsForm {
    pub yield_per_rai: String,
    pub yield_per_tree: String,
    pub yield_per_labor_day: String,
    pub yield_per_fertilizer_kg: String,
    pub yield_per_water_cubic_meter: String,
    pub yield_per_kwh: String,
    pub quality_grade_percent: String,
    pub loss_percent: String,
    pub cost_per_kg: String,
}

/// Whether the sellable yield is typed as one figure or derived from the
/// orchard facts. The other branch's values stay in the form.
#[derive(Clone, Copy, Debug, Default, PartialEq, Eq, Structural)]
pub enum YieldSource {
    Direct,
    #[default]
    Derived,
}

/// Whether the price is one average or a price per grade.
#[derive(Clone, Copy, Debug, Default, PartialEq, Eq, Structural)]
pub enum PriceSource {
    Average,
    #[default]
    ByGrade,
}

/// Whether a fixed cost is paid in cash this season or spread over years.
#[derive(Clone, Copy, Debug, PartialEq, Eq, Structural)]
pub enum CashKind {
    Cash,
    NonCash,
}

#[derive(Clone, Debug, Default, PartialEq)]
pub struct ProductionForm {
    pub yield_source: YieldSource,
    pub sellable_yield_kg: String,
    pub area_rai: String,
    pub producing_trees: String,
    pub fruits_per_tree: String,
    pub average_fruit_weight_kg: String,
    pub loss_percent: String,
    pub price_source: PriceSource,
    pub average_price_per_kg: String,
}

#[derive(Clone, Debug, PartialEq)]
pub struct VariableCostForm {
    pub name: String,
    pub kind: VariableCostKind,
    pub quantity: String,
    pub unit: String,
    pub unit_price: String,
}

impl Default for VariableCostForm {
    /// A blank line of the kind "other".
    fn default() -> (r: Self)
        ensures
            r.name@.len() == 0,
            r.kind == VariableCostKind::Other,
            r.quantity@.len() == 0,
            r.unit@.len() == 0,
            r.unit_price@.len() == 0,
    {
        VariableCostForm {
            name: String::new(),
            kind: VariableCostKind::Other,
            quantity: String::new(),
            unit: String::new(),
            unit_price: String::new(),
        }
    }
}

#[derive(Clone, Debug, PartialEq)]
pub struct FixedCostForm {
    pub name: String,
    pub cash_kind: CashKind,
    pub amount_per_year: String,
    pub investment_base: String,
}

impl Default for FixedCostForm {
    /// A blank line paid in cash.
    fn default() -> (r: Self)
        ensures
            r.name@.len() == 0,
            r.cash_kind == CashKind::Cash,
            r.amount_per_year@.len() == 0,
            r.investment_base@.len() == 0,
    {
        FixedCostForm {
            name: String::new(),
            cash_kind: CashKind::Cash,
            amount_per_year: String::new(),
            investment_base: String::new(),
        }
    }
}

/// Everything an owner has typed about one season's plan, section by
/// section.
#[derive(Clone, Debug, Default, PartialEq)]
pub struct PlanForm {
    pub name: String,
    pub market: MarketForm,
    pub production: ProductionForm,
    pub grade_entry: GradeEntry,
    pub grades: Vec<GradeForm>,
    pub variable_costs: Vec<VariableCostForm>,
    pub fixed_costs: Vec<FixedCostForm>,
    pub targets: TargetsForm,
    pub health_scores: Vec<String>,
}

fn copied_market(m: &MarketForm) -> (r: MarketForm)
    ensures
        r == *m,
{
    MarketForm {
        target_customer: m.target_customer.clone(),
        buyer_committed_kg: m.buyer_committed_kg.clone(),
        minimum_price_per_kg: m.minimum_price_per_kg.clone(),
        sales_period: m.sales_period.clone(),
        sales_channels: m.sales_channels.clone(),
        largest_buyer_percent: m.largest_buyer_percent.clone(),
        quality_requirements: m.quality_requirements.clone(),
    }
}

fn copied_production(p: &ProductionForm) -> (r: ProductionForm)
    ensures
        r == *p,
{
    ProductionForm {
        yield_source: p.yield_source,
        sellable_yield_kg: p.sellable_yield_kg.clone(),
        area_rai: p.area_rai.clone(),
        producing_trees: p.producing_trees.clone(),
        fruits_per_tree: p.fruits_per_tree.clone(),
        average_fruit_weight_kg: p.average_fruit_weight_kg.clone(),
        loss_percent: p.loss_percent.clone(),
        price_source: p.price_source,
        average_price_per_kg: p.average_price_per_kg.clone(),
    }
}

fn copied_targets(t: &TargetsForm) -> (r: TargetsForm)
    ensures
        r == *t,
{
    TargetsForm {
        yield_per_rai: t.yield_per_rai.clone(),
        yield_per_tree: t.yield_per_tree.clone(),
        yield_per_labor_day: t.yield_per_labor_day.clone(),
        yield_per_fertilizer_kg: t.yield_per_fertilizer_kg.clone(),
        yield_per_water_cubic_meter: t.yield_per_water_cubic_meter.clone(),
        yield_per_kwh: t.yield_per_kwh.clone(),
        quality_grade_percent: t.quality_grade_percent.clone(),
        loss_percent: t.loss_percent.clone(),
        cost_per_kg: t.cost_per_kg.clone(),
    }
}

fn copied_grades(v: &Vec<GradeForm>) -> (r: Vec<GradeForm>)
    ensures
        r@ == v@,
{
    let mut out: Vec<GradeForm> = Vec::new();
    let mut i: usize = 0;
    while i < v.len()
        invariant
            i <= v.len(),
            out@ == v@.subrange(0, i as int),
        decreases v.len() - i,
    {
        let g = &v[i];
        out.push(
            GradeForm {
                name: g.name.clone(),
                share_percent: g.share_percent.clone(),
                share_kg: g.share_kg.clone(),
                price_per_kg: g.price_per_kg.clone(),
                counts_as_quality_grade: g.counts_as_quality_grade,
            },
        );
        i = i + 1;
    }
    assert(v@.subrange(0, v@.len() as int) == v@);
    out
}

fn copied_variable_costs(v: &Vec<VariableCostForm>) -> (r: Vec<VariableCostForm>)
    ensures
        r@ == v@,
{
    let mut out: Vec<VariableCostForm> = Vec::new();
    let mut i: usize = 0;
    while i < v.len()
        invariant
            i <= v.len(),
            out@ == v@.subrange(0, i as int),
        decreases v.len() - i,
    {
        let c = &v[i];
        out.push(
            VariableCostForm {
                name: c.name.clone(),
                kind: c.kind,
                quantity: c.quantity.clone(),
                unit: c.unit.clone(),
                unit_price: c.unit_price.clone(),
            },
        );
        i = i + 1;
    }
    assert(v@.subrange(0, v@.len() as int) == v@);
    out
}

fn copied_fixed_costs(v: &Vec<FixedCostForm>) -> (r: Vec<FixedCostForm>)
    ensures
        r@ == v@,
{
    let mut out: Vec<FixedCostForm> = Vec::new();
    let mut i: usize = 0;
    while i < v.len()
        invariant
            i <= v.len(),
            out@ == v@.subrange(0, i as int),
        decreases v.len() - i,
    {
        let c = &v[i];
        out.push(
            FixedCostForm {
                name: c.name.clone(),
                cash_kind: c.cash_kind,
                amount_per_year: c.amount_per_year.clone(),
                investment_base: c.investment_base.clone(),
            },
        );
        i = i + 1;
    }
    assert(v@.subrange(0, v@.len() as int) == v@);
    out
}

fn copied_texts(v: &Vec<String>) -> (r: Vec<String>)
    ensures
        r@ == v@,
{
    let mut out: Vec<String> = Vec::new();
    let mut i: usize = 0;
    while i < v.len()
        invariant
            i <= v.len(),
            out@ == v@.subrange(0, i as int),
        decreases v.len() - i,
    {
        out.push(v[i].clone());
        i = i + 1;
    }
    assert(v@.subrange(0, v@.len() as int) == v@);
    out
}

/// The sections of the form that can be saved one at a time.
pub open spec fn is_form_section(section: Seq<char>) -> bool {
    ||| section == "market"@
    ||| section == "production"@
    ||| section == "variable-costs"@
    ||| section == "fixed-costs"@
    ||| section == "targets"@
    ||| section == "health"@
}

impl PlanForm {
    /// Takes one section from a submitted form and keeps everything else
    /// as stored; the production section brings its grades along. An
    /// unknown section changes nothing and is refused.
    pub fn replace_section_from(&mut self, section: &str, submitted: &Self) -> (r: bool)
        ensures
            r == is_form_section(section@),
            final(self).name == old(self).name,
            final(self).grade_entry == old(self).grade_entry,
            final(self).market == (if section@ == "market"@ {
                submitted.market
            } else {
                old(self).market
            }),
            final(self).production == (if section@ == "production"@ {
                submitted.production
            } else {
                old(self).production
            }),
            final(self).grades@ == (if section@ == "production"@ {
                submitted.grades@
            } else {
                old(self).grades@
            }),
            final(self).variable_costs@ == (if section@ == "variable-costs"@ {
                submitted.variable_costs@
            } else {
                old(self).variable_costs@
            }),
            final(self).fixed_costs@ == (if section@ == "fixed-costs"@ {
                submitted.fixed_costs@
            } else {
                old(self).fixed_costs@
            }),
            final(self).targets == (if section@ == "targets"@ {
                submitted.targets
            } else {
                old(self).targets
            }),
            final(self).health_scores@ == (if section@ == "health"@ {
                submitted.health_scores@
            } else {
                old(self).health_scores@
            }),
    {
        proof {
            reveal_strlit("market");
            reveal_strlit("production");
            reveal_strlit("variable-costs");
            reveal_strlit("fixed-costs");
            reveal_strlit("targets");
            reveal_strlit("health");
            assert("market"@[0] == 'm' && "production"@[0] == 'p' && "variable-costs"@[0] == 'v'
                && "fixed-costs"@[0] == 'f' && "targets"@[0] == 't' && "health"@[0] == 'h');
        }
        if same_text(section, "market") {
            self.market = copied_market(&submitted.market);
        } else if same_text(section, "production") {
            self.production = copied_production(&submitted.production);
            self.grades = copied_grades(&submitted.grades);
        } else if same_text(section, "variable-costs") {
            self.variable_costs = copied_variable_costs(&submitted.variable_costs);
        } else if same_text(section, "fixed-costs") {
            self.fixed_costs = copied_fixed_costs(&submitted.fixed_costs);
        } else if same_text(section, "targets") {
            self.targets = copied_targets(&submitted.targets);
        } else if same_text(section, "health") {
            self.health_scores = copied_texts(&submitted.health_scores);
        } else {
            return false;
        }
        true
    }
}

/// A value that could not be read, by the field it was typed in.
#[derive(Clone, Debug, PartialEq, Eq)]
pub struct FormError {
    pub field: String,
    pub message: String,
}

#[derive(Clone, Copy, Debug, PartialEq, Eq, Structural)]
pub enum ReadinessTone {
    Ready,
    Missing,
    Optional,
}

#[derive(Clone, Copy, Debug, PartialEq, Eq)]
pub struct SectionReadiness {
    pub label: &'static str,
    pub tone: ReadinessTone,
}

/// Why kilograms of a grade cannot become a share yet.
pub const GRADE_KG_NEEDS_SELLABLE: &'static str = "ยังขาดกิโลที่คาดว่าจะขายได้ จึงแปลงกิโลกรัมของเกรดเป็นสัดส่วนไม่ได้";

/// Which section of the form a field's errors are shown in.
pub open spec fn belongs_to_section(field: Seq<char>, section: Seq<char>) -> bool {
    if section == "market"@ {
        starts_with(field, "market."@)
    } else if section == "production"@ {
        starts_with(field, "production."@)
    } else if section == "variable-costs"@ {
        starts_with(field, "variable_costs["@)
    } else if section == "fixed-costs"@ {
        starts_with(field, "fixed_costs["@)
    } else if section == "targets"@ {
        starts_with(field, "targets."@)
    } else if section == "health"@ {
        starts_with(field, "health_answers"@)
    } else {
        false
    }
}

pub fn field_belongs_to_section(field: &str, section: &str) -> (r: bool)
    ensures
        r == belongs_to_section(field@, section@),
{
    let f = chars_of(field);
    if same_text(section, "market") {
        chars_start_with(&f, "market.")
    } else if same_text(section, "production") {
        chars_start_with(&f, "production.")
    } else if same_text(section, "variable-costs") {
        chars_start_with(&f, "variable_costs[")
    } else if same_text(section, "fixed-costs") {
        chars_start_with(&f, "fixed_costs[")
    } else if same_text(section, "targets") {
        chars_start_with(&f, "targets.")
    } else if same_text(section, "health") {
        chars_start_with(&f, "health_answers")
    } else {
        false
    }
}

/// A form error as text: its field and its message.
pub open spec fn error_views(errors: Seq<FormError>) -> Seq<(Seq<char>, Seq<char>)> {
    errors.map_values(|e: FormError| (e.field@, e.message@))
}

/// The errors shown in one section, in the order they were found.
pub open spec fn errors_in_section(errors: Seq<(Seq<char>, Seq<char>)>, section: Seq<char>) -> Seq<
    (Seq<char>, Seq<char>),
> {
    errors.filter(|e: (Seq<char>, Seq<char>)| belongs_to_section(e.0, section))
}

/// The errors of a whole form that belong to one section; a section's
/// validation ignores invalid values outside it.
pub fn section_errors_from(errors: &Vec<FormError>, section: &str) -> (r: Vec<FormError>)
    ensures
        error_views(r@) == errors_in_section(error_views(errors@), section@),
{
    let mut out: Vec<FormError> = Vec::new();
    let mut i: usize = 0;
    while i < errors.len()
        invariant
            0 <= i <= errors.len(),
            error_views(out@) == errors_in_section(error_views(errors@.take(i as int)), section@),
        decreases errors.len() - i,
    {
        let e = &errors[i];
        let ghost v = (e.field@, e.message@);
        proof {
            let p = |x: (Seq<char>, Seq<char>)| belongs_to_section(x.0, section@);
            let longer = error_views(errors@.take(i + 1));
            assert(longer.drop_last() == error_views(errors@.take(i as int)));
            assert(longer.last() == v);
            reveal(Seq::filter);
            assert(longer.filter(p) == if p(v) {
                error_views(errors@.take(i as int)).filter(p).push(v)
            } else {
                error_views(errors@.take(i as int)).filter(p)
            });
        }
        if field_belongs_to_section(e.field.as_str(), section) {
            let copy = FormError { field: e.field.clone(), message: e.message.clone() };
            proof {
                assert(error_views(out@.push(copy)) == error_views(out@).push(v));
            }
            out.push(copy);
        }
        i += 1;
    }
    assert(errors@.take(errors.len() as int) == errors@);
    out
}

/// A section shows every error of its own fields and no other.
pub proof fn law_section_shows_its_own_errors(
    errors: Seq<(Seq<char>, Seq<char>)>,
    section: Seq<char>,
)
    ensures
        forall|i: int|
            0 <= i < errors_in_section(errors, section).len() ==> belongs_to_section(
                #[trigger] errors_in_section(errors, section)[i].0,
                section,
            ),
        forall|i: int|
            0 <= i < errors.len() && belongs_to_section(errors[i].0, section)
                ==> errors_in_section(errors, section).contains(#[trigger] errors[i]),
{
    let keep = |e: (Seq<char>, Seq<char>)| belongs_to_section(e.0, section);
    assert forall|i: int| 0 <= i < errors.filter(keep).len() implies belongs_to_section(
        #[trigger] errors.filter(keep)[i].0,
        section,
    ) by {
        errors.lemma_filter_pred(keep, i);
    }
    assert forall|i: int| 0 <= i < errors.len() && belongs_to_section(errors[i].0, section) implies
        errors.filter(keep).contains(#[trigger] errors[i]) by {
        errors.lemma_filter_contains(keep, i);
    }
}

/// The six section names are different texts.
proof fn lemma_section_names_differ()
    ensures
        "market"@ != "production"@,
        "market"@ != "variable-costs"@,
        "market"@ != "fixed-costs"@,
        "market"@ != "targets"@,
        "market"@ != "health"@,
        "production"@ != "variable-costs"@,
        "production"@ != "fixed-costs"@,
        "production"@ != "targets"@,
        "production"@ != "health"@,
        "variable-costs"@ != "fixed-costs"@,
        "variable-costs"@ != "targets"@,
        "variable-costs"@ != "health"@,
        "fixed-costs"@ != "targets"@,
        "fixed-costs"@ != "health"@,
        "targets"@ != "health"@,
{
    reveal_strlit("market");
    reveal_strlit("production");
    reveal_strlit("variable-costs");
    reveal_strlit("fixed-costs");
    reveal_strlit("targets");
    reveal_strlit("health");
    assert("market"@[0] != "production"@[0]);
    assert("market"@[0] != "variable-costs"@[0]);
    assert("market"@[0] != "fixed-costs"@[0]);
    assert("market"@[0] != "targets"@[0]);
    assert("market"@[0] != "health"@[0]);
    assert("production"@[0] != "variable-costs"@[0]);
    assert("production"@[0] != "fixed-costs"@[0]);
    assert("production"@[0] != "targets"@[0]);
    assert("production"@[0] != "health"@[0]);
    assert("variable-costs"@[0] != "fixed-costs"@[0]);
    assert("variable-costs"@[0] != "targets"@[0]);
    assert("variable-costs"@[0] != "health"@[0]);
    assert("fixed-costs"@[0] != "targets"@[0]);
    assert("fixed-costs"@[0] != "health"@[0]);
    assert("targets"@[0] != "health"@[0]);
}

/// Each section shows exactly the fields named with its own prefix: `market.`,
/// `production.`, `variable_costs[`, `fixed_costs[`, `targets.` and
/// `health_answers`; and a field belongs to one section at most, so the
/// errors of one section are never shown, or held against a save, in
/// another.
pub proof fn law_a_field_belongs_to_one_section(field: Seq<char>, s1: Seq<char>, s2: Seq<char>)
    ensures
        starts_with(field, "market."@) <==> belongs_to_section(field, "market"@),
        starts_with(field, "production."@) <==> belongs_to_section(field, "production"@),
        starts_with(field, "variable_costs["@) <==> belongs_to_section(field, "variable-costs"@),
        starts_with(field, "fixed_costs["@) <==> belongs_to_section(field, "fixed-costs"@),
        starts_with(field, "targets."@) <==> belongs_to_section(field, "targets"@),
        starts_with(field, "health_answers"@) <==> belongs_to_section(field, "health"@),
        belongs_to_section(field, s1) && belongs_to_section(field, s2) ==> s1 == s2,
{
    reveal_strlit("market");
    reveal_strlit("production");
    reveal_strlit("variable-costs");
    reveal_strlit("fixed-costs");
    reveal_strlit("targets");
    reveal_strlit("health");
    reveal_strlit("market.");
    reveal_strlit("production.");
    reveal_strlit("variable_costs[");
    reveal_strlit("fixed_costs[");
    reveal_strlit("targets.");
    reveal_strlit("health_answers");
    lemma_section_names_differ();
    if belongs_to_section(field, s1) && belongs_to_section(field, s2) {
        lemma_section_by_first_char(field, s1);
        lemma_section_by_first_char(field, s2);
    }
}

/// A field's first character tells the section it belongs to.
proof fn lemma_section_by_first_char(field: Seq<char>, section: Seq<char>)
    requires
        belongs_to_section(field, section),
    ensures
        field.len() > 0,
        section == "market"@ <==> field[0] == 'm',
        section == "production"@ <==> field[0] == 'p',
        section == "variable-costs"@ <==> field[0] == 'v',
        section == "fixed-costs"@ <==> field[0] == 'f',
        section == "targets"@ <==> field[0] == 't',
        section == "health"@ <==> field[0] == 'h',
{
    reveal_strlit("market.");
    reveal_strlit("production.");
    reveal_strlit("variable_costs[");
    reveal_strlit("fixed_costs[");
    reveal_strlit("targets.");
    reveal_strlit("health_answers");
    lemma_section_names_differ();
    if section == "market"@ {
        assert(field.take(7)[0] == field[0]);
    } else if section == "production"@ {
        assert(field.take(11)[0] == field[0]);
    } else if section == "variable-costs"@ {
        assert(field.take(15)[0] == field[0]);
    } else if section == "fixed-costs"@ {
        assert(field.take(12)[0] == field[0]);
    } else if section == "targets"@ {
        assert(field.take(8)[0] == field[0]);
    } else {
        assert(field.take(14)[0] == field[0]);
    }
}

/// A text field that is blank once trimmed holds nothing.
pub open spec fn optional_text_reading(value: Seq<char>) -> Option<Seq<char>> {
    let t = trim(value);
    if t.len() == 0 {
        None
    } else {
        Some(t)
    }
}

pub fn optional_text(value: &str) -> (r: Option<String>)
    ensures
        match r {
            Some(s) => optional_text_reading(value@) == Some(s@),
            None => optional_text_reading(value@) is None,
        },
{
    let t = trim_text(value);
    if t.len() == 0 {
        None
    } else {
        Some(string_of(&t))
    }
}

/// The text of an optional value, blank when there is none.
pub fn text(value: &Option<String>) -> (r: String)
    ensures
        r@ == match value {
            Some(s) => s@,
            None => Seq::<char>::empty(),
        },
{
    match value {
        Some(s) => s.clone(),
        None => String::new(),
    }
}

/// Whether a field's error list grew by exactly one error for `field` saying
/// `message`, or stayed as it was.
pub open spec fn reported(
    before: Seq<FormError>,
    after: Seq<FormError>,
    field: Seq<char>,
    message: Seq<char>,
    refused: bool,
) -> bool {
    if refused {
        &&& after.len() == before.len() + 1
        &&& after.drop_last() == before
        &&& after.last().field@ == field
        &&& after.last().message@ == message
    } else {
        after == before
    }
}

fn report(errors: &mut Vec<FormError>, field: &str, message: &str)
    ensures
        reported(old(errors)@, final(errors)@, field@, message@, true),
{
    let f = chars_of(field);
    let m = chars_of(message);
    errors.push(FormError { field: string_of(&f), message: string_of(&m) });
    assert(final(errors)@.drop_last() == old(errors)@);
}

/// A whole number typed in a field: nothing when blank, refused when it is
/// not a whole number no greater than `maximum`.
pub open spec fn integer_reading(value: Seq<char>, maximum: int) -> Result<Option<int>, ()> {
    let t = trim(value);
    if t.len() == 0 {
        Ok(None)
    } else {
        match parse_unsigned(t, maximum) {
            Ok(n) => Ok(Some(n)),
            Err(_) => Err(()),
        }
    }
}

/// Reads a whole number no greater than `maximum`, recording why it could not
/// be read under `field`.
pub fn parse_integer(value: &str, field: &str, errors: &mut Vec<FormError>, maximum: u64) -> (r:
    Option<u64>)
    ensures
        match integer_reading(value@, maximum as int) {
            Ok(Some(n)) => r == Some(n as u64),
            _ => r is None,
        },
        r matches Some(n) ==> n <= maximum,
        integer_reading(value@, maximum as int) matches Ok(Some(n)) ==> 0 <= n <= maximum,
        reported(
            old(errors)@,
            final(errors)@,
            field@,
            "กรุณากรอกเป็นจำนวนเต็ม"@,
            integer_reading(value@, maximum as int) is Err,
        ),
{
    let t = trim_text(value);
    proof {
        crate::text::lemma_parse_unsigned_range(t@, maximum as int);
    }
    if t.len() == 0 {
        return None;
    }
    match parse_unsigned_chars(&t, maximum) {
        Ok(n) => Some(n),
        Err(_) => {
            report(errors, field, "กรุณากรอกเป็นจำนวนเต็ม");
            None
        },
    }
}

pub fn parse_u32(value: &str, field: &str, errors: &mut Vec<FormError>) -> (r: Option<u32>)
    ensures
        match integer_reading(value@, u32::MAX as int) {
            Ok(Some(n)) => r == Some(n as u32),
            _ => r is None,
        },
        reported(
            old(errors)@,
            final(errors)@,
            field@,
            "กรุณากรอกเป็นจำนวนเต็ม"@,
            integer_reading(value@, u32::MAX as int) is Err,
        ),
{
    match parse_integer(value, field, errors, 4294967295) {
        Some(n) => Some(n as u32),
        None => None,
    }
}

pub fn parse_u8(value: &str, field: &str, errors: &mut Vec<FormError>) -> (r: Option<u8>)
    ensures
        match integer_reading(value@, u8::MAX as int) {
            Ok(Some(n)) => r == Some(n as u8),
            _ => r is None,
        },
        reported(
            old(errors)@,
            final(errors)@,
            field@,
            "กรุณากรอกเป็นจำนวนเต็ม"@,
            integer_reading(value@, u8::MAX as int) is Err,
        ),
{
    match parse_integer(value, field, errors, 255) {
        Some(n) => Some(n as u8),
        None => None,
    }
}

/// A decimal typed in a field: nothing when blank, the number `rust_decimal`
/// reads once commas are set aside, refused when it reads none.
pub open spec fn decimal_reading(value: Seq<char>) -> Result<Option<Amount>, ()> {
    let t = trim(value);
    if t.len() == 0 {
        Ok(None)
    } else {
        match decimal_parse(without_commas(t)) {
            Some(a) => Ok(Some(a)),
            None => Err(()),
        }
    }
}

/// Reads a decimal, recording why it could not be read under `field`.
pub fn parse_decimal(value: &str, field: &str, errors: &mut Vec<FormError>) -> (r: Option<Amount>)
    ensures
        match decimal_reading(value@) {
            Ok(Some(a)) => r == Some(a),
            _ => r is None,
        },
        r matches Some(a) ==> a.wf(),
        reported(
            old(errors)@,
            final(errors)@,
            field@,
            "กรุณากรอกเป็นตัวเลข"@,
            decimal_reading(value@) is Err,
        ),
{
    let t = trim_text(value);
    if t.len() == 0 {
        return None;
    }
    match read_typed_number(&t) {
        Some(a) => Some(a),
        None => {
            report(errors, field, "กรุณากรอกเป็นตัวเลข");
            None
        },
    }
}

/// The message a failed save reports: the first error, by field, or a
/// general sentence when there is none to name.
pub open spec fn first_error_text(errors: Seq<FormError>) -> Seq<char> {
    if errors.len() > 0 {
        errors[0].field@ + ": "@ + errors[0].message@
    } else {
        "ข้อมูลยังไม่ถูกต้อง"@
    }
}

pub fn first_error_message(errors: &Vec<FormError>) -> (r: String)
    ensures
        r@ == first_error_text(errors@),
{
    if errors.len() > 0 {
        let mut out = chars_of(errors[0].field.as_str());
        push_str(&mut out, ": ");
        push_str(&mut out, errors[0].message.as_str());
        string_of(&out)
    } else {
        let out = chars_of("ข้อมูลยังไม่ถูกต้อง");
        string_of(&out)
    }
}


/// What the plan calculation found for a form that reads without error:
/// which of its results it could compute.
#[derive(Clone, Copy, Debug, PartialEq, Eq, Structural)]
pub struct AnalysisFacts {
    pub sellable_yield_known: bool,
    pub market_fulfillment_known: bool,
    pub weighted_price_known: bool,
    pub variable_cost_known: bool,
    pub fixed_cost_known: bool,
}

pub open spec fn readiness(label: &'static str, tone: ReadinessTone) -> SectionReadiness {
    SectionReadiness { label, tone }
}

/// Whether every health question has a score chosen.
pub open spec fn health_complete(scores: Seq<String>) -> bool {
    scores.len() == 12 && forall|i: int| 0 <= i < scores.len() ==> #[trigger] scores[i]@.len() > 0
}

/// What a section's badge says: the result it makes available or the fact
/// it still lacks. A form with an unreadable value anywhere is checked
/// first; `analysis` is `None` for such a form.
pub open spec fn readiness_reading(
    form: PlanForm,
    analysis: Option<AnalysisFacts>,
    section: Seq<char>,
) -> SectionReadiness {
    match analysis {
        None => readiness("มีข้อมูลที่ต้องตรวจในส่วนนี้", ReadinessTone::Missing),
        Some(a) => if section == "market"@ {
            if trim(form.market.buyer_committed_kg@).len() == 0 {
                readiness("เพิ่มได้ ถ้ามียอดที่ผู้ซื้ออยากได้", ReadinessTone::Optional)
            } else if !a.sellable_yield_known {
                readiness("ยังขาดผลผลิตขายได้เพื่อเทียบยอดผู้ซื้อ", ReadinessTone::Missing)
            } else if a.market_fulfillment_known {
                readiness("พร้อมเทียบยอดผู้ซื้อกับผลผลิต", ReadinessTone::Ready)
            } else {
                readiness("ตรวจยอดที่ผู้ซื้ออยากได้", ReadinessTone::Missing)
            }
        } else if section == "production"@ {
            if !a.sellable_yield_known {
                readiness("ยังขาดผลผลิตที่ขายได้", ReadinessTone::Missing)
            } else if !a.weighted_price_known {
                readiness("ยังขาดราคาขายเฉลี่ย", ReadinessTone::Missing)
            } else {
                readiness("พอคำนวณรายได้แล้ว", ReadinessTone::Ready)
            }
        } else if section == "variable-costs"@ {
            if a.variable_cost_known {
                readiness("พอคำนวณค่าใช้จ่ายตามการผลิตแล้ว", ReadinessTone::Ready)
            } else {
                readiness("ยังขาดค่าใช้จ่ายตามการผลิต", ReadinessTone::Missing)
            }
        } else if section == "fixed-costs"@ {
            if a.fixed_cost_known {
                readiness("พอคำนวณค่าใช้จ่ายประจำแล้ว", ReadinessTone::Ready)
            } else {
                readiness("ยังขาดค่าใช้จ่ายประจำ", ReadinessTone::Missing)
            }
        } else if section == "targets"@ {
            if trim(form.targets.yield_per_rai@).len() == 0 {
                readiness("เพิ่มได้เมื่ออยากตั้งเป้าหมายเอง", ReadinessTone::Optional)
            } else {
                readiness("มีเป้าหมายสำหรับเปรียบเทียบแล้ว", ReadinessTone::Ready)
            }
        } else if section == "health"@ {
            if health_complete(form.health_scores@) {
                readiness("พร้อมดูแบบประเมินสวน", ReadinessTone::Ready)
            } else {
                readiness("เพิ่มได้เพื่อทบทวนความพร้อมของสวน", ReadinessTone::Optional)
            }
        } else {
            readiness("ยังไม่มีสถานะ", ReadinessTone::Missing)
        },
    }
}

fn all_scored(scores: &Vec<String>) -> (r: bool)
    ensures
        r == health_complete(scores@),
{
    if scores.len() != 12 {
        return false;
    }
    let mut i: usize = 0;
    while i < scores.len()
        invariant
            i <= scores.len() == 12,
            forall|j: int| 0 <= j < i ==> #[trigger] scores@[j]@.len() > 0,
        decreases scores.len() - i,
    {
        if scores[i].as_str().unicode_len() == 0 {
            return false;
        }
        i += 1;
    }
    true
}

impl PlanForm {
    /// What a section's badge says, given what the calculation made of the
    /// form (`None` when some value of the form cannot be read).
    pub fn section_readiness(&self, section: &str, analysis: Option<AnalysisFacts>) -> (r:
        SectionReadiness)
        ensures
            r == readiness_reading(*self, analysis, section@),
    {
        match analysis {
            None => SectionReadiness {
                label: "มีข้อมูลที่ต้องตรวจในส่วนนี้",
                tone: ReadinessTone::Missing,
            },
            Some(a) => {
                if same_text(section, "market") {
                    if trim_text(self.market.buyer_committed_kg.as_str()).len() == 0 {
                        SectionReadiness {
                            label: "เพิ่มได้ ถ้ามียอดที่ผู้ซื้ออยากได้",
                            tone: ReadinessTone::Optional,
                        }
                    } else if !a.sellable_yield_known {
                        SectionReadiness {
                            label: "ยังขาดผลผลิตขายได้เพื่อเทียบยอดผู้ซื้อ",
                            tone: ReadinessTone::Missing,
                        }
                    } else if a.market_fulfillment_known {
                        SectionReadiness {
                            label: "พร้อมเทียบยอดผู้ซื้อกับผลผลิต",
                            tone: ReadinessTone::Ready,
                        }
                    } else {
                        SectionReadiness {
                            label: "ตรวจยอดที่ผู้ซื้ออยากได้",
                            tone: ReadinessTone::Missing,
                        }
                    }
                } else if same_text(section, "production") {
                    if !a.sellable_yield_known {
                        SectionReadiness { label: "ยังขาดผลผลิตที่ขายได้", tone: ReadinessTone::Missing }
                    } else if !a.weighted_price_known {
                        SectionReadiness { label: "ยังขาดราคาขายเฉลี่ย", tone: ReadinessTone::Missing }
                    } else {
                        SectionReadiness { label: "พอคำนวณรายได้แล้ว", tone: ReadinessTone::Ready }
                    }
                } else if same_text(section, "variable-costs") {
                    if a.variable_cost_known {
                        SectionReadiness {
                            label: "พอคำนวณค่าใช้จ่ายตามการผลิตแล้ว",
                            tone: ReadinessTone::Ready,
                        }
                    } else {
                        SectionReadiness {
                            label: "ยังขาดค่าใช้จ่ายตามการผลิต",
                            tone: ReadinessTone::Missing,
                        }
                    }
                } else if same_text(section, "fixed-costs") {
                    if a.fixed_cost_known {
                        SectionReadiness { label: "พอคำนวณค่าใช้จ่ายประจำแล้ว", tone: ReadinessTone::Ready }
                    } else {
                        SectionReadiness { label: "ยังขาดค่าใช้จ่ายประจำ", tone: ReadinessTone::Missing }
                    }
                } else if same_text(section, "targets") {
                    if trim_text(self.targets.yield_per_rai.as_str()).len() == 0 {
                        SectionReadiness {
                            label: "เพิ่มได้เมื่ออยากตั้งเป้าหมายเอง",
                            tone: ReadinessTone::Optional,
                        }
                    } else {
                        SectionReadiness {
                            label: "มีเป้าหมายสำหรับเปรียบเทียบแล้ว",
                            tone: ReadinessTone::Ready,
                        }
                    }
                } else if same_text(section, "health") {
                    if all_scored(&self.health_scores) {
                        SectionReadiness { label: "พร้อมดูแบบประเมินสวน", tone: ReadinessTone::Ready }
                    } else {
                        SectionReadiness {
                            label: "เพิ่มได้เพื่อทบทวนความพร้อมของสวน",
                            tone: ReadinessTone::Optional,
                        }
                    }
                } else {
                    SectionReadiness { label: "ยังไม่มีสถานะ", tone: ReadinessTone::Missing }
                }
            },
        }
    }

    /// Whether a section's badge says it is ready.
    pub fn section_complete(&self, section: &str, analysis: Option<AnalysisFacts>) -> (r: bool)
        ensures
            r == (readiness_reading(*self, analysis, section@).tone == ReadinessTone::Ready),
    {
        let badge = self.section_readiness(section, analysis);
        match badge.tone {
            ReadinessTone::Ready => true,
            _ => false,
        }
    }
}

/// A badge says a section is ready only when the result it stands for can
/// be computed: the market when the sellable kilograms and the buyers'
/// fulfilment are known, production when the sellable kilograms and the
/// weighted price are known, each cost section exactly when its cost is
/// known; and no section is ready while some value of the form cannot be
/// read.
pub proof fn law_a_ready_badge_has_its_figures(
    form: PlanForm,
    analysis: Option<AnalysisFacts>,
    section: Seq<char>,
)
    ensures
        analysis is None ==> readiness_reading(form, analysis, section).tone == ReadinessTone::Missing,
        analysis matches Some(a) ==> {
            let tone = readiness_reading(form, analysis, section).tone;
            &&& section == "market"@ && tone == ReadinessTone::Ready ==> a.sellable_yield_known
                && a.market_fulfillment_known
            &&& section == "production"@ ==> (tone == ReadinessTone::Ready <==> (a.sellable_yield_known
                && a.weighted_price_known))
            &&& section == "variable-costs"@ ==> (tone == ReadinessTone::Ready
                <==> a.variable_cost_known)
            &&& section == "fixed-costs"@ ==> (tone == ReadinessTone::Ready <==> a.fixed_cost_known)
        },
{
    reveal_strlit("market");
    reveal_strlit("production");
    reveal_strlit("variable-costs");
    reveal_strlit("fixed-costs");
    lemma_section_names_differ();
}

} // verus!
