//! A plan read from a form, written back into a form and read again, is the
//! same plan: every figure the same number, every text the same text.

use vstd::prelude::*;
use crate::amount::{hundredth_is_exact, pow10, value_eq, Amount};
use crate::plan_facts::{
    decimal_issue, decimal_value, form_agrees, form_reads_back, grade_errors, grades_errors,
    health_answers, health_errors, integer_issue, integer_value, market_errors,
    optional_words, plan_agrees, plan_errors, production_errors, question_at, reads_as,
    reads_as_percent, score_of, score_text, share_is_hundredth, share_value, shares_are_hundredths,
    target_errors, text_view, usable_total, variable_errors, fixed_errors, writable_plan,
    HealthAnswer, PlanFacts,
};
use crate::plan_form::{decimal_reading, integer_reading, optional_text_reading, GradeEntry, GradeForm, PlanForm, VariableCostForm, FixedCostForm};
use crate::plan_ui::HealthQuestion;
use crate::text::{law_trim_is_idempotent, trim};

verus! {

/// Two optional figures are both absent or the same number.
pub open spec fn alike(x: Option<Amount>, y: Option<Amount>) -> bool {
    match (x, y) {
        (None, None) => true,
        (Some(a), Some(b)) => value_eq(a, b),
        _ => false,
    }
}

/// Two plans hold the same texts and choices and the same numbers.
pub open spec fn plans_alike(q: PlanFacts, p: PlanFacts) -> bool {
    &&& q.name@ == p.name@
    &&& text_view(q.market.target_customer) == text_view(p.market.target_customer)
    &&& alike(q.market.buyer_committed_kg, p.market.buyer_committed_kg)
    &&& alike(q.market.minimum_price_per_kg, p.market.minimum_price_per_kg)
    &&& text_view(q.market.sales_period) == text_view(p.market.sales_period)
    &&& q.market.sales_channels == p.market.sales_channels
    &&& alike(q.market.largest_buyer_share, p.market.largest_buyer_share)
    &&& text_view(q.market.quality_requirements) == text_view(p.market.quality_requirements)
    &&& q.production.yield_source == p.production.yield_source
    &&& alike(q.production.sellable_yield_kg, p.production.sellable_yield_kg)
    &&& alike(q.production.area_rai, p.production.area_rai)
    &&& alike(q.production.producing_trees, p.production.producing_trees)
    &&& alike(q.production.fruits_per_tree, p.production.fruits_per_tree)
    &&& alike(q.production.average_fruit_weight_kg, p.production.average_fruit_weight_kg)
    &&& alike(q.production.loss_share, p.production.loss_share)
    &&& q.production.price_source == p.production.price_source
    &&& alike(q.production.average_price_per_kg, p.production.average_price_per_kg)
    &&& q.production.grades@.len() == p.production.grades@.len()
    &&& forall|i: int|
        0 <= i < p.production.grades@.len() ==> {
            let a = #[trigger] q.production.grades@[i];
            let b = p.production.grades@[i];
            &&& a.name@ == b.name@
            &&& alike(a.share, b.share)
            &&& alike(a.price_per_kg, b.price_per_kg)
            &&& a.counts_as_quality_grade == b.counts_as_quality_grade
        }
    &&& q.variable_costs@.len() == p.variable_costs@.len()
    &&& forall|i: int|
        0 <= i < p.variable_costs@.len() ==> {
            let a = #[trigger] q.variable_costs@[i];
            let b = p.variable_costs@[i];
            &&& a.name@ == b.name@
            &&& a.kind == b.kind
            &&& alike(a.quantity, b.quantity)
            &&& a.unit@ == b.unit@
            &&& alike(a.unit_price, b.unit_price)
        }
    &&& q.fixed_costs@.len() == p.fixed_costs@.len()
    &&& forall|i: int|
        0 <= i < p.fixed_costs@.len() ==> {
            let a = #[trigger] q.fixed_costs@[i];
            let b = p.fixed_costs@[i];
            &&& a.name@ == b.name@
            &&& a.cash_kind == b.cash_kind
            &&& alike(a.amount_per_year, b.amount_per_year)
            &&& alike(a.investment_base, b.investment_base)
        }
    &&& q.health_answers@ == p.health_answers@
    &&& alike(q.targets.yield_per_rai, p.targets.yield_per_rai)
    &&& alike(q.targets.yield_per_tree, p.targets.yield_per_tree)
    &&& alike(q.targets.yield_per_labor_day, p.targets.yield_per_labor_day)
    &&& alike(q.targets.yield_per_fertilizer_kg, p.targets.yield_per_fertilizer_kg)
    &&& alike(q.targets.yield_per_water_cubic_meter, p.targets.yield_per_water_cubic_meter)
    &&& alike(q.targets.yield_per_kwh, p.targets.yield_per_kwh)
    &&& alike(q.targets.quality_grade_share, p.targets.quality_grade_share)
    &&& alike(q.targets.loss_share, p.targets.loss_share)
    &&& alike(q.targets.cost_per_kg, p.targets.cost_per_kg)
}

// ------------------------------------------------------------------ numbers

proof fn lemma_pow10_add(x: nat, y: nat)
    ensures
        pow10(x + y) == pow10(x) * pow10(y),
    decreases x,
{
    if x > 0 {
        lemma_pow10_add((x - 1) as nat, y);
        assert(pow10(x + y) == 10 * pow10((x - 1 + y) as nat));
        assert(pow10(x) == 10 * pow10((x - 1) as nat));
        assert(10 * (pow10((x - 1) as nat) * pow10(y)) == (10 * pow10((x - 1) as nat)) * pow10(y))
            by (nonlinear_arith);
    }
}

proof fn lemma_number_back(text: Seq<char>, v: Option<Amount>, field: Seq<char>)
    requires
        reads_as(text, v),
    ensures
        decimal_issue(text, field) == Seq::<(Seq<char>, Seq<char>)>::empty(),
        alike(decimal_value(text), v),
{
}

proof fn lemma_share_back(text: Seq<char>, v: Option<Amount>, c: Option<Amount>, field: Seq<char>)
    requires
        reads_as_percent(text, v),
        c == share_value(text),
        share_is_hundredth(c, text),
        v matches Some(a) ==> a.wf(),
    ensures
        decimal_issue(text, field) == Seq::<(Seq<char>, Seq<char>)>::empty(),
        alike(c, v),
{
    if let Some(a) = v {
        let b = decimal_value(text)->0;
        let cc = c->0;
        let pa = pow10(a.scale as nat);
        let pb = pow10(b.scale as nat);
        let pc = pow10(cc.scale as nat);
        let ra = pow10((28 - a.scale) as nat);
        let rb = pow10((28 - b.scale) as nat);
        let p28 = pow10(28);
        crate::amount::lemma_pow10_positive(a.scale as nat);
        crate::amount::lemma_pow10_positive(b.scale as nat);
        lemma_pow10_add((28 - a.scale) as nat, a.scale as nat);
        lemma_pow10_add((28 - b.scale) as nat, b.scale as nat);
        assert(((28 - a.scale) as nat + a.scale as nat) as nat == 28);
        assert(((28 - b.scale) as nat + b.scale as nat) as nat == 28);
        let bn = b.numerator();
        let an = a.numerator();
        let cn = cc.numerator();
        assert(bn * pa == an * 100 * pb);
        assert(p28 == ra * pa && p28 == rb * pb);
        assert(bn * rb == 100 * (an * ra)) by (nonlinear_arith)
            requires
                bn * pa == an * 100 * pb,
                p28 == ra * pa,
                p28 == rb * pb,
                pa > 0,
        ;
        assert((100 * (an * ra)) % 100 == 0) by (nonlinear_arith);
        assert(hundredth_is_exact(b));
        assert(cn * 100 * pb == bn * pc);
        assert(cn * pa == an * pc) by (nonlinear_arith)
            requires
                cn * 100 * pb == bn * pc,
                bn * pa == an * 100 * pb,
                pb > 0,
        ;
    }
}

proof fn lemma_text_back(v: Option<String>, t: Seq<char>)
    requires
        text_view(v) == optional_text_reading(t),
    ensures
        optional_text_reading(optional_words(v)) == text_view(v),
{
    law_trim_is_idempotent(t);
    if v is None {
        assert(trim(Seq::<char>::empty()) =~= Seq::<char>::empty()) by {
            reveal_with_fuel(crate::text::trim_start, 1);
            reveal_with_fuel(crate::text::trim_end, 1);
        }
    }
}

// ------------------------------------------------------------------- errors

proof fn lemma_no_grade_errors(gs: Seq<GradeForm>, total: Option<Amount>)
    requires
        forall|i: int|
            0 <= i < gs.len() ==> decimal_reading((#[trigger] gs[i]).share_percent@) is Ok
                && decimal_reading(gs[i].price_per_kg@) is Ok,
    ensures
        grades_errors(gs, GradeEntry::Percent, total) == Seq::<(Seq<char>, Seq<char>)>::empty(),
    decreases gs.len(),
{
    if gs.len() > 0 {
        let d = gs.drop_last();
        assert forall|i: int| 0 <= i < d.len() implies decimal_reading((#[trigger] d[i]).share_percent@)
            is Ok && decimal_reading(d[i].price_per_kg@) is Ok by {
            assert(d[i] == gs[i]);
        }
        lemma_no_grade_errors(d, total);
        assert(gs.last() == gs[gs.len() - 1]);
        assert(grade_errors(gs.last(), gs.len() - 1, GradeEntry::Percent, total) =~= Seq::empty());
        assert(grades_errors(gs, GradeEntry::Percent, total) =~= Seq::empty());
    }
}

proof fn lemma_no_variable_errors(ls: Seq<VariableCostForm>)
    requires
        forall|i: int|
            0 <= i < ls.len() ==> decimal_reading((#[trigger] ls[i]).quantity@) is Ok
                && decimal_reading(ls[i].unit_price@) is Ok,
    ensures
        variable_errors(ls) == Seq::<(Seq<char>, Seq<char>)>::empty(),
    decreases ls.len(),
{
    if ls.len() > 0 {
        let d = ls.drop_last();
        assert forall|i: int| 0 <= i < d.len() implies decimal_reading((#[trigger] d[i]).quantity@)
            is Ok && decimal_reading(d[i].unit_price@) is Ok by {
            assert(d[i] == ls[i]);
        }
        lemma_no_variable_errors(d);
        assert(ls.last() == ls[ls.len() - 1]);
        assert(variable_errors(ls) =~= Seq::empty());
    }
}

proof fn lemma_no_fixed_errors(ls: Seq<FixedCostForm>)
    requires
        forall|i: int|
            0 <= i < ls.len() ==> decimal_reading((#[trigger] ls[i]).amount_per_year@) is Ok
                && decimal_reading(ls[i].investment_base@) is Ok,
    ensures
        fixed_errors(ls) == Seq::<(Seq<char>, Seq<char>)>::empty(),
    decreases ls.len(),
{
    if ls.len() > 0 {
        let d = ls.drop_last();
        assert forall|i: int| 0 <= i < d.len() implies decimal_reading(
            (#[trigger] d[i]).amount_per_year@,
        ) is Ok && decimal_reading(d[i].investment_base@) is Ok by {
            assert(d[i] == ls[i]);
        }
        lemma_no_fixed_errors(d);
        assert(ls.last() == ls[ls.len() - 1]);
        assert(fixed_errors(ls) =~= Seq::empty());
    }
}

proof fn lemma_no_health_errors(scores: Seq<String>, n: nat)
    requires
        forall|i: int| 0 <= i < n ==> integer_reading(#[trigger] score_text(scores, i), 255) is Ok,
    ensures
        health_errors(scores, n) == Seq::<(Seq<char>, Seq<char>)>::empty(),
    decreases n,
{
    if n > 0 {
        lemma_no_health_errors(scores, (n - 1) as nat);
        assert(integer_reading(score_text(scores, n - 1), 255) is Ok);
        assert(health_errors(scores, n) =~= Seq::empty());
    }
}

// ------------------------------------------------------------------- health

proof fn lemma_questions_distinct(i: int, j: int)
    requires
        0 <= i < 12,
        0 <= j < 12,
        question_at(i) == question_at(j),
    ensures
        i == j,
{
}

/// The score of the `i`-th question as read, as a `u8`.
pub open spec fn read_score(scores: Seq<String>, i: int) -> Option<u8> {
    match integer_value(score_text(scores, i), 255) {
        Some(v) => Some(v as u8),
        None => None,
    }
}

proof fn lemma_score_of_append(a: Seq<HealthAnswer>, b: Seq<HealthAnswer>, q: HealthQuestion)
    requires
        forall|j: int| 0 <= j < a.len() ==> (#[trigger] a[j]).question != q,
    ensures
        score_of(a + b, q) == score_of(b, q),
    decreases a.len(),
{
    if a.len() > 0 {
        assert((a + b)[0] == a[0]);
        assert((a + b).drop_first() =~= a.drop_first() + b);
        assert forall|j: int| 0 <= j < a.drop_first().len() implies (#[trigger] a.drop_first()[j]).question
            != q by {
            assert(a.drop_first()[j] == a[j + 1]);
        }
        lemma_score_of_append(a.drop_first(), b, q);
    } else {
        assert(a + b =~= b);
    }
}

proof fn lemma_score_of_prefix(a: Seq<HealthAnswer>, b: Seq<HealthAnswer>, q: HealthQuestion, k: int)
    requires
        0 <= k < a.len(),
        a[k].question == q,
    ensures
        score_of(a + b, q) == score_of(a, q),
    decreases a.len(),
{
    assert((a + b)[0] == a[0]);
    if a[0].question != q {
        assert((a + b).drop_first() =~= a.drop_first() + b);
        assert(a.drop_first()[k - 1] == a[k]);
        lemma_score_of_prefix(a.drop_first(), b, q, k - 1);
    }
}

/// The answers among the first `n` questions are to those questions, in
/// order, and the answer to the `i`-th carries its score as read.
proof fn lemma_health_answers_shape(scores: Seq<String>, n: nat)
    requires
        n <= 12,
    ensures
        forall|j: int|
            0 <= j < health_answers(scores, n).len() ==> exists|i: int|
                0 <= i < n && (#[trigger] health_answers(scores, n)[j]).question == question_at(i),
        forall|i: int|
            0 <= i < 12 ==> #[trigger] score_of(health_answers(scores, n), question_at(i)) == if i < n {
                read_score(scores, i)
            } else {
                None
            },
    decreases n,
{
    if n > 0 {
        let m = (n - 1) as nat;
        lemma_health_answers_shape(scores, m);
        let a = health_answers(scores, m);
        let x: Seq<HealthAnswer> = match integer_value(score_text(scores, m as int), 255) {
            Some(v) => seq![HealthAnswer { question: question_at(m as int), score: Some(v as u8) }],
            None => Seq::empty(),
        };
        assert(health_answers(scores, n) == a + x);
        assert forall|j: int| 0 <= j < (a + x).len() implies exists|i: int|
            0 <= i < n && (#[trigger] (a + x)[j]).question == question_at(i) by {
            if j < a.len() {
                assert((a + x)[j] == a[j]);
                let i = choose|i: int| 0 <= i < m && a[j].question == question_at(i);
                assert(0 <= i < n && (a + x)[j].question == question_at(i));
            } else {
                assert((a + x)[j] == x[j - a.len()]);
                assert((a + x)[j].question == question_at(m as int));
            }
        }
        assert forall|i: int| 0 <= i < 12 implies #[trigger] score_of(a + x, question_at(i)) == if i
            < n {
            read_score(scores, i)
        } else {
            None
        } by {
            let q = question_at(i);
            if exists|k: int| 0 <= k < a.len() && a[k].question == q {
                let k = choose|k: int| 0 <= k < a.len() && a[k].question == q;
                lemma_score_of_prefix(a, x, q, k);
                let i2 = choose|i2: int| 0 <= i2 < m && a[k].question == question_at(i2);
                lemma_questions_distinct(i, i2);
                assert(score_of(a, question_at(i)) == read_score(scores, i));
            } else {
                assert forall|j: int| 0 <= j < a.len() implies (#[trigger] a[j]).question != q by {}
                lemma_score_of_append(a, x, q);
                let e = Seq::<HealthAnswer>::empty();
                assert(score_of(e, q) is None);
                if i < m {
                    assert(score_of(a, question_at(i)) == read_score(scores, i));
                    if read_score(scores, i) is Some {
                        lemma_score_found(a, q);
                    }
                }
                if x.len() > 0 {
                    assert(x[0].question == question_at(m as int));
                    assert(x.drop_first() =~= e);
                    if i != m {
                        if question_at(m as int) == q {
                            lemma_questions_distinct(i, m as int);
                        }
                        assert(score_of(x, q) == score_of(x.drop_first(), q));
                    } else {
                        assert(score_of(x, q) == x[0].score);
                    }
                } else {
                    assert(x =~= e);
                }
            }
        }
    }
}

proof fn lemma_score_found(a: Seq<HealthAnswer>, q: HealthQuestion)
    requires
        score_of(a, q) is Some,
    ensures
        exists|k: int| 0 <= k < a.len() && a[k].question == q,
    decreases a.len(),
{
    if a.len() > 0 && a[0].question != q {
        lemma_score_found(a.drop_first(), q);
        let k = choose|k: int| 0 <= k < a.drop_first().len() && a.drop_first()[k].question == q;
        assert(a[k + 1] == a.drop_first()[k]);
    }
}

proof fn lemma_same_answers(s1: Seq<String>, s2: Seq<String>, n: nat)
    requires
        forall|i: int| 0 <= i < n ==> #[trigger] integer_value(score_text(s1, i), 255) == integer_value(
            score_text(s2, i),
            255,
        ),
    ensures
        health_answers(s1, n) == health_answers(s2, n),
    decreases n,
{
    if n > 0 {
        lemma_same_answers(s1, s2, (n - 1) as nat);
        assert(integer_value(score_text(s1, n - 1), 255) == integer_value(score_text(s2, n - 1), 255));
    }
}

// --------------------------------------------------------------------- law

/// A plan read from a form round-trips through the form without loss:
/// written back into a form and read again, it gives no error and the same
/// plan, every figure the same number and every text the same text.
pub proof fn law_a_plan_round_trips_through_the_form(
    typed: PlanForm,
    sellable: Option<Amount>,
    p: PlanFacts,
    shown: PlanForm,
    q: PlanFacts,
)
    requires
        plan_agrees(p, typed, sellable),
        writable_plan(p, sellable),
        form_agrees(shown, p, sellable),
        form_reads_back(shown, p),
        plan_agrees(q, shown, sellable),
        shares_are_hundredths(q, shown),
    ensures
        plan_errors(shown, sellable) == Seq::<(Seq<char>, Seq<char>)>::empty(),
        plans_alike(q, p),
{
    let e = Seq::<(Seq<char>, Seq<char>)>::empty();
    // names and texts
    law_trim_is_idempotent(typed.name@);
    lemma_text_back(p.market.target_customer, typed.market.target_customer@);
    lemma_text_back(p.market.sales_period, typed.market.sales_period@);
    lemma_text_back(p.market.quality_requirements, typed.market.quality_requirements@);
    // market
    lemma_number_back(shown.market.buyer_committed_kg@, p.market.buyer_committed_kg, "market.buyer_committed_kg"@);
    lemma_number_back(shown.market.minimum_price_per_kg@, p.market.minimum_price_per_kg, "market.minimum_price_per_kg"@);
    lemma_share_back(shown.market.largest_buyer_percent@, p.market.largest_buyer_share, q.market.largest_buyer_share, "market.largest_buyer_share"@);
    assert(integer_issue(shown.market.sales_channels@, "market.sales_channels"@, u32::MAX as int) == e);
    assert(market_errors(shown.market) =~= e);
    // production
    lemma_number_back(shown.production.sellable_yield_kg@, p.production.sellable_yield_kg, "production.sellable_yield_kg"@);
    lemma_number_back(shown.production.area_rai@, p.production.area_rai, "production.area_rai"@);
    lemma_number_back(shown.production.producing_trees@, p.production.producing_trees, "production.producing_trees"@);
    lemma_number_back(shown.production.fruits_per_tree@, p.production.fruits_per_tree, "production.fruits_per_tree"@);
    lemma_number_back(shown.production.average_fruit_weight_kg@, p.production.average_fruit_weight_kg, "production.average_fruit_weight_kg"@);
    lemma_share_back(shown.production.loss_percent@, p.production.loss_share, q.production.loss_share, "production.loss_share"@);
    lemma_number_back(shown.production.average_price_per_kg@, p.production.average_price_per_kg, "production.average_price_per_kg"@);
    assert(production_errors(shown.production) =~= e);
    // grades
    assert forall|i: int| 0 <= i < shown.grades@.len() implies decimal_reading(
        (#[trigger] shown.grades@[i]).share_percent@,
    ) is Ok && decimal_reading(shown.grades@[i].price_per_kg@) is Ok by {
        assert(reads_as_percent(shown.grades@[i].share_percent@, p.production.grades@[i].share));
        assert(reads_as(shown.grades@[i].price_per_kg@, p.production.grades@[i].price_per_kg));
    }
    lemma_no_grade_errors(shown.grades@, usable_total(sellable));
    assert forall|i: int| 0 <= i < p.production.grades@.len() implies {
        let a = #[trigger] q.production.grades@[i];
        let b = p.production.grades@[i];
        &&& a.name@ == b.name@
        &&& alike(a.share, b.share)
        &&& alike(a.price_per_kg, b.price_per_kg)
        &&& a.counts_as_quality_grade == b.counts_as_quality_grade
    } by {
        let g = shown.grades@[i];
        let b = p.production.grades@[i];
        let a = q.production.grades@[i];
        law_trim_is_idempotent(typed.grades@[i].name@);
        assert(share_is_hundredth(a.share, g.share_percent@));
        assert(reads_as_percent(g.share_percent@, b.share));
        lemma_share_back(g.share_percent@, b.share, a.share, Seq::empty());
        lemma_number_back(g.price_per_kg@, b.price_per_kg, Seq::empty());
    }
    // costs
    assert forall|i: int| 0 <= i < shown.variable_costs@.len() implies decimal_reading(
        (#[trigger] shown.variable_costs@[i]).quantity@,
    ) is Ok && decimal_reading(shown.variable_costs@[i].unit_price@) is Ok by {
        assert(reads_as(shown.variable_costs@[i].quantity@, p.variable_costs@[i].quantity));
        assert(reads_as(shown.variable_costs@[i].unit_price@, p.variable_costs@[i].unit_price));
    }
    lemma_no_variable_errors(shown.variable_costs@);
    assert forall|i: int| 0 <= i < p.variable_costs@.len() implies {
        let a = #[trigger] q.variable_costs@[i];
        let b = p.variable_costs@[i];
        &&& a.name@ == b.name@
        &&& a.kind == b.kind
        &&& alike(a.quantity, b.quantity)
        &&& a.unit@ == b.unit@
        &&& alike(a.unit_price, b.unit_price)
    } by {
        law_trim_is_idempotent(typed.variable_costs@[i].name@);
        law_trim_is_idempotent(typed.variable_costs@[i].unit@);
        lemma_number_back(shown.variable_costs@[i].quantity@, p.variable_costs@[i].quantity, Seq::empty());
        lemma_number_back(shown.variable_costs@[i].unit_price@, p.variable_costs@[i].unit_price, Seq::empty());
    }
    assert forall|i: int| 0 <= i < shown.fixed_costs@.len() implies decimal_reading(
        (#[trigger] shown.fixed_costs@[i]).amount_per_year@,
    ) is Ok && decimal_reading(shown.fixed_costs@[i].investment_base@) is Ok by {
        assert(reads_as(shown.fixed_costs@[i].amount_per_year@, p.fixed_costs@[i].amount_per_year));
        assert(reads_as(shown.fixed_costs@[i].investment_base@, p.fixed_costs@[i].investment_base));
    }
    lemma_no_fixed_errors(shown.fixed_costs@);
    assert forall|i: int| 0 <= i < p.fixed_costs@.len() implies {
        let a = #[trigger] q.fixed_costs@[i];
        let b = p.fixed_costs@[i];
        &&& a.name@ == b.name@
        &&& a.cash_kind == b.cash_kind
        &&& alike(a.amount_per_year, b.amount_per_year)
        &&& alike(a.investment_base, b.investment_base)
    } by {
        law_trim_is_idempotent(typed.fixed_costs@[i].name@);
        lemma_number_back(shown.fixed_costs@[i].amount_per_year@, p.fixed_costs@[i].amount_per_year, Seq::empty());
        lemma_number_back(shown.fixed_costs@[i].investment_base@, p.fixed_costs@[i].investment_base, Seq::empty());
    }
    // health
    lemma_health_answers_shape(typed.health_scores@, 12);
    assert forall|i: int| 0 <= i < 12 implies #[trigger] integer_value(score_text(shown.health_scores@, i), 255)
        == integer_value(score_text(typed.health_scores@, i), 255) && integer_reading(
        score_text(shown.health_scores@, i),
        255,
    ) is Ok by {
        assert(score_text(shown.health_scores@, i) == shown.health_scores@[i]@);
        assert(score_of(health_answers(typed.health_scores@, 12), question_at(i)) == read_score(
            typed.health_scores@,
            i,
        ));
        crate::text::lemma_parse_unsigned_range(trim(score_text(typed.health_scores@, i)), 255);
    }
    lemma_no_health_errors(shown.health_scores@, 12);
    lemma_same_answers(shown.health_scores@, typed.health_scores@, 12);
    // targets
    lemma_number_back(shown.targets.yield_per_rai@, p.targets.yield_per_rai, "targets.yield_per_rai"@);
    lemma_number_back(shown.targets.yield_per_tree@, p.targets.yield_per_tree, "targets.yield_per_tree"@);
    lemma_number_back(shown.targets.yield_per_labor_day@, p.targets.yield_per_labor_day, "targets.yield_per_labor_day"@);
    lemma_number_back(shown.targets.yield_per_fertilizer_kg@, p.targets.yield_per_fertilizer_kg, "targets.yield_per_fertilizer_kg"@);
    lemma_number_back(shown.targets.yield_per_water_cubic_meter@, p.targets.yield_per_water_cubic_meter, "targets.yield_per_water_cubic_meter"@);
    lemma_number_back(shown.targets.yield_per_kwh@, p.targets.yield_per_kwh, "targets.yield_per_kwh"@);
    lemma_share_back(shown.targets.quality_grade_percent@, p.targets.quality_grade_share, q.targets.quality_grade_share, "targets.quality_grade_share"@);
    lemma_share_back(shown.targets.loss_percent@, p.targets.loss_share, q.targets.loss_share, "targets.loss_share"@);
    lemma_number_back(shown.targets.cost_per_kg@, p.targets.cost_per_kg, "targets.cost_per_kg"@);
    assert(target_errors(shown.targets) =~= e);
    assert(plan_errors(shown, sellable) =~= e);
}

/// The `i`-th typed score answers the `i`-th question of
/// `HealthQuestion::ALL`: the plan read from a form gives that question the
/// score read from the `i`-th text, and when the text reads as a whole
/// number the plan holds exactly that answer.
pub proof fn law_scores_answer_the_questions_in_order(
    typed: PlanForm,
    sellable: Option<Amount>,
    p: PlanFacts,
    i: int,
)
    requires
        plan_agrees(p, typed, sellable),
        0 <= i < 12,
    ensures
        question_at(i) == HealthQuestion::ALL@[i],
        score_of(p.health_answers@, HealthQuestion::ALL@[i]) == read_score(typed.health_scores@, i),
        read_score(typed.health_scores@, i) matches Some(v) ==> p.health_answers@.contains(
            HealthAnswer { question: HealthQuestion::ALL@[i], score: Some(v) },
        ),
{
    lemma_health_answers_shape(typed.health_scores@, 12);
    assert(score_of(health_answers(typed.health_scores@, 12), question_at(i)) == read_score(
        typed.health_scores@,
        i,
    ));
    if read_score(typed.health_scores@, i) is Some {
        lemma_score_held(p.health_answers@, question_at(i));
    }
}

proof fn lemma_score_held(a: Seq<HealthAnswer>, q: HealthQuestion)
    requires
        score_of(a, q) is Some,
    ensures
        a.contains(HealthAnswer { question: q, score: score_of(a, q) }),
    decreases a.len(),
{
    if a[0].question == q {
        assert(a[0] == HealthAnswer { question: q, score: score_of(a, q) });
    } else {
        lemma_score_held(a.drop_first(), q);
        let k = choose|k: int| 0 <= k < a.drop_first().len() && a.drop_first()[k] == HealthAnswer {
            question: q,
            score: score_of(a, q),
        };
        assert(a[k + 1] == a.drop_first()[k]);
    }
}

} // verus!
