//! The rules a season's details and figures are held to before they are
//! stored, and where the quick forecast sends an owner next.

use vstd::prelude::*;
use crate::auth::{StoreError, PUBLIC_SERVER_ERROR};
use crate::amount::{read_typed_number, typed_number, Amount};
use crate::text::{
    chars_of, decimal_text, is_ascii_digit, push_decimal, push_str, string_of, trim, trim_text,
};

verus! {

/// The three answers of the quick forecast, in the order they are asked.
#[derive(Clone, Copy, Debug, PartialEq, Eq, Structural)]
pub enum QuickInputField {
    SellableYieldKg,
    AveragePricePerKg,
    TotalCost,
}

/// Which forecast a season uses.
#[derive(Clone, Copy, Debug, PartialEq, Eq, Structural)]
pub enum ForecastMode {
    Quick,
    Detailed,
}

/// The value of a run of ASCII digits.
pub open spec fn digits_value(s: Seq<char>) -> int
    decreases s.len(),
{
    if s.len() == 0 {
        0
    } else {
        digits_value(s.drop_last()) * 10 + (s.last() as int - '0' as int)
    }
}

pub open spec fn all_ascii_digits(s: Seq<char>) -> bool {
    forall|i: int| 0 <= i < s.len() ==> is_ascii_digit(#[trigger] s[i])
}

/// A Buddhist-era year is four ASCII digits, white space around them aside.
pub open spec fn season_year_reading(text: Seq<char>) -> Option<i32> {
    let t = trim(text);
    if t.len() == 4 && all_ascii_digits(t) {
        Some(digits_value(t) as i32)
    } else {
        None
    }
}

proof fn lemma_digits_value_bound(s: Seq<char>)
    requires
        all_ascii_digits(s),
    ensures
        0 <= digits_value(s) < crate::amount::pow10(s.len()),
    decreases s.len(),
{
    if s.len() > 0 {
        lemma_digits_value_bound(s.drop_last());
    }
}

pub fn valid_season_year(value: &str) -> (r: Result<i32, String>)
    ensures
        match r {
            Ok(year) => season_year_reading(value@) == Some(year),
            Err(message) => season_year_reading(value@) is None && message@
                == "กรุณากรอกปี พ.ศ. เป็นตัวเลข 4 หลัก"@,
        },
        r matches Ok(year) ==> year as int == digits_value(trim(value@)) && 0 <= year <= 9999,
{
    let t = trim_text(value);
    if t.len() != 4 {
        let m = chars_of("กรุณากรอกปี พ.ศ. เป็นตัวเลข 4 หลัก");
        return Err(string_of(&m));
    }
    let mut ok = true;
    let mut i: usize = 0;
    let mut year: i32 = 0;
    while ok && i < t.len()
        invariant
            t.len() == 4,
            0 <= i <= 4,
            ok ==> all_ascii_digits(t@.take(i as int)),
            ok ==> year == digits_value(t@.take(i as int)),
            ok ==> 0 <= year < crate::amount::pow10(i as nat),
            !ok ==> !all_ascii_digits(t@),
        decreases 4 - i + (if ok { 1int } else { 0int }),
    {
        proof {
            assert(t@.take(i + 1).drop_last() == t@.take(i as int));
            reveal_with_fuel(crate::amount::pow10, 5);
        }
        let c = t[i];
        if '0' <= c && c <= '9' {
            year = year * 10 + (c as u32 - '0' as u32) as i32;
            i += 1;
        } else {
            ok = false;
        }
    }
    if ok {
        assert(t@.take(4) == t@);
        proof {
            reveal_with_fuel(crate::amount::pow10, 5);
        }
        Ok(year)
    } else {
        let m = chars_of("กรุณากรอกปี พ.ศ. เป็นตัวเลข 4 หลัก");
        Err(string_of(&m))
    }
}

/// A season's name: what is left after trimming, present, and at most 120
/// characters.
pub open spec fn season_name_reading(text: Seq<char>) -> Result<Seq<char>, Seq<char>> {
    let t = trim(text);
    if t.len() == 0 {
        Err("กรุณาตั้งชื่อฤดูกาล"@)
    } else if t.len() > 120 {
        Err("ชื่อฤดูกาลยาวเกิน 120 ตัวอักษร"@)
    } else {
        Ok(t)
    }
}

/// Whether an executable result carries what the specification says.
pub open spec fn text_agrees(r: Result<String, String>, expected: Result<Seq<char>, Seq<char>>) -> bool {
    match r {
        Ok(v) => expected == Ok::<Seq<char>, Seq<char>>(v@),
        Err(m) => expected == Err::<Seq<char>, Seq<char>>(m@),
    }
}

pub fn valid_name(value: &str) -> (r: Result<String, String>)
    ensures
        text_agrees(r, season_name_reading(value@)),
{
    let t = trim_text(value);
    if t.len() == 0 {
        let m = chars_of("กรุณาตั้งชื่อฤดูกาล");
        return Err(string_of(&m));
    }
    if t.len() > 120 {
        let m = chars_of("ชื่อฤดูกาลยาวเกิน 120 ตัวอักษร");
        return Err(string_of(&m));
    }
    Ok(string_of(&t))
}

/// A season's note: trimmed, at most 2,000 characters.
pub open spec fn season_note_reading(text: Seq<char>) -> Result<Seq<char>, Seq<char>> {
    let t = trim(text);
    if t.len() > 2000 {
        Err("บันทึกยาวเกิน 2,000 ตัวอักษร"@)
    } else {
        Ok(t)
    }
}

pub fn valid_note(value: &str) -> (r: Result<String, String>)
    ensures
        text_agrees(r, season_note_reading(value@)),
{
    let t = trim_text(value);
    if t.len() > 2000 {
        let m = chars_of("บันทึกยาวเกิน 2,000 ตัวอักษร");
        return Err(string_of(&m));
    }
    Ok(string_of(&t))
}

/// Whether an executable result carries the amount or the sentence the
/// specification gives.
pub open spec fn amount_agrees(r: Result<Amount, String>, expected: Result<Amount, Seq<char>>) -> bool {
    match r {
        Ok(v) => expected == Ok::<Amount, Seq<char>>(v),
        Err(m) => expected == Err::<Amount, Seq<char>>(m@),
    }
}

/// An actual figure of a closed season: present, a number, not below zero,
/// and no more than one trillion. A real zero is accepted.
pub open spec fn actual_value_reading(text: Seq<char>, label: Seq<char>) -> Result<Amount, Seq<char>> {
    if crate::amount::without_commas(trim(text)).len() == 0 {
        Err("กรุณากรอก"@ + label)
    } else {
        match typed_number(text) {
            None => Err(label + "ต้องเป็นตัวเลข"@),
            Some(v) => if v.spec_is_negative() {
                Err(label + "ต้องไม่ติดลบ"@)
            } else if v.spec_exceeds(1_000_000_000_000) {
                Err(label + "สูงเกินขอบเขตที่ระบบคำนวณได้"@)
            } else {
                Ok(v)
            },
        }
    }
}

fn label_first(label: &str, after: &str) -> (r: String)
    ensures
        r@ == label@ + after@,
{
    let mut m = chars_of(label);
    push_str(&mut m, after);
    string_of(&m)
}

fn label_last(before: &str, label: &str) -> (r: String)
    ensures
        r@ == before@ + label@,
{
    let mut m = chars_of(before);
    push_str(&mut m, label);
    string_of(&m)
}

pub fn valid_actual_value(value: &str, label: &str) -> (r: Result<Amount, String>)
    ensures
        amount_agrees(r, actual_value_reading(value@, label@)),
        r matches Ok(v) ==> v.wf(),
{
    let t = trim_text(value);
    let normalized = crate::amount::drop_commas(&t);
    if normalized.len() == 0 {
        return Err(label_last("กรุณากรอก", label));
    }
    match read_typed_number(&t) {
        None => Err(label_first(label, "ต้องเป็นตัวเลข")),
        Some(v) => {
            if v.is_negative() {
                Err(label_first(label, "ต้องไม่ติดลบ"))
            } else if v.exceeds_trillion() {
                Err(label_first(label, "สูงเกินขอบเขตที่ระบบคำนวณได้"))
            } else {
                Ok(v)
            }
        },
    }
}

impl QuickInputField {
    pub open spec fn spec_label(self) -> Seq<char> {
        match self {
            QuickInputField::SellableYieldKg => "ผลผลิตที่ขายได้"@,
            QuickInputField::AveragePricePerKg => "ราคาขายเฉลี่ย"@,
            QuickInputField::TotalCost => "ต้นทุนรวม"@,
        }
    }
}

/// What each quick answer is called in its messages.
pub fn quick_field_label(field: QuickInputField) -> (r: &'static str)
    ensures
        r@ == field.spec_label(),
{
    match field {
        QuickInputField::SellableYieldKg => "ผลผลิตที่ขายได้",
        QuickInputField::AveragePricePerKg => "ราคาขายเฉลี่ย",
        QuickInputField::TotalCost => "ต้นทุนรวม",
    }
}

/// A quick answer: present, a number, above zero, and no more than one
/// trillion.
pub open spec fn quick_value_reading(text: Seq<char>, field: QuickInputField) -> Result<
    Amount,
    Seq<char>,
> {
    let label = field.spec_label();
    if crate::amount::without_commas(trim(text)).len() == 0 {
        Err("กรุณากรอก"@ + label)
    } else {
        match typed_number(text) {
            None => Err(label + "ต้องเป็นตัวเลข"@),
            Some(v) => if !v.spec_is_positive() {
                Err(label + "ต้องมากกว่า 0"@)
            } else if v.spec_exceeds(1_000_000_000_000) {
                Err(label + "สูงเกินขอบเขตที่ระบบคำนวณได้"@)
            } else {
                Ok(v)
            },
        }
    }
}

pub fn valid_quick_value(value: &str, field: QuickInputField) -> (r: Result<Amount, String>)
    ensures
        amount_agrees(r, quick_value_reading(value@, field)),
        r matches Ok(v) ==> v.wf(),
{
    let label = quick_field_label(field);
    let t = trim_text(value);
    let normalized = crate::amount::drop_commas(&t);
    if normalized.len() == 0 {
        return Err(label_last("กรุณากรอก", label));
    }
    match read_typed_number(&t) {
        None => Err(label_first(label, "ต้องเป็นตัวเลข")),
        Some(v) => {
            if !v.is_positive() {
                Err(label_first(label, "ต้องมากกว่า 0"))
            } else if v.exceeds_trillion() {
                Err(label_first(label, "สูงเกินขอบเขตที่ระบบคำนวณได้"))
            } else {
                Ok(v)
            }
        },
    }
}

/// The outcome an owner reports when a season ends.
#[derive(Clone, Debug, PartialEq, Eq)]
pub struct ActualOutcome {
    pub sellable_yield_kg: Amount,
    pub revenue: Amount,
    pub total_cost: Amount,
    pub note: String,
}

/// The reported outcome: each figure checked in turn, then the note; the
/// first refusal is the answer.
pub open spec fn actual_outcome_reading(
    sellable_yield_kg: Seq<char>,
    revenue: Seq<char>,
    total_cost: Seq<char>,
    note: Seq<char>,
) -> Result<(Amount, Amount, Amount, Seq<char>), Seq<char>> {
    match actual_value_reading(sellable_yield_kg, "ผลผลิตที่ขายได้จริง"@) {
        Err(m) => Err(m),
        Ok(y) => match actual_value_reading(revenue, "รายได้จริง"@) {
            Err(m) => Err(m),
            Ok(v) => match actual_value_reading(total_cost, "ต้นทุนรวมจริง"@) {
                Err(m) => Err(m),
                Ok(c) => match season_note_reading(note) {
                    Err(m) => Err(m),
                    Ok(n) => Ok((y, v, c, n)),
                },
            },
        },
    }
}

pub fn valid_actual_outcome(
    sellable_yield_kg: &str,
    revenue: &str,
    total_cost: &str,
    note: &str,
) -> (r: Result<ActualOutcome, String>)
    ensures
        match r {
            Ok(o) => actual_outcome_reading(sellable_yield_kg@, revenue@, total_cost@, note@)
                == Ok::<(Amount, Amount, Amount, Seq<char>), Seq<char>>(
                (o.sellable_yield_kg, o.revenue, o.total_cost, o.note@),
            ),
            Err(m) => actual_outcome_reading(sellable_yield_kg@, revenue@, total_cost@, note@)
                == Err::<(Amount, Amount, Amount, Seq<char>), Seq<char>>(m@),
        },
{
    let y = valid_actual_value(sellable_yield_kg, "ผลผลิตที่ขายได้จริง")?;
    let v = valid_actual_value(revenue, "รายได้จริง")?;
    let c = valid_actual_value(total_cost, "ต้นทุนรวมจริง")?;
    let n = valid_note(note)?;
    Ok(ActualOutcome { sellable_yield_kg: y, revenue: v, total_cost: c, note: n })
}

/// The quick answer a step of the quick forecast asks for.
pub open spec fn quick_field_reading(step: Seq<char>) -> Option<QuickInputField> {
    if step == "production"@ {
        Some(QuickInputField::SellableYieldKg)
    } else if step == "price"@ {
        Some(QuickInputField::AveragePricePerKg)
    } else if step == "cost"@ {
        Some(QuickInputField::TotalCost)
    } else {
        None
    }
}

pub fn quick_field(value: &str) -> (r: Result<QuickInputField, String>)
    ensures
        match r {
            Ok(f) => quick_field_reading(value@) == Some(f),
            Err(m) => quick_field_reading(value@) is None && m@ == "ไม่พบขั้นตอนประมาณการนี้"@,
        },
{
    if crate::text::same_text(value, "production") {
        Ok(QuickInputField::SellableYieldKg)
    } else if crate::text::same_text(value, "price") {
        Ok(QuickInputField::AveragePricePerKg)
    } else if crate::text::same_text(value, "cost") {
        Ok(QuickInputField::TotalCost)
    } else {
        let m = chars_of("ไม่พบขั้นตอนประมาณการนี้");
        Err(string_of(&m))
    }
}

/// The forecast mode an owner switches to.
pub open spec fn forecast_mode_reading(mode: Seq<char>) -> Option<ForecastMode> {
    if mode == "quick"@ {
        Some(ForecastMode::Quick)
    } else if mode == "detailed"@ {
        Some(ForecastMode::Detailed)
    } else {
        None
    }
}

pub fn forecast_mode(mode: &str) -> (r: Result<ForecastMode, String>)
    ensures
        match r {
            Ok(m) => forecast_mode_reading(mode@) == Some(m),
            Err(m) => forecast_mode_reading(mode@) is None && m@ == "โหมดประมาณการไม่ถูกต้อง"@,
        },
{
    if crate::text::same_text(mode, "quick") {
        Ok(ForecastMode::Quick)
    } else if crate::text::same_text(mode, "detailed") {
        Ok(ForecastMode::Detailed)
    } else {
        let m = chars_of("โหมดประมาณการไม่ถูกต้อง");
        Err(string_of(&m))
    }
}

/// The decimal numeral of a signed integer.
pub open spec fn signed_text(n: i64) -> Seq<char> {
    if n < 0 {
        "-"@ + decimal_text((-(n as int)) as nat)
    } else {
        decimal_text(n as nat)
    }
}

fn push_signed(out: &mut Vec<char>, n: i64)
    ensures
        final(out)@ == old(out)@ + signed_text(n),
{
    if n < 0 {
        push_str(out, "-");
        let magnitude: u128 = (0i128 - n as i128) as u128;
        push_decimal(out, magnitude);
    } else {
        push_decimal(out, n as u128);
    }
}

/// The address of one page of a season: `/plans/{id}` and the rest.
pub open spec fn plan_path_text(id: i64, rest: Seq<char>) -> Seq<char> {
    "/plans/"@ + signed_text(id) + rest
}

pub fn plan_path(id: i64, rest: &str) -> (r: String)
    ensures
        r@ == plan_path_text(id, rest@),
{
    let mut out = chars_of("/plans/");
    push_signed(&mut out, id);
    push_str(&mut out, rest);
    string_of(&out)
}

impl QuickInputField {
    /// The step of the quick forecast that asks for this answer.
    pub open spec fn spec_step(self) -> Seq<char> {
        match self {
            QuickInputField::SellableYieldKg => "/quick/production"@,
            QuickInputField::AveragePricePerKg => "/quick/price"@,
            QuickInputField::TotalCost => "/quick/cost"@,
        }
    }
}

/// Where the quick forecast resumes: the first answer still missing, or the
/// result once all three are given. `first_missing` is the first answer the
/// season's estimate still lacks.
pub open spec fn quick_resume_text(id: i64, first_missing: Option<QuickInputField>) -> Seq<char> {
    match first_missing {
        Some(field) => plan_path_text(id, field.spec_step()),
        None => plan_path_text(id, "/quick/result"@),
    }
}

pub fn quick_resume_path(id: i64, first_missing: Option<QuickInputField>) -> (r: String)
    ensures
        r@ == quick_resume_text(id, first_missing),
{
    match first_missing {
        Some(QuickInputField::SellableYieldKg) => plan_path(id, "/quick/production"),
        Some(QuickInputField::AveragePricePerKg) => plan_path(id, "/quick/price"),
        Some(QuickInputField::TotalCost) => plan_path(id, "/quick/cost"),
        None => plan_path(id, "/quick/result"),
    }
}

/// The step after an answer is saved: the next question, or the result after
/// the last one.
pub open spec fn quick_next_text(id: i64, field: QuickInputField) -> Seq<char> {
    match field {
        QuickInputField::SellableYieldKg => plan_path_text(id, "/quick/price"@),
        QuickInputField::AveragePricePerKg => plan_path_text(id, "/quick/cost"@),
        QuickInputField::TotalCost => plan_path_text(id, "/quick/result"@),
    }
}

pub fn quick_next_path(id: i64, field: QuickInputField) -> (r: String)
    ensures
        r@ == quick_next_text(id, field),
{
    match field {
        QuickInputField::SellableYieldKg => plan_path(id, "/quick/price"),
        QuickInputField::AveragePricePerKg => plan_path(id, "/quick/cost"),
        QuickInputField::TotalCost => plan_path(id, "/quick/result"),
    }
}

/// Where switching the forecast mode leads: the quick forecast where it
/// resumes, or the detailed plan's hub.
pub open spec fn mode_destination_text(
    id: i64,
    mode: ForecastMode,
    first_missing: Option<QuickInputField>,
) -> Seq<char> {
    match mode {
        ForecastMode::Quick => quick_resume_text(id, first_missing),
        ForecastMode::Detailed => plan_path_text(id, ""@),
    }
}

pub fn mode_destination(id: i64, mode: ForecastMode, first_missing: Option<QuickInputField>) -> (r:
    String)
    ensures
        r@ == mode_destination_text(id, mode, first_missing),
{
    match mode {
        ForecastMode::Quick => quick_resume_path(id, first_missing),
        ForecastMode::Detailed => plan_path(id, ""),
    }
}


/// What an owner is told when the store refuses a season operation; any
/// failure it does not name is reported with one sentence.
pub open spec fn season_store_message(error: StoreError) -> &'static str {
    match error {
        StoreError::NotFound => "ไม่พบฤดูกาลนี้",
        StoreError::Closed => "ฤดูกาลนี้ปิดแล้วและแก้ไขไม่ได้",
        StoreError::DuplicateSeasonYear => "มีฤดูกาลสำหรับปีนี้แล้ว กรุณาเลือกปีอื่น",
        _ => PUBLIC_SERVER_ERROR,
    }
}

pub fn public_store_error(error: StoreError) -> (r: &'static str)
    ensures
        r == season_store_message(error),
{
    match error {
        StoreError::NotFound => "ไม่พบฤดูกาลนี้",
        StoreError::Closed => "ฤดูกาลนี้ปิดแล้วและแก้ไขไม่ได้",
        StoreError::DuplicateSeasonYear => "มีฤดูกาลสำหรับปีนี้แล้ว กรุณาเลือกปีอื่น",
        _ => PUBLIC_SERVER_ERROR,
    }
}

} // verus!
