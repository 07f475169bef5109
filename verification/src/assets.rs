//! The fields of an asset the owner keeps for several seasons: its kind, its
//! money figures and its years, each read from what was typed and refused by
//! label when it cannot be used.

use vstd::prelude::*;
use crate::auth::{StoreError, PUBLIC_SERVER_ERROR};
use crate::amount::{read_typed_number, typed_number, without_commas, Amount};
use crate::plans::{all_ascii_digits, digits_value};
use crate::text::{
    chars_of, decimal_text, parse_unsigned, parse_unsigned_chars, push_decimal, push_str,
    same_text, string_of, trim, trim_text,
};

verus! {

/// What an asset is, as far as depreciation goes.
#[derive(Clone, Copy, Debug, PartialEq, Eq, Structural)]
pub enum AssetKind {
    Equipment,
    OwnedLand,
}

pub open spec fn asset_kind_reading(text: Seq<char>) -> Option<AssetKind> {
    if text == "equipment"@ {
        Some(AssetKind::Equipment)
    } else if text == "owned_land"@ {
        Some(AssetKind::OwnedLand)
    } else {
        None
    }
}

pub fn asset_kind(value: &str) -> (r: Result<AssetKind, String>)
    ensures
        match r {
            Ok(k) => asset_kind_reading(value@) == Some(k),
            Err(m) => asset_kind_reading(value@) is None && m@ == "ประเภทสินทรัพย์ไม่ถูกต้อง"@,
        },
{
    if same_text(value, "equipment") {
        Ok(AssetKind::Equipment)
    } else if same_text(value, "owned_land") {
        Ok(AssetKind::OwnedLand)
    } else {
        let m = chars_of("ประเภทสินทรัพย์ไม่ถูกต้อง");
        Err(string_of(&m))
    }
}

/// What an asset kind is called on its card.
pub open spec fn asset_kind_words(kind: AssetKind) -> Seq<char> {
    match kind {
        AssetKind::Equipment => "อุปกรณ์/สิ่งปลูกสร้าง"@,
        AssetKind::OwnedLand => "ที่ดินที่เป็นเจ้าของ · ไม่คิดค่าเสื่อม"@,
    }
}

pub fn asset_kind_label(kind: AssetKind) -> (r: &'static str)
    ensures
        r@ == asset_kind_words(kind),
{
    match kind {
        AssetKind::Equipment => "อุปกรณ์/สิ่งปลูกสร้าง",
        AssetKind::OwnedLand => "ที่ดินที่เป็นเจ้าของ · ไม่คิดค่าเสื่อม",
    }
}

/// An asset's name: trimmed, present and at most 120 characters.
pub open spec fn asset_name_reading(text: Seq<char>) -> Result<Seq<char>, Seq<char>> {
    let t = trim(text);
    if t.len() == 0 || t.len() > 120 {
        Err("กรุณากรอกชื่อสินทรัพย์ไม่เกิน 120 ตัวอักษร"@)
    } else {
        Ok(t)
    }
}

pub fn asset_name(value: &str) -> (r: Result<String, String>)
    ensures
        crate::plans::text_agrees(r, asset_name_reading(value@)),
{
    let t = trim_text(value);
    if t.len() == 0 || t.len() > 120 {
        let m = chars_of("กรุณากรอกชื่อสินทรัพย์ไม่เกิน 120 ตัวอักษร");
        return Err(string_of(&m));
    }
    Ok(string_of(&t))
}

fn label_first(label: &str, after: &str) -> (r: String)
    ensures
        r@ == label@ + after@,
{
    let mut m = chars_of(label);
    push_str(&mut m, after);
    string_of(&m)
}

/// A money figure of an asset: blank is absent; otherwise a number above
/// zero (or at least zero where zero is allowed) and no more than `maximum`.
pub open spec fn money_reading(value: Seq<char>, label: Seq<char>, allow_zero: bool, maximum: nat) -> Result<
    Option<Amount>,
    Seq<char>,
> {
    if without_commas(trim(value)).len() == 0 {
        Ok(None)
    } else {
        match typed_number(value) {
            None => Err(label + "ต้องเป็นตัวเลข"@),
            Some(v) => {
                let too_small = if allow_zero {
                    v.spec_is_negative()
                } else {
                    !v.spec_is_positive()
                };
                if too_small || v.spec_exceeds(maximum) {
                    Err(label + "อยู่นอกขอบเขตที่ระบบคำนวณได้"@)
                } else {
                    Ok(Some(v))
                }
            },
        }
    }
}

pub fn optional_money(value: &str, label: &str, allow_zero: bool, maximum: u64) -> (r: Result<
    Option<Amount>,
    String,
>)
    ensures
        match r {
            Ok(v) => money_reading(value@, label@, allow_zero, maximum as nat) == Ok::<
                Option<Amount>,
                Seq<char>,
            >(v),
            Err(m) => money_reading(value@, label@, allow_zero, maximum as nat) == Err::<
                Option<Amount>,
                Seq<char>,
            >(m@),
        },
        r matches Ok(Some(v)) ==> v.wf(),
{
    let t = trim_text(value);
    let normalized = crate::amount::drop_commas(&t);
    if normalized.len() == 0 {
        return Ok(None);
    }
    match read_typed_number(&t) {
        None => Err(label_first(label, "ต้องเป็นตัวเลข")),
        Some(v) => {
            let too_small = if allow_zero {
                v.is_negative()
            } else {
                !v.is_positive()
            };
            if too_small || v.exceeds(maximum) {
                Err(label_first(label, "อยู่นอกขอบเขตที่ระบบคำนวณได้"))
            } else {
                Ok(Some(v))
            }
        },
    }
}

/// A money figure that must be given: above zero and no more than `maximum`.
pub fn required_money(value: &str, label: &str, maximum: u64) -> (r: Result<Amount, String>)
    ensures
        match r {
            Ok(v) => money_reading(value@, label@, false, maximum as nat) == Ok::<
                Option<Amount>,
                Seq<char>,
            >(Some(v)),
            Err(m) => match money_reading(value@, label@, false, maximum as nat) {
                Ok(None) => m@ == "กรุณากรอก"@ + label@,
                Ok(Some(_)) => false,
                Err(e) => m@ == e,
            },
        },
{
    match optional_money(value, label, false, maximum)? {
        Some(v) => Ok(v),
        None => {
            let mut m = chars_of("กรุณากรอก");
            push_str(&mut m, label);
            Err(string_of(&m))
        },
    }
}

/// A count of whole years: blank is absent; otherwise a whole number no more
/// than `maximum`.
pub open spec fn years_reading(value: Seq<char>, label: Seq<char>, maximum: u32) -> Result<
    Option<u32>,
    Seq<char>,
> {
    let t = trim(value);
    if t.len() == 0 {
        Ok(None)
    } else {
        match parse_unsigned(t, u32::MAX as int) {
            Err(_) => Err(label + "ต้องเป็นจำนวนปีเต็ม"@),
            Ok(n) => if n > maximum {
                Err(label + "ต้องไม่เกิน "@ + decimal_text(maximum as nat) + " ปี"@)
            } else {
                Ok(Some(n as u32))
            },
        }
    }
}

pub fn optional_u32(value: &str, label: &str, maximum: u32) -> (r: Result<Option<u32>, String>)
    ensures
        match r {
            Ok(v) => years_reading(value@, label@, maximum) == Ok::<Option<u32>, Seq<char>>(v),
            Err(m) => years_reading(value@, label@, maximum) == Err::<Option<u32>, Seq<char>>(m@),
        },
{
    let t = trim_text(value);
    if t.len() == 0 {
        return Ok(None);
    }
    match parse_unsigned_chars(&t, 4294967295) {
        Err(_) => Err(label_first(label, "ต้องเป็นจำนวนปีเต็ม")),
        Ok(n) => {
            if n > maximum as u64 {
                let mut m = chars_of(label);
                push_str(&mut m, "ต้องไม่เกิน ");
                push_decimal(&mut m, maximum as u128);
                push_str(&mut m, " ปี");
                Err(string_of(&m))
            } else {
                Ok(Some(n as u32))
            }
        },
    }
}

/// A count of years that must be given.
pub fn required_u32(value: &str, label: &str, maximum: u32) -> (r: Result<u32, String>)
    ensures
        match r {
            Ok(v) => years_reading(value@, label@, maximum) == Ok::<Option<u32>, Seq<char>>(
                Some(v),
            ),
            Err(m) => match years_reading(value@, label@, maximum) {
                Ok(None) => m@ == "กรุณากรอก"@ + label@,
                Ok(Some(_)) => false,
                Err(e) => m@ == e,
            },
        },
{
    match optional_u32(value, label, maximum)? {
        Some(v) => Ok(v),
        None => {
            let mut m = chars_of("กรุณากรอก");
            push_str(&mut m, label);
            Err(string_of(&m))
        },
    }
}

/// A Buddhist-era year of an asset: blank is absent; otherwise four ASCII
/// digits.
pub open spec fn asset_year_reading(value: Seq<char>, label: Seq<char>) -> Result<
    Option<i32>,
    Seq<char>,
> {
    let t = trim(value);
    if t.len() == 0 {
        Ok(None)
    } else if t.len() != 4 || !all_ascii_digits(t) {
        Err(label + "ต้องเป็นปี พ.ศ. 4 หลัก"@)
    } else if digits_value(t) < 1000 {
        Err(label + "อยู่นอกขอบเขต"@)
    } else {
        Ok(Some(digits_value(t) as i32))
    }
}

pub fn optional_year(value: &str, label: &str) -> (r: Result<Option<i32>, String>)
    ensures
        match r {
            Ok(v) => asset_year_reading(value@, label@) == Ok::<Option<i32>, Seq<char>>(v),
            Err(m) => asset_year_reading(value@, label@) == Err::<Option<i32>, Seq<char>>(m@),
        },
{
    let t = trim_text(value);
    if t.len() == 0 {
        return Ok(None);
    }
    let digits = string_of(&t);
    proof {
        crate::text::law_trim_is_idempotent(value@);
    }
    match crate::plans::valid_season_year(digits.as_str()) {
        Err(_) => Err(label_first(label, "ต้องเป็นปี พ.ศ. 4 หลัก")),
        Ok(year) => {
            if year < 1000 {
                Err(label_first(label, "อยู่นอกขอบเขต"))
            } else {
                Ok(Some(year))
            }
        },
    }
}

/// When an asset came into use: a year typed as such, or a number of years
/// of use before the season of the given year. Turning years of prior use
/// into a year is left to the depreciation rules, which know the range of
/// years they accept.
#[derive(Clone, Copy, Debug, PartialEq, Eq, Structural)]
pub enum AssetStart {
    Year(i32),
    PriorUse { season_year: i32, years: u32 },
}

/// The facts of one asset as the owner typed them, each already read.
#[derive(Clone, Debug, PartialEq)]
pub struct AssetFacts {
    pub name: String,
    pub kind: AssetKind,
    pub original_cost: Amount,
    pub start: AssetStart,
    pub useful_life_years: Option<u32>,
    pub residual_value: Option<Amount>,
    pub retired_year: Option<i32>,
}

/// An asset's facts with its name as text.
pub struct AssetReading {
    pub name: Seq<char>,
    pub kind: AssetKind,
    pub original_cost: Amount,
    pub start: AssetStart,
    pub useful_life_years: Option<u32>,
    pub residual_value: Option<Amount>,
    pub retired_year: Option<i32>,
}

impl AssetFacts {
    pub open spec fn reading(&self) -> AssetReading {
        AssetReading {
            name: self.name@,
            kind: self.kind,
            original_cost: self.original_cost,
            start: self.start,
            useful_life_years: self.useful_life_years,
            residual_value: self.residual_value,
            retired_year: self.retired_year,
        }
    }
}

/// When the asset came into use: a year or years of prior use, exactly one
/// of them; years of prior use need the season's year.
pub open spec fn asset_start_reading(
    start_year: Seq<char>,
    prior_use: Seq<char>,
    season_year: Option<i32>,
    max_years: u32,
) -> Result<AssetStart, Seq<char>> {
    match asset_year_reading(start_year, "ปีเริ่มใช้"@) {
        Err(e) => Err(e),
        Ok(explicit) => match years_reading(prior_use, "จำนวนปีที่ใช้มาแล้ว"@, max_years) {
            Err(e) => Err(e),
            Ok(prior) => match (explicit, prior) {
                (Some(_), Some(_)) => Err("กรอกปีเริ่มใช้หรือจำนวนปีที่ใช้มาแล้วเพียงอย่างเดียว"@),
                (Some(year), None) => Ok(AssetStart::Year(year)),
                (None, Some(years)) => match season_year {
                    None => Err("ฤดูกาลนี้ยังไม่มีปี พ.ศ."@),
                    Some(season) => Ok(AssetStart::PriorUse { season_year: season, years }),
                },
                (None, None) => Err("กรุณากรอกปีเริ่มใช้หรือจำนวนปีที่ใช้มาแล้ว"@),
            },
        },
    }
}

/// The useful life and residual value: required and optional for
/// equipment; land depreciates over nothing and carries neither.
pub open spec fn asset_life_reading(
    kind: AssetKind,
    useful_life_years: Seq<char>,
    residual_value: Seq<char>,
    max_value: nat,
    max_years: u32,
) -> Result<(Option<u32>, Option<Amount>), Seq<char>> {
    match kind {
        AssetKind::Equipment => match years_reading(useful_life_years, "อายุใช้งาน"@, max_years) {
            Err(e) => Err(e),
            Ok(None) => Err("กรุณากรอกอายุใช้งาน"@),
            Ok(Some(life)) => match money_reading(residual_value, "มูลค่าคงเหลือ"@, true, max_value) {
                Err(e) => Err(e),
                Ok(residual) => Ok((Some(life), residual)),
            },
        },
        AssetKind::OwnedLand => if trim(useful_life_years).len() != 0 || trim(residual_value).len()
            != 0 {
            Err("ที่ดินที่เป็นเจ้าของไม่มีอายุใช้งานหรือมูลค่าคงเหลือในแบบจำลองนี้"@)
        } else {
            Ok((None, None))
        },
    }
}

/// Everything typed about an asset, read in the order the form is checked:
/// the first field that cannot be used names the error.
pub open spec fn asset_reading(
    name: Seq<char>,
    kind: Seq<char>,
    original_cost: Seq<char>,
    start_year: Seq<char>,
    prior_use: Seq<char>,
    useful_life_years: Seq<char>,
    residual_value: Seq<char>,
    retired_year: Seq<char>,
    season_year: Option<i32>,
    max_value: nat,
    max_years: u32,
) -> Result<AssetReading, Seq<char>> {
    match asset_name_reading(name) {
        Err(e) => Err(e),
        Ok(n) => match asset_kind_reading(kind) {
            None => Err("ประเภทสินทรัพย์ไม่ถูกต้อง"@),
            Some(k) => match asset_start_reading(start_year, prior_use, season_year, max_years) {
                Err(e) => Err(e),
                Ok(start) => match asset_life_reading(
                    k,
                    useful_life_years,
                    residual_value,
                    max_value,
                    max_years,
                ) {
                    Err(e) => Err(e),
                    Ok((life, residual)) => match money_reading(
                        original_cost,
                        "ราคาซื้อหรือมูลค่าเดิม"@,
                        false,
                        max_value,
                    ) {
                        Err(e) => Err(e),
                        Ok(None) => Err("กรุณากรอกราคาซื้อหรือมูลค่าเดิม"@),
                        Ok(Some(cost)) => match asset_year_reading(retired_year, "ปีเลิกใช้"@) {
                            Err(e) => Err(e),
                            Ok(retired) => Ok(
                                AssetReading {
                                    name: n,
                                    kind: k,
                                    original_cost: cost,
                                    start,
                                    useful_life_years: life,
                                    residual_value: residual,
                                    retired_year: retired,
                                },
                            ),
                        },
                    },
                },
            },
        },
    }
}

fn read_asset_start(
    start_year: &str,
    prior_use: &str,
    season_year: Option<i32>,
    max_years: u32,
) -> (r: Result<AssetStart, String>)
    ensures
        match r {
            Ok(v) => asset_start_reading(start_year@, prior_use@, season_year, max_years) == Ok::<
                AssetStart,
                Seq<char>,
            >(v),
            Err(m) => asset_start_reading(start_year@, prior_use@, season_year, max_years) == Err::<
                AssetStart,
                Seq<char>,
            >(m@),
        },
{
    let explicit = optional_year(start_year, "ปีเริ่มใช้")?;
    let prior = optional_u32(prior_use, "จำนวนปีที่ใช้มาแล้ว", max_years)?;
    match (explicit, prior) {
        (Some(_), Some(_)) => {
            let m = chars_of("กรอกปีเริ่มใช้หรือจำนวนปีที่ใช้มาแล้วเพียงอย่างเดียว");
            Err(string_of(&m))
        },
        (Some(year), None) => Ok(AssetStart::Year(year)),
        (None, Some(years)) => match season_year {
            None => {
                let m = chars_of("ฤดูกาลนี้ยังไม่มีปี พ.ศ.");
                Err(string_of(&m))
            },
            Some(season) => Ok(AssetStart::PriorUse { season_year: season, years }),
        },
        (None, None) => {
            let m = chars_of("กรุณากรอกปีเริ่มใช้หรือจำนวนปีที่ใช้มาแล้ว");
            Err(string_of(&m))
        },
    }
}

fn read_asset_life(
    kind: AssetKind,
    useful_life_years: &str,
    residual_value: &str,
    max_value: u64,
    max_years: u32,
) -> (r: Result<(Option<u32>, Option<Amount>), String>)
    ensures
        match r {
            Ok(v) => asset_life_reading(
                kind,
                useful_life_years@,
                residual_value@,
                max_value as nat,
                max_years,
            ) == Ok::<(Option<u32>, Option<Amount>), Seq<char>>(v),
            Err(m) => asset_life_reading(
                kind,
                useful_life_years@,
                residual_value@,
                max_value as nat,
                max_years,
            ) == Err::<(Option<u32>, Option<Amount>), Seq<char>>(m@),
        },
        r matches Ok((_, Some(v))) ==> v.wf(),
{
    match kind {
        AssetKind::Equipment => {
            proof {
                reveal_strlit("กรุณากรอก");
                reveal_strlit("อายุใช้งาน");
                reveal_strlit("กรุณากรอกอายุใช้งาน");
                assert("กรุณากรอก"@ + "อายุใช้งาน"@ == "กรุณากรอกอายุใช้งาน"@);
            }
            let life = required_u32(useful_life_years, "อายุใช้งาน", max_years)?;
            let residual = optional_money(residual_value, "มูลค่าคงเหลือ", true, max_value)?;
            Ok((Some(life), residual))
        },
        AssetKind::OwnedLand => {
            let l = trim_text(useful_life_years);
            let v = trim_text(residual_value);
            if l.len() != 0 || v.len() != 0 {
                let m = chars_of("ที่ดินที่เป็นเจ้าของไม่มีอายุใช้งานหรือมูลค่าคงเหลือในแบบจำลองนี้");
                Err(string_of(&m))
            } else {
                Ok((None, None))
            }
        },
    }
}

/// Reads every field of an asset form, or names the first that cannot be
/// used. Money figures are bounded by `max_value` and counts of years by
/// `max_years`, the limits the depreciation rules accept.
pub fn parse_asset(
    name: &str,
    kind: &str,
    original_cost: &str,
    start_year: &str,
    approximate_years_in_use: &str,
    useful_life_years: &str,
    residual_value: &str,
    retired_year: &str,
    season_year: Option<i32>,
    max_value: u64,
    max_years: u32,
) -> (r: Result<AssetFacts, String>)
    ensures
        match r {
            Ok(facts) => asset_reading(
                name@,
                kind@,
                original_cost@,
                start_year@,
                approximate_years_in_use@,
                useful_life_years@,
                residual_value@,
                retired_year@,
                season_year,
                max_value as nat,
                max_years,
            ) == Ok::<AssetReading, Seq<char>>(facts.reading()),
            Err(m) => asset_reading(
                name@,
                kind@,
                original_cost@,
                start_year@,
                approximate_years_in_use@,
                useful_life_years@,
                residual_value@,
                retired_year@,
                season_year,
                max_value as nat,
                max_years,
            ) == Err::<AssetReading, Seq<char>>(m@),
        },
{
    let name = asset_name(name)?;
    let kind = asset_kind(kind)?;
    let start = read_asset_start(start_year, approximate_years_in_use, season_year, max_years)?;
    let (life, residual) = read_asset_life(
        kind,
        useful_life_years,
        residual_value,
        max_value,
        max_years,
    )?;
    proof {
        reveal_strlit("กรุณากรอก");
        reveal_strlit("ราคาซื้อหรือมูลค่าเดิม");
        reveal_strlit("กรุณากรอกราคาซื้อหรือมูลค่าเดิม");
        assert("กรุณากรอก"@ + "ราคาซื้อหรือมูลค่าเดิม"@ == "กรุณากรอกราคาซื้อหรือมูลค่าเดิม"@);
    }
    let cost = required_money(original_cost, "ราคาซื้อหรือมูลค่าเดิม", max_value)?;
    let retired = optional_year(retired_year, "ปีเลิกใช้")?;
    Ok(
        AssetFacts {
            name,
            kind,
            original_cost: cost,
            start,
            useful_life_years: life,
            residual_value: residual,
            retired_year: retired,
        },
    )
}


/// What an owner is told when the store refuses an asset operation; any
/// failure it does not name is reported with one sentence.
pub open spec fn asset_store_message(error: StoreError) -> &'static str {
    match error {
        StoreError::NotFound => "ไม่พบข้อมูลนี้",
        StoreError::Closed => "ฤดูกาลนี้ปิดแล้วและแก้ไขไม่ได้",
        StoreError::InvalidValue => "ข้อมูลสินทรัพย์ไม่ถูกต้อง กรุณาตรวจตัวเลขและปี",
        _ => PUBLIC_SERVER_ERROR,
    }
}

pub fn public_store_error(error: StoreError) -> (r: &'static str)
    ensures
        r == asset_store_message(error),
{
    match error {
        StoreError::NotFound => "ไม่พบข้อมูลนี้",
        StoreError::Closed => "ฤดูกาลนี้ปิดแล้วและแก้ไขไม่ได้",
        StoreError::InvalidValue => "ข้อมูลสินทรัพย์ไม่ถูกต้อง กรุณาตรวจตัวเลขและปี",
        _ => PUBLIC_SERVER_ERROR,
    }
}


/// Whether a season's assets may be changed, by what the store found: a
/// season that is not there, or one already closed, is refused by name.
pub open spec fn season_open_reading(found_closed: Option<bool>) -> Result<(), &'static str> {
    match found_closed {
        None => Err("ไม่พบฤดูกาลนี้"),
        Some(true) => Err("ฤดูกาลนี้ปิดแล้วและแก้ไขไม่ได้"),
        Some(false) => Ok(()),
    }
}

pub fn ensure_open(found_closed: Option<bool>) -> (r: Result<(), &'static str>)
    ensures
        r == season_open_reading(found_closed),
{
    match found_closed {
        None => Err("ไม่พบฤดูกาลนี้"),
        Some(true) => Err("ฤดูกาลนี้ปิดแล้วและแก้ไขไม่ได้"),
        Some(false) => Ok(()),
    }
}

/// Owned land does not depreciate: a form of kind `owned_land` is accepted
/// only when its useful life and its residual value are both blank once
/// trimmed, and the asset it gives has neither. Equipment is accepted only
/// with a useful life.
pub proof fn law_owned_land_carries_no_depreciation(
    name: Seq<char>,
    kind: Seq<char>,
    original_cost: Seq<char>,
    start_year: Seq<char>,
    prior_use: Seq<char>,
    useful_life_years: Seq<char>,
    residual_value: Seq<char>,
    retired_year: Seq<char>,
    season_year: Option<i32>,
    max_value: nat,
    max_years: u32,
)
    ensures
        ({
            let r = asset_reading(
                name,
                kind,
                original_cost,
                start_year,
                prior_use,
                useful_life_years,
                residual_value,
                retired_year,
                season_year,
                max_value,
                max_years,
            );
            &&& kind == "owned_land"@ && (trim(useful_life_years).len() != 0 || trim(
                residual_value,
            ).len() != 0) ==> r is Err
            &&& kind == "owned_land"@ && r is Ok ==> r->Ok_0.kind == AssetKind::OwnedLand
                && r->Ok_0.useful_life_years is None && r->Ok_0.residual_value is None
            &&& kind == "equipment"@ && r is Ok ==> r->Ok_0.kind == AssetKind::Equipment
                && r->Ok_0.useful_life_years is Some
        }),
{
    reveal_strlit("equipment");
    reveal_strlit("owned_land");
    assert("equipment"@[0] != "owned_land"@[0]);
}

} // verus!
