//! Decimal amounts as an owner types them: read through `rust_decimal`, held
//! as sign, magnitude and scale, compared exactly, and written back as text.

use std::str::FromStr;
use vstd::prelude::*;
use crate::text::{is_white_space, trim};

verus! {

/// A decimal number `±magnitude / 10^scale`, exactly as `rust_decimal`
/// holds one: a 96-bit magnitude, a scale of at most 28, and a sign that zero
/// may carry too.
#[derive(Clone, Copy, Debug, PartialEq, Eq, Structural)]
pub struct Amount {
    pub negative: bool,
    pub magnitude: u128,
    pub scale: u32,
}

/// `2^96`, one past the largest magnitude.
pub open spec fn magnitude_bound() -> int {
    0x1_0000_0000_0000_0000_0000_0000
}

pub open spec fn pow10(n: nat) -> int
    decreases n,
{
    if n == 0 {
        1
    } else {
        10 * pow10((n - 1) as nat)
    }
}

/// Whether two amounts are the same number, whatever their scales.
pub open spec fn value_eq(a: Amount, b: Amount) -> bool {
    a.numerator() * pow10(b.scale as nat) == b.numerator() * pow10(a.scale as nat)
}

/// Text as `rust_decimal` writes a number: not empty, without white space
/// or thousands separators.
pub open spec fn plain_numeral(s: Seq<char>) -> bool {
    s.len() > 0 && forall|i: int| 0 <= i < s.len() ==> #[trigger] s[i] != ',' && !is_white_space(s[i])
}

/// Whether `Decimal::from_str` reads `text` as the number `value`.
pub open spec fn reads_back(text: Seq<char>, value: Amount) -> bool {
    decimal_parse(text) matches Some(b) && value_eq(b, value) && b.wf()
}

impl Amount {
    /// A value `rust_decimal` can hold.
    pub open spec fn wf(self) -> bool {
        self.magnitude < magnitude_bound() && self.scale <= 28
    }

    /// The signed magnitude, the value times `10^scale`.
    pub open spec fn numerator(self) -> int {
        if self.negative {
            -(self.magnitude as int)
        } else {
            self.magnitude as int
        }
    }

    /// Whether the value is below zero.
    pub open spec fn spec_is_negative(self) -> bool {
        self.negative && self.magnitude > 0
    }

    /// Whether the value is above zero.
    pub open spec fn spec_is_positive(self) -> bool {
        !self.negative && self.magnitude > 0
    }

    /// Whether the value is above the whole number `bound`.
    pub open spec fn spec_exceeds(self, bound: nat) -> bool {
        !self.negative && self.magnitude > bound * pow10(self.scale as nat)
    }

    pub fn is_negative(&self) -> (r: bool)
        ensures
            r == self.spec_is_negative(),
    {
        self.negative && self.magnitude > 0
    }

    pub fn is_positive(&self) -> (r: bool)
        ensures
            r == self.spec_is_positive(),
    {
        !self.negative && self.magnitude > 0
    }

    /// Whether the value is above one trillion, the largest figure the
    /// calculation accepts.
    pub fn exceeds_trillion(&self) -> (r: bool)
        requires
            self.wf(),
        ensures
            r == self.spec_exceeds(1_000_000_000_000),
    {
        self.exceeds(1_000_000_000_000)
    }

    /// Whether the value is above the whole number `bound`.
    pub fn exceeds(&self, bound: u64) -> (r: bool)
        requires
            self.wf(),
        ensures
            r == self.spec_exceeds(bound as nat),
    {
        if self.negative {
            return false;
        }
        let mut limit: u128 = bound as u128;
        let mut k: u32 = 0;
        while k < self.scale
            invariant
                k <= self.scale <= 28,
                limit == bound * pow10(k as nat),
                self.magnitude < magnitude_bound(),
            decreases self.scale - k,
        {
            if limit >= 0x1_0000_0000_0000_0000_0000_0000 {
                proof {
                    lemma_pow10_grows(k as nat, self.scale as nat);
                    assert(bound * pow10(k as nat) <= bound * pow10(self.scale as nat))
                        by (nonlinear_arith)
                        requires
                            pow10(k as nat) <= pow10(self.scale as nat),
                    ;
                }
                return false;
            }
            proof {
                assert(pow10((k + 1) as nat) == 10 * pow10(k as nat));
                assert(limit * 10 == bound * pow10((k + 1) as nat)) by (nonlinear_arith)
                    requires
                        limit == bound * pow10(k as nat),
                        pow10((k + 1) as nat) == 10 * pow10(k as nat),
                ;
            }
            limit = limit * 10;
            k += 1;
        }
        self.magnitude > limit
    }

    /// The same number with the sign dropped.
    pub open spec fn spec_abs(self) -> Amount {
        Amount { negative: false, magnitude: self.magnitude, scale: self.scale }
    }

    pub fn abs(&self) -> (r: Amount)
        ensures
            r == self.spec_abs(),
    {
        Amount { negative: false, magnitude: self.magnitude, scale: self.scale }
    }
}

pub proof fn lemma_pow10_positive(n: nat)
    ensures
        pow10(n) > 0,
{
    lemma_pow10_grows(0, n);
}

proof fn lemma_pow10_grows(a: nat, b: nat)
    requires
        a <= b,
    ensures
        1 <= pow10(a) <= pow10(b),
    decreases b,
{
    if b > 0 {
        if a < b {
            lemma_pow10_grows(a, (b - 1) as nat);
        } else {
            lemma_pow10_grows((a - 1) as nat, (b - 1) as nat);
        }
    }
}

/// What `rust_decimal`'s `Decimal::from_str` reads from text, when it reads
/// a number.
pub uninterp spec fn decimal_parse(text: Seq<char>) -> Option<Amount>;

/// `Decimal::from_str`. The result is named by `decimal_parse`; a number it
/// reads has a 96-bit magnitude and a scale of at most 28, as every `Decimal`
/// does. Nothing else is stated of which texts it accepts.
#[verifier::external_body]
pub(crate) fn parse_decimal_text(text: &str) -> (r: Option<Amount>)
    ensures
        r == decimal_parse(text@),
        r matches Some(a) ==> a.wf(),
{
    match rust_decimal::Decimal::from_str(text) {
        Ok(d) => Some(
            Amount { negative: d.is_sign_negative(), magnitude: d.mantissa().unsigned_abs(), scale: d.scale() },
        ),
        Err(_) => None,
    }
}

/// What `format!("{:.2}", value)` writes for a `Decimal`.
pub uninterp spec fn decimal_two_places(value: Amount) -> Seq<char>;

/// `Decimal`'s `Display` with a precision of two places. The text is named
/// by `decimal_two_places`; nothing is stated of its form.
#[verifier::external_body]
pub(crate) fn two_places_text(value: Amount) -> (r: String)
    requires
        value.wf(),
    ensures
        r@ == decimal_two_places(value),
{
    let mut d = rust_decimal::Decimal::from_i128_with_scale(value.magnitude as i128, value.scale);
    d.set_sign_negative(value.negative);
    format!("{:.2}", d)
}

/// What `value.normalize().to_string()` writes for a `Decimal`.
pub uninterp spec fn decimal_normal_text(value: Amount) -> Seq<char>;

/// `Decimal::normalize` followed by `to_string`: the number without trailing
/// zeros. The text is named by `decimal_normal_text`. Of its form only this
/// is stated: it is written with digits, a sign and a point, never empty,
/// and `Decimal::from_str` reads it back as the same number.
#[verifier::external_body]
pub(crate) fn normal_text(value: Amount) -> (r: String)
    requires
        value.wf(),
    ensures
        r@ == decimal_normal_text(value),
        plain_numeral(r@),
        reads_back(r@, value),
{
    let mut d = rust_decimal::Decimal::from_i128_with_scale(value.magnitude as i128, value.scale);
    d.set_sign_negative(value.negative);
    d.normalize().to_string()
}

impl Amount {
    /// Whether a hundred times the value is still a `Decimal`: its size at
    /// most `2^96 - 1`.
    pub open spec fn fits_times_hundred(self) -> bool {
        self.magnitude * 100 <= (magnitude_bound() - 1) * pow10(self.scale as nat)
    }

    pub fn fits_hundredfold(&self) -> (r: bool)
        requires
            self.wf(),
        ensures
            r == self.fits_times_hundred(),
    {
        let mut limit: u128 = 0xffff_ffff_ffff_ffff_ffff_ffff;
        let mut k: u32 = 0;
        let big: u128 = 0xff_ffff_ffff_ffff_ffff_ffff_ffff;
        while k < self.scale
            invariant
                k <= self.scale <= 28,
                limit == (magnitude_bound() - 1) * pow10(k as nat),
                self.magnitude < magnitude_bound(),
                big == 0xff_ffff_ffff_ffff_ffff_ffff_ffff,
            decreases self.scale - k,
        {
            if limit > big {
                proof {
                    lemma_pow10_grows(k as nat, self.scale as nat);
                    assert((magnitude_bound() - 1) * pow10(k as nat) <= (magnitude_bound() - 1)
                        * pow10(self.scale as nat)) by (nonlinear_arith)
                        requires
                            pow10(k as nat) <= pow10(self.scale as nat),
                    ;
                    assert(self.magnitude * 100 < big);
                }
                return true;
            }
            proof {
                assert(pow10((k + 1) as nat) == 10 * pow10(k as nat));
                assert(limit * 10 == (magnitude_bound() - 1) * pow10((k + 1) as nat))
                    by (nonlinear_arith)
                    requires
                        limit == (magnitude_bound() - 1) * pow10(k as nat),
                        pow10((k + 1) as nat) == 10 * pow10(k as nat),
                ;
            }
            limit = limit * 10;
            k += 1;
        }
        self.magnitude * 100 <= limit
    }
}

/// What `rust_decimal` gives for `value * Decimal::ONE_HUNDRED`.
pub uninterp spec fn decimal_times_hundred(value: Amount) -> Amount;

/// `Decimal`'s multiplication by `Decimal::ONE_HUNDRED`, which panics when
/// the product is too large for a `Decimal`; `requires` leaves those values
/// out. The product is named by `decimal_times_hundred`; it is a `Decimal`
/// again, a hundred times the value exactly: the product always fits once
/// the scale is reduced, so nothing is rounded away.
#[verifier::external_body]
pub(crate) fn times_hundred(value: Amount) -> (r: Amount)
    requires
        value.wf(),
        value.fits_times_hundred(),
    ensures
        r == decimal_times_hundred(value),
        r.wf(),
        r.numerator() * pow10(value.scale as nat) == value.numerator() * 100 * pow10(r.scale as nat),
{
    let mut d = rust_decimal::Decimal::from_i128_with_scale(value.magnitude as i128, value.scale);
    d.set_sign_negative(value.negative);
    let p = d * rust_decimal::Decimal::ONE_HUNDRED;
    Amount { negative: p.is_sign_negative(), magnitude: p.mantissa().unsigned_abs(), scale: p.scale() }
}

/// What `rust_decimal` gives for `value / Decimal::ONE_HUNDRED`.
pub uninterp spec fn decimal_hundredth(value: Amount) -> Amount;

/// Whether a hundredth of the value has at most 28 places, so that a
/// `Decimal` holds it exactly.
pub open spec fn hundredth_is_exact(value: Amount) -> bool {
    (value.numerator() * pow10((28 - value.scale) as nat)) % 100 == 0
}

/// `Decimal`'s division by `Decimal::ONE_HUNDRED`: a quotient smaller than
/// the dividend, so it never overflows, and the divisor is not zero. The
/// quotient is named by `decimal_hundredth`. It is a `Decimal` again, and
/// where the hundredth has at most 28 places it is that hundredth exactly:
/// the division carries on until the remainder is zero.
#[verifier::external_body]
pub(crate) fn hundredth(value: Amount) -> (r: Amount)
    requires
        value.wf(),
    ensures
        r == decimal_hundredth(value),
        r.wf(),
        hundredth_is_exact(value) ==> r.numerator() * 100 * pow10(value.scale as nat)
            == value.numerator() * pow10(r.scale as nat),
{
    let mut d = rust_decimal::Decimal::from_i128_with_scale(value.magnitude as i128, value.scale);
    d.set_sign_negative(value.negative);
    let q = d / rust_decimal::Decimal::ONE_HUNDRED;
    Amount { negative: q.is_sign_negative(), magnitude: q.mantissa().unsigned_abs(), scale: q.scale() }
}

/// What `rust_decimal`'s `checked_div` gives for `dividend / divisor`:
/// `None` exactly where `/` would panic, on a zero divisor or an overflow.
pub uninterp spec fn decimal_quotient(dividend: Amount, divisor: Amount) -> Option<Amount>;

/// `Decimal::checked_div`. The result is named by `decimal_quotient`; a
/// quotient it gives is a `Decimal` again.
#[verifier::external_body]
pub(crate) fn checked_quotient(dividend: Amount, divisor: Amount) -> (r: Option<Amount>)
    requires
        dividend.wf(),
        divisor.wf(),
    ensures
        r == decimal_quotient(dividend, divisor),
        r matches Some(q) ==> q.wf(),
{
    let mut a = rust_decimal::Decimal::from_i128_with_scale(dividend.magnitude as i128, dividend.scale);
    a.set_sign_negative(dividend.negative);
    let mut b = rust_decimal::Decimal::from_i128_with_scale(divisor.magnitude as i128, divisor.scale);
    b.set_sign_negative(divisor.negative);
    match a.checked_div(b) {
        Some(q) => Some(
            Amount { negative: q.is_sign_negative(), magnitude: q.mantissa().unsigned_abs(), scale: q.scale() },
        ),
        None => None,
    }
}

/// What `rust_decimal`'s `checked_mul` gives for `a * b`: `None` exactly
/// where `*` would panic, on an overflow.
pub uninterp spec fn decimal_product(a: Amount, b: Amount) -> Option<Amount>;

/// `Decimal::checked_mul`. The result is named by `decimal_product`; a
/// product it gives is a `Decimal` again.
#[verifier::external_body]
pub(crate) fn checked_product(a: Amount, b: Amount) -> (r: Option<Amount>)
    requires
        a.wf(),
        b.wf(),
    ensures
        r == decimal_product(a, b),
        r matches Some(p) ==> p.wf(),
{
    let mut x = rust_decimal::Decimal::from_i128_with_scale(a.magnitude as i128, a.scale);
    x.set_sign_negative(a.negative);
    let mut y = rust_decimal::Decimal::from_i128_with_scale(b.magnitude as i128, b.scale);
    y.set_sign_negative(b.negative);
    match x.checked_mul(y) {
        Some(p) => Some(
            Amount { negative: p.is_sign_negative(), magnitude: p.mantissa().unsigned_abs(), scale: p.scale() },
        ),
        None => None,
    }
}

/// A value rounded to `places` decimal places, as `rust_decimal`'s
/// `round_dp_with_strategy` does it: a value with no more places is kept as
/// it is; otherwise the magnitude is divided by the power of ten that drops
/// the extra places, and one is added when the dropped part is more than a
/// half, or exactly a half and the midpoint goes away from zero (`away`) or
/// the kept part is odd. The sign is kept, except on a result of zero
/// rounded from a value that was not zero.
pub open spec fn rounded_to(value: Amount, places: nat, away: bool) -> Amount {
    if value.scale <= places {
        value
    } else if value.magnitude == 0 {
        Amount { negative: value.negative, magnitude: 0, scale: places as u32 }
    } else {
        let unit = pow10((value.scale - places) as nat);
        let kept = value.magnitude as int / unit;
        let dropped = value.magnitude as int % unit;
        let up = dropped > unit / 2 || (dropped == unit / 2 && (away || kept % 2 == 1));
        let m = if up {
            kept + 1
        } else {
            kept
        };
        Amount { negative: value.negative && m != 0, magnitude: m as u128, scale: places as u32 }
    }
}

/// `Decimal::round_dp(2)`: two places, a midpoint to the even neighbour.
#[verifier::external_body]
pub(crate) fn round_two(value: Amount) -> (r: Amount)
    requires
        value.wf(),
    ensures
        r == rounded_to(value, 2, false),
        r.wf(),
{
    let mut d = rust_decimal::Decimal::from_i128_with_scale(value.magnitude as i128, value.scale);
    d.set_sign_negative(value.negative);
    let q = d.round_dp(2);
    Amount { negative: q.is_sign_negative(), magnitude: q.mantissa().unsigned_abs(), scale: q.scale() }
}

/// What `rust_decimal`'s `checked_add` gives for `a + b`: `None` exactly
/// where `+` would panic, on an overflow.
pub uninterp spec fn decimal_sum(a: Amount, b: Amount) -> Option<Amount>;

/// `Decimal::checked_add`. The result is named by `decimal_sum`; a sum it
/// gives is a `Decimal` again.
#[verifier::external_body]
pub(crate) fn checked_sum(a: Amount, b: Amount) -> (r: Option<Amount>)
    requires
        a.wf(),
        b.wf(),
    ensures
        r == decimal_sum(a, b),
        r matches Some(s) ==> s.wf(),
{
    let mut x = rust_decimal::Decimal::from_i128_with_scale(a.magnitude as i128, a.scale);
    x.set_sign_negative(a.negative);
    let mut y = rust_decimal::Decimal::from_i128_with_scale(b.magnitude as i128, b.scale);
    y.set_sign_negative(b.negative);
    match x.checked_add(y) {
        Some(p) => Some(
            Amount { negative: p.is_sign_negative(), magnitude: p.mantissa().unsigned_abs(), scale: p.scale() },
        ),
        None => None,
    }
}

/// `Decimal::round_dp_with_strategy` to no places with
/// `RoundingStrategy::MidpointAwayFromZero`: a whole number, a half away
/// from zero.
#[verifier::external_body]
pub(crate) fn round_whole(value: Amount) -> (r: Amount)
    requires
        value.wf(),
    ensures
        r == rounded_to(value, 0, true),
        r.wf(),
{
    let mut d = rust_decimal::Decimal::from_i128_with_scale(value.magnitude as i128, value.scale);
    d.set_sign_negative(value.negative);
    let q = d.round_dp_with_strategy(0, rust_decimal::RoundingStrategy::MidpointAwayFromZero);
    Amount { negative: q.is_sign_negative(), magnitude: q.mantissa().unsigned_abs(), scale: q.scale() }
}

/// The text with every comma taken out, as `replace(',', "")` does.
pub open spec fn without_commas(s: Seq<char>) -> Seq<char>
    decreases s.len(),
{
    if s.len() == 0 {
        s
    } else if s.last() == ',' {
        without_commas(s.drop_last())
    } else {
        without_commas(s.drop_last()).push(s.last())
    }
}

pub fn drop_commas(s: &Vec<char>) -> (r: Vec<char>)
    ensures
        r@ == without_commas(s@),
{
    let mut out: Vec<char> = Vec::new();
    let mut i: usize = 0;
    while i < s.len()
        invariant
            0 <= i <= s.len(),
            out@ == without_commas(s@.take(i as int)),
        decreases s.len() - i,
    {
        assert(s@.take(i + 1).drop_last() == s@.take(i as int));
        if s[i] != ',' {
            out.push(s[i]);
        }
        i += 1;
    }
    assert(s@.take(s.len() as int) == s@);
    out
}

/// The number typed in a field: white space around it and commas within it
/// are ignored, as an owner types thousands separators.
pub open spec fn typed_number(text: Seq<char>) -> Option<Amount> {
    decimal_parse(without_commas(trim(text)))
}

/// Reads the number typed in a field after white space and commas are set
/// aside; `None` when `rust_decimal` does not read a number there.
pub fn read_typed_number(trimmed_text: &Vec<char>) -> (r: Option<Amount>)
    ensures
        r == decimal_parse(without_commas(trimmed_text@)),
        r matches Some(a) ==> a.wf(),
{
    let normalized = drop_commas(trimmed_text);
    let text = crate::text::string_of(&normalized);
    parse_decimal_text(text.as_str())
}

} // verus!
