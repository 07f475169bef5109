//! Characters of text: splitting a string into characters and back, trimming
//! white space, finding a separator, reading and writing decimal integers.

use vstd::prelude::*;
use vstd::std_specs::iter::IteratorSpec;

verus! {

broadcast use vstd::string::group_string_axioms;

/// Unicode `White_Space`, the property `char::is_whitespace` tests.
pub open spec fn is_white_space(c: char) -> bool {
    let n = c as u32;
    ||| 0x9 <= n <= 0xd
    ||| n == 0x20
    ||| n == 0x85
    ||| n == 0xa0
    ||| n == 0x1680
    ||| 0x2000 <= n <= 0x200a
    ||| n == 0x2028
    ||| n == 0x2029
    ||| n == 0x202f
    ||| n == 0x205f
    ||| n == 0x3000
}

/// The text with leading white space removed.
pub open spec fn trim_start(s: Seq<char>) -> Seq<char>
    decreases s.len(),
{
    if s.len() > 0 && is_white_space(s[0]) {
        trim_start(s.drop_first())
    } else {
        s
    }
}

/// The text with trailing white space removed.
pub open spec fn trim_end(s: Seq<char>) -> Seq<char>
    decreases s.len(),
{
    if s.len() > 0 && is_white_space(s.last()) {
        trim_end(s.drop_last())
    } else {
        s
    }
}

/// The text with white space removed from both ends, as `str::trim` does.
pub open spec fn trim(s: Seq<char>) -> Seq<char> {
    trim_end(trim_start(s))
}

pub fn is_white_space_char(c: char) -> (r: bool)
    ensures
        r == is_white_space(c),
{
    let n = c as u32;
    (0x9 <= n && n <= 0xd) || n == 0x20 || n == 0x85 || n == 0xa0 || n == 0x1680 || (0x2000
        <= n && n <= 0x200a) || n == 0x2028 || n == 0x2029 || n == 0x202f || n == 0x205f || n
        == 0x3000
}

/// The characters of a string, in order.
pub fn chars_of(s: &str) -> (r: Vec<char>)
    ensures
        r@ == s@,
{
    let mut out: Vec<char> = Vec::new();
    for c in iter: s.chars()
        invariant
            iter.seq() == s@,
            out@ == s@.take(iter.index() as int),
    {
        out.push(c);
    }
    out
}


/// `String::push`: appends one character to a string.
#[verifier::external_body]
fn push_char(s: &mut String, c: char)
    ensures
        final(s)@ == old(s)@.push(c),
{
    s.push(c);
}

/// A string holding exactly the given characters.
pub fn string_of(chars: &Vec<char>) -> (r: String)
    ensures
        r@ == chars@,
{
    let mut out = String::new();
    for i in 0..chars.len()
        invariant
            out@ == chars@.take(i as int),
    {
        push_char(&mut out, chars[i]);
        assert(chars@.take(i + 1) == chars@.take(i as int).push(chars@[i as int]));
    }
    assert(chars@.take(chars@.len() as int) == chars@);
    out
}

/// Appends the characters of `s` to `out`.
pub fn push_str(out: &mut Vec<char>, s: &str)
    ensures
        final(out)@ == old(out)@ + s@,
{
    let mut piece = chars_of(s);
    out.append(&mut piece);
}

/// The characters `s[from..to]`.
pub fn slice_chars(s: &Vec<char>, from: usize, to: usize) -> (r: Vec<char>)
    requires
        from <= to <= s.len(),
    ensures
        r@ == s@.subrange(from as int, to as int),
{
    let mut out: Vec<char> = Vec::new();
    let mut i = from;
    while i < to
        invariant
            from <= i <= to <= s.len(),
            out@ == s@.subrange(from as int, i as int),
        decreases to - i,
    {
        out.push(s[i]);
        assert(s@.subrange(from as int, i + 1) == s@.subrange(from as int, i as int).push(
            s@[i as int],
        ));
        i += 1;
    }
    out
}

/// Whether two character sequences are equal.
pub fn same_chars(a: &Vec<char>, b: &Vec<char>) -> (r: bool)
    ensures
        r == (a@ == b@),
{
    if a.len() != b.len() {
        return false;
    }
    let mut i: usize = 0;
    while i < a.len()
        invariant
            a.len() == b.len(),
            0 <= i <= a.len(),
            forall|j: int| 0 <= j < i ==> a@[j] == b@[j],
        decreases a.len() - i,
    {
        if a[i] != b[i] {
            return false;
        }
        i += 1;
    }
    assert(a@ =~= b@);
    true
}

/// Whether the characters of `a` are the text `b`.
pub fn chars_are(a: &Vec<char>, b: &str) -> (r: bool)
    ensures
        r == (a@ == b@),
{
    let bc = chars_of(b);
    same_chars(a, &bc)
}

/// Whether two strings hold the same text.
pub fn same_text(a: &str, b: &str) -> (r: bool)
    ensures
        r == (a@ == b@),
{
    let ac = chars_of(a);
    chars_are(&ac, b)
}

/// Whether `s` begins with `prefix`.
pub open spec fn starts_with(s: Seq<char>, prefix: Seq<char>) -> bool {
    prefix.len() <= s.len() && s.take(prefix.len() as int) == prefix
}

pub fn chars_start_with(s: &Vec<char>, prefix: &str) -> (r: bool)
    ensures
        r == starts_with(s@, prefix@),
{
    let p = chars_of(prefix);
    if p.len() > s.len() {
        return false;
    }
    let head = slice_chars(s, 0, p.len());
    same_chars(&head, &p)
}

/// Whether `pattern` occurs somewhere in `s`.
pub open spec fn contains_text(s: Seq<char>, pattern: Seq<char>) -> bool {
    exists|i: int|
        0 <= i && i + pattern.len() <= s.len() && #[trigger] s.subrange(i, i + pattern.len())
            == pattern
}

pub fn chars_contain(s: &Vec<char>, pattern: &str) -> (r: bool)
    ensures
        r == contains_text(s@, pattern@),
{
    let p = chars_of(pattern);
    if p.len() > s.len() {
        return false;
    }
    if p.len() == 0 {
        assert(contains_text(s@, pattern@)) by {
            assert(s@.subrange(0int, 0int + pattern@.len()) =~= pattern@);
        }
        return true;
    }
    let last = s.len() - p.len();
    let mut i: usize = 0;
    while i <= last
        invariant
            p@ == pattern@,
            p@.len() > 0,
            last + p@.len() == s@.len(),
            0 <= i <= last + 1,
            forall|j: int| 0 <= j < i ==> #[trigger] s@.subrange(j, j + p@.len()) != p@,
        decreases last + 1 - i,
    {
        assert(i + p.len() <= s.len());
        let window = slice_chars(s, i, i + p.len());
        if same_chars(&window, &p) {
            assert(contains_text(s@, pattern@)) by {
                assert(s@.subrange(i as int, i as int + pattern@.len()) == pattern@);
            }
            return true;
        }
        i += 1;
    }
    false
}

/// `s` with every white space character at its start removed, step by step.
proof fn lemma_trim_start_step(s: Seq<char>, a: int)
    requires
        0 <= a < s.len(),
        is_white_space(s[a]),
    ensures
        trim_start(s.skip(a)) == trim_start(s.skip(a + 1)),
{
    assert(s.skip(a).drop_first() == s.skip(a + 1));
}

proof fn lemma_trim_end_step(s: Seq<char>, a: int, b: int)
    requires
        0 <= a < b <= s.len(),
        is_white_space(s[b - 1]),
    ensures
        trim_end(s.subrange(a, b)) == trim_end(s.subrange(a, b - 1)),
{
    assert(s.subrange(a, b).drop_last() == s.subrange(a, b - 1));
}

proof fn lemma_trim_start_stops(s: Seq<char>, a: int)
    requires
        0 <= a <= s.len(),
        a == s.len() || !is_white_space(s[a]),
    ensures
        trim_start(s.skip(a)) == s.skip(a),
        s.skip(a) == s.subrange(a, s.len() as int),
{
}

proof fn lemma_trim_end_stops(s: Seq<char>, a: int, b: int)
    requires
        0 <= a <= b <= s.len(),
        a == b || !is_white_space(s[b - 1]),
    ensures
        trim_end(s.subrange(a, b)) == s.subrange(a, b),
{
}

/// The characters with white space removed from both ends.
pub fn trimmed(s: &Vec<char>) -> (r: Vec<char>)
    ensures
        r@ == trim(s@),
{
    let mut a: usize = 0;
    assert(s@.skip(0) == s@);
    while a < s.len() && is_white_space_char(s[a])
        invariant
            0 <= a <= s.len(),
            trim_start(s@) == trim_start(s@.skip(a as int)),
        decreases s.len() - a,
    {
        proof {
            lemma_trim_start_step(s@, a as int);
        }
        a += 1;
    }
    proof {
        lemma_trim_start_stops(s@, a as int);
    }
    let mut b: usize = s.len();
    while b > a && is_white_space_char(s[b - 1])
        invariant
            a <= b <= s.len(),
            trim(s@) == trim_end(s@.subrange(a as int, b as int)),
        decreases b,
    {
        proof {
            lemma_trim_end_step(s@, a as int, b as int);
        }
        b -= 1;
    }
    proof {
        lemma_trim_end_stops(s@, a as int, b as int);
    }
    slice_chars(s, a, b)
}

/// The text of a string with white space removed from both ends.
pub fn trim_text(s: &str) -> (r: Vec<char>)
    ensures
        r@ == trim(s@),
{
    let c = chars_of(s);
    trimmed(&c)
}

/// The position of the first `c` in `s`, or the length of `s` when it has none.
pub open spec fn find_char(s: Seq<char>, c: char) -> nat
    decreases s.len(),
{
    if s.len() == 0 {
        0
    } else if s[0] == c {
        0
    } else {
        1 + find_char(s.drop_first(), c)
    }
}

/// The text before and after the first `c`, as `str::split_once` gives them.
pub open spec fn split_once(s: Seq<char>, c: char) -> Option<(Seq<char>, Seq<char>)> {
    let i = find_char(s, c) as int;
    if i < s.len() {
        Some((s.take(i), s.skip(i + 1)))
    } else {
        None
    }
}

pub proof fn lemma_find_char_bound(s: Seq<char>, c: char)
    ensures
        find_char(s, c) <= s.len(),
        find_char(s, c) < s.len() ==> s[find_char(s, c) as int] == c,
    decreases s.len(),
{
    if s.len() > 0 && s[0] != c {
        lemma_find_char_bound(s.drop_first(), c);
    }
}

pub fn find_char_in(s: &Vec<char>, c: char) -> (r: usize)
    ensures
        r == find_char(s@, c),
{
    let mut i: usize = 0;
    assert(s@.skip(0) == s@);
    while i < s.len() && s[i] != c
        invariant
            0 <= i <= s.len(),
            find_char(s@, c) == i + find_char(s@.skip(i as int), c),
        decreases s.len() - i,
    {
        assert(s@.skip(i as int).drop_first() == s@.skip(i + 1));
        i += 1;
    }
    i
}

/// Splits at the first `c`.
pub fn split_once_at(s: &Vec<char>, c: char) -> (r: Option<(Vec<char>, Vec<char>)>)
    ensures
        match r {
            Some((a, b)) => split_once(s@, c) == Some((a@, b@)),
            None => split_once(s@, c) is None,
        },
{
    proof {
        lemma_find_char_bound(s@, c);
    }
    let i = find_char_in(s, c);
    if i < s.len() {
        let a = slice_chars(s, 0, i);
        let b = slice_chars(s, i + 1, s.len());
        assert(a@ == s@.take(i as int));
        assert(b@ == s@.skip(i + 1));
        Some((a, b))
    } else {
        None
    }
}

pub open spec fn is_ascii_digit(c: char) -> bool {
    '0' <= c <= '9'
}

pub open spec fn digit_value(c: char) -> int {
    c as int - '0' as int
}

/// Why text is not an unsigned integer, in the words of `ParseIntError`.
#[derive(Clone, Copy, Debug, PartialEq, Eq)]
pub enum IntError {
    Empty,
    InvalidDigit,
    TooLarge,
}

impl IntError {
    pub open spec fn spec_description(self) -> Seq<char> {
        match self {
            IntError::Empty => "cannot parse integer from empty string"@,
            IntError::InvalidDigit => "invalid digit found in string"@,
            IntError::TooLarge => "number too large to fit in target type"@,
        }
    }

    /// The sentence `ParseIntError` displays for this kind.
    pub fn description(&self) -> (r: Vec<char>)
        ensures
            r@ == self.spec_description(),
    {
        match self {
            IntError::Empty => chars_of("cannot parse integer from empty string"),
            IntError::InvalidDigit => chars_of("invalid digit found in string"),
            IntError::TooLarge => chars_of("number too large to fit in target type"),
        }
    }
}

/// Reads digits left to right, stopping at the first character that is not a
/// digit or at the first digit that takes the value past `max`.
pub open spec fn scan_digits(s: Seq<char>, max: int) -> Result<int, IntError>
    decreases s.len(),
{
    if s.len() == 0 {
        Ok(0)
    } else {
        match scan_digits(s.drop_last(), max) {
            Err(e) => Err(e),
            Ok(v) => if !is_ascii_digit(s.last()) {
                Err(IntError::InvalidDigit)
            } else if v * 10 + digit_value(s.last()) > max {
                Err(IntError::TooLarge)
            } else {
                Ok(v * 10 + digit_value(s.last()))
            },
        }
    }
}

/// An unsigned integer no greater than `max`, read as `str::parse` reads one:
/// an optional `+`, then one or more ASCII digits.
pub open spec fn parse_unsigned(s: Seq<char>, max: int) -> Result<int, IntError> {
    if s.len() == 0 {
        Err(IntError::Empty)
    } else if s.len() == 1 && (s[0] == '+' || s[0] == '-') {
        Err(IntError::InvalidDigit)
    } else if s[0] == '+' {
        scan_digits(s.drop_first(), max)
    } else {
        scan_digits(s, max)
    }
}

pub proof fn lemma_scan_digits_range(s: Seq<char>, max: int)
    requires
        0 <= max,
    ensures
        scan_digits(s, max) matches Ok(v) ==> 0 <= v <= max,
    decreases s.len(),
{
    if s.len() > 0 {
        lemma_scan_digits_range(s.drop_last(), max);
    }
}

/// Once reading stops at an error, more text after it does not change it.
proof fn lemma_scan_error_extends(t: Seq<char>, n: int, max: int)
    requires
        0 <= n <= t.len(),
        scan_digits(t.take(n), max) is Err,
    ensures
        scan_digits(t, max) == scan_digits(t.take(n), max),
    decreases t.len(),
{
    if n == t.len() {
        assert(t.take(n) == t);
    } else {
        assert(t.drop_last().take(n) == t.take(n));
        lemma_scan_error_extends(t.drop_last(), n, max);
    }
}

pub proof fn lemma_parse_unsigned_range(s: Seq<char>, max: int)
    requires
        0 <= max,
    ensures
        parse_unsigned(s, max) matches Ok(v) ==> 0 <= v <= max,
{
    lemma_scan_digits_range(s, max);
    if s.len() > 0 {
        lemma_scan_digits_range(s.drop_first(), max);
    }
}

fn scan_digits_in(s: &Vec<char>, from: usize, max: u64) -> (r: Result<u64, IntError>)
    requires
        from <= s.len(),
    ensures
        match r {
            Ok(v) => scan_digits(s@.skip(from as int), max as int) == Ok::<int, IntError>(
                v as int,
            ),
            Err(e) => scan_digits(s@.skip(from as int), max as int) == Err::<int, IntError>(e),
        },
{
    let ghost t = s@.skip(from as int);
    let mut acc: u64 = 0;
    let mut i = from;
    assert(t.take(0) =~= Seq::<char>::empty());
    while i < s.len()
        invariant
            from <= i <= s.len(),
            t == s@.skip(from as int),
            acc <= max,
            scan_digits(t.take(i - from), max as int) == Ok::<int, IntError>(acc as int),
        decreases s.len() - i,
    {
        let c = s[i];
        let ghost k = (i - from) as int;
        assert(t.take(k + 1).drop_last() == t.take(k));
        assert(t.take(k + 1).last() == c);
        if !('0' <= c && c <= '9') {
            assert(scan_digits(t.take(k + 1), max as int) == Err::<int, IntError>(
                IntError::InvalidDigit,
            ));
            proof {
                lemma_scan_error_extends(t, k + 1, max as int);
            }
            return Err(IntError::InvalidDigit);
        }
        let d = (c as u32 - '0' as u32) as u64;
        if d > max || acc > (max - d) / 10 {
            assert(acc * 10 + d > max) by (nonlinear_arith)
                requires
                    d > max || acc > (max - d) / 10,
            ;
            assert(scan_digits(t.take(k + 1), max as int) == Err::<int, IntError>(
                IntError::TooLarge,
            ));
            proof {
                lemma_scan_error_extends(t, k + 1, max as int);
            }
            return Err(IntError::TooLarge);
        }
        assert(acc * 10 + d <= max) by (nonlinear_arith)
            requires
                acc <= (max - d) / 10,
                d <= max,
        ;
        acc = acc * 10 + d;
        i += 1;
    }
    assert(t.take(s.len() - from) == t);
    Ok(acc)
}

/// Reads an unsigned integer no greater than `max` from the characters.
pub fn parse_unsigned_chars(s: &Vec<char>, max: u64) -> (r: Result<u64, IntError>)
    ensures
        match r {
            Ok(v) => parse_unsigned(s@, max as int) == Ok::<int, IntError>(v as int),
            Err(e) => parse_unsigned(s@, max as int) == Err::<int, IntError>(e),
        },
        r matches Ok(v) ==> v <= max,
{
    if s.len() == 0 {
        return Err(IntError::Empty);
    }
    if s.len() == 1 && (s[0] == '+' || s[0] == '-') {
        return Err(IntError::InvalidDigit);
    }
    if s[0] == '+' {
        assert(s@.skip(1) == s@.drop_first());
        scan_digits_in(s, 1, max)
    } else {
        assert(s@.skip(0) == s@);
        scan_digits_in(s, 0, max)
    }
}

/// The decimal digit for a value below ten.
pub open spec fn digit_char(d: int) -> char {
    (d + '0' as int) as char
}

/// The decimal numeral of a natural number, without separators.
pub open spec fn decimal_text(n: nat) -> Seq<char>
    decreases n,
{
    if n < 10 {
        seq![digit_char(n as int)]
    } else {
        decimal_text(n / 10).push(digit_char((n % 10) as int))
    }
}

fn digit_of(d: u128) -> (c: char)
    requires
        d < 10,
    ensures
        c == digit_char(d as int),
{
    let table = ['0', '1', '2', '3', '4', '5', '6', '7', '8', '9'];
    let c = table[d as usize];
    assert(c == digit_char(d as int)) by {
        assert(table@[d as int] == digit_char(d as int));
    }
    c
}

/// Appends the decimal numeral of `n`.
pub fn push_decimal(out: &mut Vec<char>, n: u128)
    ensures
        final(out)@ == old(out)@ + decimal_text(n as nat),
    decreases n,
{
    if n >= 10 {
        push_decimal(out, n / 10);
    }
    let c = digit_of(n % 10);
    out.push(c);
}

/// The text with every trailing `c` removed, as `str::trim_end_matches` does.
pub open spec fn strip_trailing(s: Seq<char>, c: char) -> Seq<char>
    decreases s.len(),
{
    if s.len() > 0 && s.last() == c {
        strip_trailing(s.drop_last(), c)
    } else {
        s
    }
}

/// The characters with every trailing `c` removed.
pub fn strip_trailing_chars(s: &Vec<char>, c: char) -> (r: Vec<char>)
    ensures
        r@ == strip_trailing(s@, c),
{
    let mut end = s.len();
    assert(s@.take(end as int) == s@);
    while end > 0 && s[end - 1] == c
        invariant
            end <= s.len(),
            strip_trailing(s@, c) == strip_trailing(s@.take(end as int), c),
        decreases end,
    {
        assert(s@.take(end as int).drop_last() == s@.take(end - 1));
        end -= 1;
    }
    slice_chars(s, 0, end)
}


proof fn lemma_scan_decimal_text(n: nat, max: int)
    requires
        n <= max,
    ensures
        scan_digits(decimal_text(n), max) == Ok::<int, IntError>(n as int),
        decimal_text(n).len() >= 1,
        forall|i: int| 0 <= i < decimal_text(n).len() ==> is_ascii_digit(#[trigger] decimal_text(n)[i]),
    decreases n,
{
    let k = (n % 10) as int;
    assert(digit_value(digit_char(k)) == k);
    assert(is_ascii_digit(digit_char(k)));
    if n >= 10 {
        assert((n / 10) * 10 + n % 10 == n) by (nonlinear_arith);
        assert(n / 10 <= max) by (nonlinear_arith)
            requires
                n <= max,
                n >= 10,
        ;
        lemma_scan_decimal_text(n / 10, max);
        let d = decimal_text(n);
        assert(d.drop_last() == decimal_text(n / 10));
        assert(d.last() == digit_char(k));
        assert(scan_digits(d.drop_last(), max) == Ok::<int, IntError>((n / 10) as int));
        assert((n / 10) as int * 10 + digit_value(d.last()) == n);
        assert(forall|i: int| 0 <= i < d.len() - 1 ==> d[i] == decimal_text(n / 10)[i]);
    } else {
        assert(decimal_text(n).drop_last() =~= Seq::<char>::empty());
        assert(scan_digits(Seq::<char>::empty(), max) == Ok::<int, IntError>(0));
        assert(decimal_text(n).last() == digit_char(k));
    }
}

/// A number written in decimal reads back as itself: `parse_unsigned` undoes
/// `decimal_text`, and trimming leaves a numeral unchanged.
pub proof fn law_decimal_text_reads_back(n: nat, max: int)
    requires
        n <= max,
    ensures
        trim(decimal_text(n)) == decimal_text(n),
        parse_unsigned(decimal_text(n), max) == Ok::<int, IntError>(n as int),
        find_char(decimal_text(n), '/') == decimal_text(n).len(),
        decimal_text(n).len() >= 1,
        forall|i: int|
            0 <= i < decimal_text(n).len() ==> is_ascii_digit(#[trigger] decimal_text(n)[i]),
{
    lemma_scan_decimal_text(n, max);
    let d = decimal_text(n);
    assert(!is_white_space(d[0]));
    assert(!is_white_space(d.last()));
    assert(trim_start(d) == d);
    assert(d[0] != '+' && d[0] != '-');
    lemma_find_char_digits(d);
}

proof fn lemma_find_char_digits(d: Seq<char>)
    requires
        forall|i: int| 0 <= i < d.len() ==> is_ascii_digit(#[trigger] d[i]),
    ensures
        find_char(d, '/') == d.len(),
    decreases d.len(),
{
    if d.len() > 0 {
        assert(d[0] != '/');
        assert(forall|i: int| 0 <= i < d.drop_first().len() ==> d.drop_first()[i] == d[i + 1]);
        lemma_find_char_digits(d.drop_first());
    }
}

/// The first `c` in `p + q`, when `p` has none, is the first in `q`.
pub proof fn lemma_find_char_after(p: Seq<char>, q: Seq<char>, c: char)
    requires
        forall|i: int| 0 <= i < p.len() ==> #[trigger] p[i] != c,
    ensures
        find_char(p + q, c) == p.len() + find_char(q, c),
    decreases p.len(),
{
    if p.len() > 0 {
        assert((p + q).drop_first() == p.drop_first() + q);
        assert(forall|i: int| 0 <= i < p.drop_first().len() ==> p.drop_first()[i] == p[i + 1]);
        lemma_find_char_after(p.drop_first(), q, c);
    } else {
        assert(p + q == q);
    }
}

proof fn lemma_trim_start_shape(s: Seq<char>)
    ensures
        trim_start(s).len() == 0 || !is_white_space(trim_start(s)[0]),
    decreases s.len(),
{
    if s.len() > 0 && is_white_space(s[0]) {
        lemma_trim_start_shape(s.drop_first());
    }
}

proof fn lemma_trim_end_shape(s: Seq<char>)
    ensures
        trim_end(s) == s.take(trim_end(s).len() as int),
        trim_end(s).len() <= s.len(),
        trim_end(s).len() == 0 || !is_white_space(trim_end(s).last()),
    decreases s.len(),
{
    if s.len() > 0 && is_white_space(s.last()) {
        lemma_trim_end_shape(s.drop_last());
        assert(s.drop_last().take(trim_end(s).len() as int) == s.take(trim_end(s).len() as int));
    } else {
        assert(s.take(s.len() as int) == s);
    }
}

/// Trimming twice is trimming once.
pub proof fn law_trim_is_idempotent(s: Seq<char>)
    ensures
        trim(trim(s)) == trim(s),
{
    let u = trim_start(s);
    let t = trim_end(u);
    lemma_trim_start_shape(s);
    lemma_trim_end_shape(u);
    if t.len() > 0 {
        assert(t[0] == u[0]);
        assert(trim_start(t) == t);
        assert(trim_end(t) == t);
    }
}

/// Stripping a trailing character is unchanged by more of the same:
/// `strip_trailing(s + [c], c)` is `strip_trailing(s, c)`.
pub proof fn law_strip_trailing_absorbs(s: Seq<char>, c: char)
    ensures
        strip_trailing(s.push(c), c) == strip_trailing(s, c),
{
    assert(s.push(c).drop_last() == s);
}

} // verus!
