//! The network gate: how many times one client address may knock on the
//! account doors in a window before the server asks it to wait.
//!
//! Two budgets. The account budget covers the routes that send mail:
//! registration, verification resend, and the password-reset request. The
//! login budget covers the routes that take a credential or a token: login,
//! verification, and the reset itself. Everything else is unlimited.

use vstd::prelude::*;
use crate::settings::optional_chars;
use crate::text::{
    chars_are, chars_contain, chars_of, contains_text, decimal_text, parse_unsigned,
    parse_unsigned_chars, push_decimal, push_str, split_once, split_once_at,
    string_of, trim, trim_text, trimmed,
};

verus! {

/// One second, in the nanoseconds that moments and waits are counted in.
pub const NANOS_PER_SECOND: u128 = 1_000_000_000;

/// So many attempts within so many seconds. Written in the environment as
/// `attempts/seconds`, for example `10/300`.
#[derive(Clone, Copy, Debug, PartialEq, Eq, Structural)]
pub struct Limit {
    pub attempts: u32,
    pub window_secs: u64,
}

/// What a limit written as text means, or `None` when it is not one.
pub open spec fn limit_reading(text: Seq<char>) -> Option<Limit> {
    match split_once(trim(text), '/') {
        None => None,
        Some((count, seconds)) => match (
            parse_unsigned(trim(count), u32::MAX as int),
            parse_unsigned(trim(seconds), u64::MAX as int),
        ) {
            (Ok(n), Ok(w)) => if n == 0 || w == 0 {
                None
            } else {
                Some(Limit { attempts: n as u32, window_secs: w as u64 })
            },
            _ => None,
        },
    }
}

/// The sentence that refuses a limit variable by name.
pub open spec fn limit_refusal(name: Seq<char>) -> Seq<char> {
    name + " must be written as attempts/seconds, for example 10/300"@
}

impl Limit {
    pub fn parse(name: &str, text: &str) -> (r: Result<Self, String>)
        ensures
            match r {
                Ok(limit) => limit_reading(text@) == Some(limit),
                Err(message) => limit_reading(text@) is None && message@ == limit_refusal(
                    name@,
                ),
            },
    {
        let t = trim_text(text);
        let parsed = match split_once_at(&t, '/') {
            None => None,
            Some((count, seconds)) => {
                let count = trimmed(&count);
                let seconds = trimmed(&seconds);
                match (
                    parse_unsigned_chars(&count, 4294967295),
                    parse_unsigned_chars(&seconds, 18446744073709551615),
                ) {
                    (Ok(n), Ok(w)) => {
                        if n == 0 || w == 0 {
                            None
                        } else {
                            Some(Limit { attempts: n as u32, window_secs: w })
                        }
                    },
                    _ => None,
                }
            },
        };
        match parsed {
            Some(limit) => Ok(limit),
            None => {
                let mut message = chars_of(name);
                push_str(&mut message, " must be written as attempts/seconds, for example 10/300");
                Err(string_of(&message))
            },
        }
    }
}

/// Which door a request knocks on.
#[derive(Clone, Copy, Debug, PartialEq, Eq, Hash, Structural)]
pub enum Budget {
    /// Routes that send a message: registration, resend, reset request.
    Account,
    /// Routes that take a credential or a token: login, verify, reset.
    Login,
}

/// Where the client's address is read from. The peer address is the truth
/// when the process faces the network itself; behind a platform proxy every
/// peer is the proxy, and the platform's forwarding header carries the client.
/// Trusting that header is a deployment decision, so it is off until the
/// environment says otherwise.
#[derive(Clone, Copy, Debug, PartialEq, Eq, Structural)]
pub enum AddressSource {
    Peer,
    ForwardedFor,
}

/// What the address-source variable means, or `None` when it is neither word.
pub open spec fn address_source_reading(value: Option<Seq<char>>) -> Option<AddressSource> {
    match value {
        None => Some(AddressSource::Peer),
        Some(text) => {
            let t = trim(text);
            if t.len() == 0 || t == "peer"@ {
                Some(AddressSource::Peer)
            } else if t == "forwarded-for"@ {
                Some(AddressSource::ForwardedFor)
            } else {
                None
            }
        },
    }
}

impl AddressSource {
    pub fn parse(name: &str, value: Option<String>) -> (r: Result<Self, String>)
        ensures
            match r {
                Ok(source) => address_source_reading(optional_chars(value)) == Some(source),
                Err(message) => address_source_reading(optional_chars(value)) is None
                    && message@ == name@ + " must be peer or forwarded-for"@,
            },
    {
        match &value {
            None => Ok(AddressSource::Peer),
            Some(text) => {
                let t = trim_text(text.as_str());
                if t.len() == 0 || chars_are(&t, "peer") {
                    Ok(AddressSource::Peer)
                } else if chars_are(&t, "forwarded-for") {
                    Ok(AddressSource::ForwardedFor)
                } else {
                    let mut message = chars_of(name);
                    push_str(&mut message, " must be peer or forwarded-for");
                    Err(string_of(&message))
                }
            },
        }
    }
}

#[derive(Clone, Copy, Debug, PartialEq, Eq, Structural)]
pub struct GateConfig {
    pub account: Limit,
    pub login: Limit,
    pub address_source: AddressSource,
}

/// A variable as read: set to something other than white space, or absent.
pub open spec fn present(value: Option<Seq<char>>) -> Option<Seq<char>> {
    match value {
        Some(text) => if trim(text).len() > 0 {
            Some(text)
        } else {
            None
        },
        None => None,
    }
}

/// The rate limits a set of variables describe, or the sentence that refuses the
/// first variable that does not parse.
/// Whether a limit variable, or its default when it is unset, reads as a
/// limit.
pub open spec fn limit_read(value: Option<Seq<char>>, default: Seq<char>) -> bool {
    limit_reading(
        match present(value) {
            Some(t) => t,
            None => default,
        },
    ) is Some
}

pub open spec fn gate_reading(
    account: Option<Seq<char>>,
    login: Option<Seq<char>>,
    source: Option<Seq<char>>,
) -> Result<GateConfig, Seq<char>> {
    let account_text = match present(account) {
        Some(t) => t,
        None => "5/3600"@,
    };
    let login_text = match present(login) {
        Some(t) => t,
        None => "10/300"@,
    };
    match limit_reading(account_text) {
        None => Err(limit_refusal("RATE_LIMIT_ACCOUNT"@)),
        Some(a) => match limit_reading(login_text) {
            None => Err(limit_refusal("RATE_LIMIT_LOGIN"@)),
            Some(l) => match address_source_reading(present(source)) {
                None => Err("CLIENT_ADDRESS_SOURCE"@ + " must be peer or forwarded-for"@),
                Some(s) => Ok(GateConfig { account: a, login: l, address_source: s }),
            },
        },
    }
}

/// A limit variable that is set decides its limit. When
/// `RATE_LIMIT_ACCOUNT` and `RATE_LIMIT_LOGIN` are set to texts that read as
/// limits and `CLIENT_ADDRESS_SOURCE` can be read, the configuration holds
/// exactly those two limits; a set limit variable that does not read as a
/// limit is refused by its name (the account's first, then the login's).
pub proof fn law_a_set_limit_variable_decides_its_limit(
    account: Option<Seq<char>>,
    login: Option<Seq<char>>,
    source: Option<Seq<char>>,
)
    ensures
        ({
            let r = gate_reading(account, login, source);
            let ta = present(account)->0;
            let tl = present(login)->0;
            let s = address_source_reading(present(source));
            &&& present(account) is Some && limit_reading(ta) is None ==> r == Err::<
                GateConfig,
                Seq<char>,
            >(limit_refusal("RATE_LIMIT_ACCOUNT"@))
            &&& limit_read(account, "5/3600"@) && present(login) is Some && limit_reading(tl) is None
                ==> r == Err::<GateConfig, Seq<char>>(limit_refusal("RATE_LIMIT_LOGIN"@))
            &&& present(account) is Some && present(login) is Some && limit_reading(ta) is Some
                && limit_reading(tl) is Some && s is Some ==> r == Ok::<GateConfig, Seq<char>>(
                GateConfig {
                    account: limit_reading(ta)->0,
                    login: limit_reading(tl)->0,
                    address_source: s->0,
                },
            )
            &&& limit_read(account, "5/3600"@) && present(login) is Some && limit_reading(tl) is Some
                && s is Some ==> r is Ok && r->Ok_0.login == limit_reading(tl)->0
        }),
{
}

/// A limit written as `attempts/seconds` reads back as itself, for every
/// limit with at least one attempt and one second.
pub proof fn law_written_limit_reads_back(attempts: u32, window_secs: u64)
    requires
        attempts > 0,
        window_secs > 0,
    ensures
        limit_reading(decimal_text(attempts as nat) + "/"@ + decimal_text(window_secs as nat))
            == Some(Limit { attempts, window_secs }),
{
    let a = decimal_text(attempts as nat);
    let w = decimal_text(window_secs as nat);
    reveal_strlit("/");
    crate::text::law_decimal_text_reads_back(attempts as nat, u32::MAX as int);
    crate::text::law_decimal_text_reads_back(window_secs as nat, u64::MAX as int);
    let text = a + "/"@ + w;
    assert(text == a + ("/"@ + w));
    assert(text[0] == a[0]);
    assert(text.last() == w.last());
    assert(crate::text::is_ascii_digit(a[0]));
    assert(crate::text::is_ascii_digit(w[w.len() - 1]));
    assert(!crate::text::is_white_space(text[0]));
    assert(!crate::text::is_white_space(text.last()));
    assert(trim(text) == text);
    assert(forall|i: int| 0 <= i < a.len() ==> #[trigger] a[i] != '/') by {
        assert forall|i: int| 0 <= i < a.len() implies #[trigger] a[i] != '/' by {
            if a[i] == '/' {
                crate::text::lemma_find_char_bound(a, '/');
                assert(crate::text::find_char(a, '/') <= i) by {
                    lemma_find_char_at_most(a, '/', i);
                }
            }
        }
    }
    crate::text::lemma_find_char_after(a, "/"@ + w, '/');
    assert(text.take(a.len() as int) == a);
    assert(text.skip(a.len() as int + 1) == w);
}

proof fn lemma_find_char_at_most(s: Seq<char>, c: char, i: int)
    requires
        0 <= i < s.len(),
        s[i] == c,
    ensures
        crate::text::find_char(s, c) <= i,
    decreases s.len(),
{
    if s[0] != c {
        lemma_find_char_at_most(s.drop_first(), c, i - 1);
    }
}

/// The forwarding header is trusted only when the environment names it.
pub proof fn law_forwarding_is_trusted_only_when_named(value: Option<Seq<char>>)
    ensures
        address_source_reading(value) == Some(AddressSource::ForwardedFor) ==> (value matches Some(
            t,
        ) && trim(t) == "forwarded-for"@),
        value is None ==> address_source_reading(value) == Some(AddressSource::Peer),
{
}

/// Whether an executable result carries what the specification says.
pub open spec fn agrees<T>(r: Result<T, String>, expected: Result<T, Seq<char>>) -> bool {
    match r {
        Ok(v) => expected == Ok::<T, Seq<char>>(v),
        Err(message) => expected == Err::<T, Seq<char>>(message@),
    }
}

/// A variable looked up and kept only when it holds more than white space.
pub(crate) fn read_present<F: Fn(&str) -> Option<String>>(lookup: &F, name: &str) -> (r: (
    Option<String>,
    Option<String>,
))
    requires
        forall|n: &str| lookup.requires((n,)),
    ensures
        lookup.ensures((name,), r.0),
        optional_chars(r.1) == present(optional_chars(r.0)),
{
    let found = lookup(name);
    let kept = match &found {
        Some(text) => {
            let t = trim_text(text.as_str());
            if t.len() > 0 {
                Some(text.clone())
            } else {
                None
            }
        },
        None => None,
    };
    (found, kept)
}

impl GateConfig {
    pub const ACCOUNT_DEFAULT: &'static str = "5/3600";

    pub const LOGIN_DEFAULT: &'static str = "10/300";

    /// Reads `RATE_LIMIT_ACCOUNT`, `RATE_LIMIT_LOGIN`, and
    /// `CLIENT_ADDRESS_SOURCE` in that order, each optional, and stops at
    /// the first refused by name because it does not parse: a later
    /// variable is looked up only when the earlier ones were read.
    pub fn from_lookup<F: Fn(&str) -> Option<String>>(lookup: F) -> (r: Result<Self, String>)
        requires
            forall|n: &str| lookup.requires((n,)),
        ensures
            exists|account: Option<String>, login: Option<String>, source: Option<String>|
                #![trigger gate_reading(optional_chars(account), optional_chars(login), optional_chars(source))]
                {
                    &&& lookup.ensures(("RATE_LIMIT_ACCOUNT",), account)
                    &&& limit_read(optional_chars(account), "5/3600"@) ==> lookup.ensures(
                        ("RATE_LIMIT_LOGIN",),
                        login,
                    )
                    &&& limit_read(optional_chars(account), "5/3600"@) && limit_read(
                        optional_chars(login),
                        "10/300"@,
                    ) ==> lookup.ensures(("CLIENT_ADDRESS_SOURCE",), source)
                    &&& agrees(
                        r,
                        gate_reading(
                            optional_chars(account),
                            optional_chars(login),
                            optional_chars(source),
                        ),
                    )
                },
    {
        let (account_found, account) = read_present(&lookup, "RATE_LIMIT_ACCOUNT");
        let account_limit = match &account {
            Some(text) => Limit::parse("RATE_LIMIT_ACCOUNT", text.as_str()),
            None => Limit::parse("RATE_LIMIT_ACCOUNT", Self::ACCOUNT_DEFAULT),
        };
        let account_limit = match account_limit {
            Ok(l) => l,
            Err(message) => {
                let ghost unread: Option<String> = None;
                let ghost expected = gate_reading(
                    optional_chars(account_found),
                    optional_chars(unread),
                    optional_chars(unread),
                );
                assert(agrees(Err::<Self, String>(message), expected));
                assert(!limit_read(optional_chars(account_found), "5/3600"@));
                return Err(message);
            },
        };
        let (login_found, login) = read_present(&lookup, "RATE_LIMIT_LOGIN");
        let login_limit = match &login {
            Some(text) => Limit::parse("RATE_LIMIT_LOGIN", text.as_str()),
            None => Limit::parse("RATE_LIMIT_LOGIN", Self::LOGIN_DEFAULT),
        };
        let login_limit = match login_limit {
            Ok(l) => l,
            Err(message) => {
                let ghost unread: Option<String> = None;
                let ghost expected = gate_reading(
                    optional_chars(account_found),
                    optional_chars(login_found),
                    optional_chars(unread),
                );
                assert(agrees(Err::<Self, String>(message), expected));
                assert(!limit_read(optional_chars(login_found), "10/300"@));
                return Err(message);
            },
        };
        let (source_found, source) = read_present(&lookup, "CLIENT_ADDRESS_SOURCE");
        let ghost expected = gate_reading(
            optional_chars(account_found),
            optional_chars(login_found),
            optional_chars(source_found),
        );
        let address_source = match AddressSource::parse("CLIENT_ADDRESS_SOURCE", source) {
            Ok(s) => s,
            Err(message) => {
                assert(agrees(Err::<Self, String>(message), expected));
                return Err(message);
            },
        };
        let config = GateConfig { account: account_limit, login: login_limit, address_source };
        assert(agrees(Ok::<Self, String>(config), expected));
        Ok(config)
    }

    pub open spec fn spec_limit(self, budget: Budget) -> Limit {
        match budget {
            Budget::Account => self.account,
            Budget::Login => self.login,
        }
    }

    /// The limit a budget draws on.
    pub fn limit(&self, budget: Budget) -> (r: Limit)
        ensures
            r == self.spec_limit(budget),
    {
        match budget {
            Budget::Account => self.account,
            Budget::Login => self.login,
        }
    }
}


/// Whole seconds of a wait, never less than one.
pub open spec fn wait_seconds(wait: u128) -> int {
    let s = wait as int / NANOS_PER_SECOND as int;
    if s < 1 {
        1
    } else {
        s
    }
}

/// The wait, said the way a person would say it: seconds below ninety of
/// them, whole minutes rounded up from there.
pub open spec fn wait_words(wait: u128) -> Seq<char> {
    let s = wait_seconds(wait);
    if s < 90 {
        decimal_text(s as nat) + " วินาที"@
    } else {
        decimal_text(((s + 59) / 60) as nat) + " นาที"@
    }
}

/// The sentence a refused client is shown.
pub open spec fn refusal_words(wait: u128) -> Seq<char> {
    "ลองหลายครั้งติดกันแล้ว กรุณารอ "@ + wait_words(wait) + " แล้วลองใหม่อีกครั้ง"@
}

fn push_wait_words(out: &mut Vec<char>, wait: u128)
    ensures
        final(out)@ == old(out)@ + wait_words(wait),
{
    let seconds = retry_after_seconds(wait);
    if seconds < 90 {
        push_decimal(out, seconds);
        push_str(out, " วินาที");
    } else {
        push_decimal(out, (seconds + 59) / 60);
        push_str(out, " นาที");
    }
}

/// The seconds a refused client is told to wait before retrying.
pub fn retry_after_seconds(wait: u128) -> (r: u128)
    ensures
        r == wait_seconds(wait),
{
    let s = wait / NANOS_PER_SECOND;
    if s < 1 {
        1
    } else {
        s
    }
}

/// The wait, said the way a person would say it.
pub fn wait_text(wait: u128) -> (r: String)
    ensures
        r@ == wait_words(wait),
{
    let mut out: Vec<char> = Vec::new();
    push_wait_words(&mut out, wait);
    string_of(&out)
}

fn push_refusal_words(out: &mut Vec<char>, wait: u128)
    ensures
        final(out)@ == old(out)@ + refusal_words(wait),
{
    push_str(out, "ลองหลายครั้งติดกันแล้ว กรุณารอ ");
    push_wait_words(out, wait);
    push_str(out, " แล้วลองใหม่อีกครั้ง");
}

pub fn refusal_message(wait: u128) -> (r: String)
    ensures
        r@ == refusal_words(wait),
{
    let mut out: Vec<char> = Vec::new();
    push_refusal_words(&mut out, wait);
    string_of(&out)
}

/// Whether an `Accept` header asks for a page a person reads.
pub fn wants_html(accept: Option<String>) -> (r: bool)
    ensures
        r == match optional_chars(accept) {
            Some(text) => contains_text(text, "text/html"@),
            None => false,
        },
{
    match &accept {
        Some(text) => {
            let c = chars_of(text.as_str());
            chars_contain(&c, "text/html")
        },
        None => false,
    }
}

/// What a refused request is answered: a page a browser without scripts can
/// read, or the same sentence in the server-function error encoding that the
/// hydrated form displays where it displays every other message.
pub open spec fn refusal_body_text(wait: u128, html: bool) -> Seq<char> {
    if html {
        "<!DOCTYPE html><html lang=\"th\"><head><meta charset=\"utf-8\"/><meta name=\"viewport\" content=\"width=device-width, initial-scale=1\"/><link rel=\"stylesheet\" href=\"/pkg/dac2.css\"/><title>รอสักครู่</title></head><body><main><section class=\"card recovery-state\"><h1>รอสักครู่</h1><p>"@
            + refusal_words(wait)
            + "</p><p class=\"muted\">ระบบจำกัดจำนวนครั้ง (rate limit) เพื่อกันการสุ่มรหัสผ่านและการส่งอีเมลซ้ำ</p><a class=\"button secondary\" href=\"/\">กลับหน้าแรก</a></section></main></body></html>"@
    } else {
        "ServerError|"@ + refusal_words(wait)
    }
}

pub fn refusal_body(wait: u128, html: bool) -> (r: String)
    ensures
        r@ == refusal_body_text(wait, html),
{
    let mut out: Vec<char> = Vec::new();
    if html {
        push_str(&mut out, "<!DOCTYPE html><html lang=\"th\"><head><meta charset=\"utf-8\"/><meta name=\"viewport\" content=\"width=device-width, initial-scale=1\"/><link rel=\"stylesheet\" href=\"/pkg/dac2.css\"/><title>รอสักครู่</title></head><body><main><section class=\"card recovery-state\"><h1>รอสักครู่</h1><p>");
        push_refusal_words(&mut out, wait);
        push_str(&mut out, "</p><p class=\"muted\">ระบบจำกัดจำนวนครั้ง (rate limit) เพื่อกันการสุ่มรหัสผ่านและการส่งอีเมลซ้ำ</p><a class=\"button secondary\" href=\"/\">กลับหน้าแรก</a></section></main></body></html>");
    } else {
        push_str(&mut out, "ServerError|");
        push_refusal_words(&mut out, wait);
    }
    string_of(&out)
}

/// The paths of the six account doors. The server-function paths come from
/// the functions themselves, so a renamed function cannot slip past the limit.
pub struct AccountDoors {
    pub register: String,
    pub resend_verification: String,
    pub request_password_reset: String,
    pub login: String,
    pub verify_email: String,
    pub reset_password: String,
}

/// The budget a path draws on, if any.
pub open spec fn budget_of(path: Seq<char>, doors: &AccountDoors) -> Option<Budget> {
    if path == doors.register@ || path == doors.resend_verification@ || path
        == doors.request_password_reset@ {
        Some(Budget::Account)
    } else if path == doors.login@ || path == doors.verify_email@ || path
        == doors.reset_password@ || path == "/auth/verify-email"@ {
        Some(Budget::Login)
    } else {
        None
    }
}

pub fn budget_for(path: &str, doors: &AccountDoors) -> (r: Option<Budget>)
    ensures
        r == budget_of(path@, doors),
{
    let p = chars_of(path);
    if chars_are(&p, doors.register.as_str()) || chars_are(&p, doors.resend_verification.as_str())
        || chars_are(&p, doors.request_password_reset.as_str()) {
        Some(Budget::Account)
    } else if chars_are(&p, doors.login.as_str()) || chars_are(&p, doors.verify_email.as_str())
        || chars_are(&p, doors.reset_password.as_str()) || chars_are(&p, "/auth/verify-email") {
        Some(Budget::Login)
    } else {
        None
    }
}

/// The text of the first address a forwarding header names: what comes
/// before its first comma, trimmed.
pub open spec fn first_forwarded(header: Seq<char>) -> Seq<char> {
    match split_once(header, ',') {
        Some((first, _)) => trim(first),
        None => trim(header),
    }
}

pub fn forwarded_client(header: &str) -> (r: String)
    ensures
        r@ == first_forwarded(header@),
{
    let h = chars_of(header);
    let first = match split_once_at(&h, ',') {
        Some((first, _)) => trimmed(&first),
        None => trimmed(&h),
    };
    string_of(&first)
}

/// An internet address as a number: four octets for IPv4, sixteen for IPv6.
#[derive(Clone, Copy, Debug, PartialEq, Eq, Hash, Structural)]
pub struct ClientAddress {
    pub v6: bool,
    pub bits: u128,
}

impl ClientAddress {
    /// `0.0.0.0`, under which a request without a usable address is counted,
    /// so a misconfigured proxy shares one budget instead of none.
    pub open spec fn spec_unspecified() -> Self {
        ClientAddress { v6: false, bits: 0 }
    }

    pub fn unspecified() -> (r: Self)
        ensures
            r == Self::spec_unspecified(),
    {
        ClientAddress { v6: false, bits: 0 }
    }
}

/// The address a request is counted under, by the configured source.
pub open spec fn counted_address(
    source: AddressSource,
    peer: Option<ClientAddress>,
    forwarded: Option<ClientAddress>,
) -> ClientAddress {
    let chosen = match source {
        AddressSource::Peer => peer,
        AddressSource::ForwardedFor => match forwarded {
            Some(a) => Some(a),
            None => peer,
        },
    };
    match chosen {
        Some(a) => a,
        None => ClientAddress::spec_unspecified(),
    }
}

/// `peer` is the connection's address, `forwarded` the first address of the
/// forwarding header when it parses as one.
pub fn client_address(
    source: AddressSource,
    peer: Option<ClientAddress>,
    forwarded: Option<ClientAddress>,
) -> (r: ClientAddress)
    ensures
        r == counted_address(source, peer, forwarded),
{
    let chosen = match source {
        AddressSource::Peer => peer,
        AddressSource::ForwardedFor => match forwarded {
            Some(a) => Some(a),
            None => peer,
        },
    };
    match chosen {
        Some(a) => a,
        None => ClientAddress::unspecified(),
    }
}

} // verus!
