//! Mail settings and the letters the service sends: where mail goes, how the
//! connection is secured, and the link each letter carries.

use vstd::prelude::*;
use crate::gate::{present, read_present};
use crate::settings::optional_chars;
use crate::text::{strip_trailing, strip_trailing_chars, chars_are, chars_of, parse_unsigned, parse_unsigned_chars, push_str, string_of, trim, trimmed};

verus! {

/// How the SMTP connection is secured. `Plain` is the local Mailpit path; a
/// relay on the network needs `StartTls`, which also carries a login.
#[derive(Clone, Debug, PartialEq, Eq)]
pub enum SmtpSecurity {
    Plain,
    StartTls { username: String, password: String },
}

/// An `SmtpSecurity` as text.
pub enum SecurityView {
    Plain,
    StartTls { username: Seq<char>, password: Seq<char> },
}

impl View for SmtpSecurity {
    type V = SecurityView;

    open spec fn view(&self) -> SecurityView {
        match self {
            SmtpSecurity::Plain => SecurityView::Plain,
            SmtpSecurity::StartTls { username, password } => SecurityView::StartTls {
                username: username@,
                password: password@,
            },
        }
    }
}

#[derive(Clone, Debug, PartialEq, Eq)]
pub struct MailConfig {
    pub smtp_host: String,
    pub smtp_port: u16,
    pub security: SmtpSecurity,
    pub from: String,
    pub base_url: String,
}

/// A `MailConfig` as text.
pub struct MailSettings {
    pub smtp_host: Seq<char>,
    pub smtp_port: u16,
    pub security: SecurityView,
    pub from: Seq<char>,
    pub base_url: Seq<char>,
}

impl View for MailConfig {
    type V = MailSettings;

    open spec fn view(&self) -> MailSettings {
        MailSettings {
            smtp_host: self.smtp_host@,
            smtp_port: self.smtp_port,
            security: self.security@,
            from: self.from@,
            base_url: self.base_url@,
        }
    }
}

/// A mail configuration that cannot be used, with the sentence that says why.
#[derive(Debug)]
pub struct MailError(String);

impl View for MailError {
    type V = Seq<char>;

    closed spec fn view(&self) -> Seq<char> {
        self.0@
    }
}

impl MailError {
    /// The sentence that says why.
    pub fn to_string(&self) -> (r: String)
        ensures
            r@ == self@,
    {
        self.0.clone()
    }
}

/// The security the variables ask for, or the sentence that refuses them.
pub open spec fn security_reading(
    tls: Option<Seq<char>>,
    username: Option<Seq<char>>,
    password: Option<Seq<char>>,
) -> Result<SecurityView, Seq<char>> {
    match present(tls) {
        None => Ok(SecurityView::Plain),
        Some(mode) => if mode == "off"@ {
            Ok(SecurityView::Plain)
        } else if mode == "starttls"@ {
            match present(username) {
                None => Err("SMTP_TLS=starttls requires SMTP_USERNAME"@),
                Some(u) => match present(password) {
                    None => Err("SMTP_TLS=starttls requires SMTP_PASSWORD"@),
                    Some(p) => Ok(SecurityView::StartTls { username: u, password: p }),
                },
            }
        } else {
            Err("SMTP_TLS must be off or starttls"@)
        },
    }
}

/// Whether `SMTP_TLS` asks for a relay with a login.
pub open spec fn asks_for_login(tls: Option<Seq<char>>) -> bool {
    present(tls) == Some("starttls"@)
}

/// The port the variables ask for: the submission port for a relay, the
/// Mailpit port otherwise, unless `SMTP_PORT` names one.
pub open spec fn port_choice(security: SecurityView, port: Option<Seq<char>>) -> Result<
    u16,
    Seq<char>,
> {
    match present(port) {
        None => match security {
            SecurityView::Plain => Ok(1025u16),
            SecurityView::StartTls { .. } => Ok(587u16),
        },
        Some(text) => match parse_unsigned(trim(text), 65535) {
            Ok(n) => Ok(n as u16),
            Err(_) => Err("SMTP_PORT must be a port number"@),
        },
    }
}

pub open spec fn or_default(value: Option<Seq<char>>, default: Seq<char>) -> Seq<char> {
    match present(value) {
        Some(text) => text,
        None => default,
    }
}

/// The mail settings a set of variables describes, or the sentence that
/// refuses them.
pub open spec fn mail_reading(
    tls: Option<Seq<char>>,
    username: Option<Seq<char>>,
    password: Option<Seq<char>>,
    port: Option<Seq<char>>,
    host: Option<Seq<char>>,
    from: Option<Seq<char>>,
    base_url: Option<Seq<char>>,
) -> Result<MailSettings, Seq<char>> {
    match security_reading(tls, username, password) {
        Err(message) => Err(message),
        Ok(security) => match port_choice(security, port) {
            Err(message) => Err(message),
            Ok(smtp_port) => Ok(
                MailSettings {
                    smtp_host: or_default(host, "127.0.0.1"@),
                    smtp_port,
                    security,
                    from: or_default(from, "DAC2 <no-reply@dac2.local>"@),
                    base_url: or_default(base_url, "http://127.0.0.1:3000"@),
                },
            ),
        },
    }
}

/// Whether an executable result carries the settings or the sentence the
/// specification gives.
pub open spec fn mail_agrees(
    r: Result<MailConfig, MailError>,
    expected: Result<MailSettings, Seq<char>>,
) -> bool {
    match r {
        Ok(config) => expected == Ok::<MailSettings, Seq<char>>(config@),
        Err(error) => expected == Err::<MailSettings, Seq<char>>(error@),
    }
}

fn error_with(message: &str) -> (r: MailError)
    ensures
        r@ == message@,
{
    let c = chars_of(message);
    MailError(string_of(&c))
}

fn kept_or(value: Option<String>, default: &str) -> (r: String)
    ensures
        r@ == match optional_chars(value) {
            Some(text) => text,
            None => default@,
        },
{
    match value {
        Some(text) => text,
        None => {
            let c = chars_of(default);
            string_of(&c)
        },
    }
}

/// The variables a lookup gave, read in order and each only when the ones
/// before it were read, and the result they describe.
pub open spec fn read_in_order<F: Fn(&str) -> Option<String>>(
    lookup: F,
    r: Result<MailConfig, MailError>,
    tls: Option<String>,
    username: Option<String>,
    password: Option<String>,
    port: Option<String>,
    host: Option<String>,
    from: Option<String>,
    base_url: Option<String>,
) -> bool {
    let reading = mail_reading(
        optional_chars(tls),
        optional_chars(username),
        optional_chars(password),
        optional_chars(port),
        optional_chars(host),
        optional_chars(from),
        optional_chars(base_url),
    );
    &&& lookup.ensures(("SMTP_TLS",), tls)
    &&& asks_for_login(optional_chars(tls)) ==> lookup.ensures(("SMTP_USERNAME",), username)
    &&& asks_for_login(optional_chars(tls)) && present(optional_chars(username)) is Some
        ==> lookup.ensures(("SMTP_PASSWORD",), password)
    &&& security_reading(optional_chars(tls), optional_chars(username), optional_chars(password))
        is Ok ==> lookup.ensures(("SMTP_PORT",), port)
    &&& reading is Ok ==> {
        &&& lookup.ensures(("SMTP_HOST",), host)
        &&& lookup.ensures(("MAIL_FROM",), from)
        &&& lookup.ensures(("APP_BASE_URL",), base_url)
    }
    &&& mail_agrees(r, reading)
}

impl MailConfig {
    /// Reads the mail configuration from any source of variables. `SMTP_TLS`
    /// unset or `off` keeps the plaintext Mailpit path; `starttls` requires
    /// `SMTP_USERNAME` and `SMTP_PASSWORD`. Any other value is refused so a
    /// typo cannot silently send credentials in the clear. Variables are
    /// looked up in that order, each only when the ones before it were read.
    #[verifier::spinoff_prover]
    pub fn from_lookup<F: Fn(&str) -> Option<String>>(lookup: F) -> (r: Result<Self, MailError>)
        requires
            forall|n: &str| lookup.requires((n,)),
        ensures
            exists|
                tls: Option<String>,
                username: Option<String>,
                password: Option<String>,
                port: Option<String>,
                host: Option<String>,
                from: Option<String>,
                base_url: Option<String>,
            |
                #[trigger] read_in_order(lookup, r, tls, username, password, port, host, from, base_url),
    {
        let ghost unread: Option<String> = None;
        let ghost mut user_g: Option<String> = None;
        let ghost mut pass_g: Option<String> = None;
        let (tls_found, tls) = read_present(&lookup, "SMTP_TLS");
        let security = match &tls {
            None => {
                assert(!asks_for_login(optional_chars(tls_found)));
                SmtpSecurity::Plain
            },
            Some(mode) => {
                let m = chars_of(mode.as_str());
                if chars_are(&m, "off") {
                    proof {
                        reveal_strlit("off");
                        reveal_strlit("starttls");
                    }
                    assert(!asks_for_login(optional_chars(tls_found)));
                    SmtpSecurity::Plain
                } else if chars_are(&m, "starttls") {
                    let (username_found, username) = read_present(&lookup, "SMTP_USERNAME");
                    proof {
                        user_g = username_found;
                    }
                    match username {
                        None => {
                            let e = error_with("SMTP_TLS=starttls requires SMTP_USERNAME");
                            assert(read_in_order(lookup, Err(e), tls_found, user_g, unread, unread, unread, unread, unread));
                            return Err(e);
                        },
                        Some(username) => {
                            let (password_found, password) = read_present(&lookup, "SMTP_PASSWORD");
                            proof {
                                pass_g = password_found;
                            }
                            match password {
                                None => {
                                    let e = error_with("SMTP_TLS=starttls requires SMTP_PASSWORD");
                                    assert(read_in_order(lookup, Err(e), tls_found, user_g, pass_g, unread, unread, unread, unread));
                                    return Err(e);
                                },
                                Some(password) => {
                                    assert(asks_for_login(optional_chars(tls_found)));
                                    SmtpSecurity::StartTls { username, password }
                                },
                            }
                        },
                    }
                } else {
                    let e = error_with("SMTP_TLS must be off or starttls");
                    assert(read_in_order(lookup, Err(e), tls_found, unread, unread, unread, unread, unread, unread));
                    return Err(e);
                }
            },
        };
        assert(security_reading(
            optional_chars(tls_found),
            optional_chars(user_g),
            optional_chars(pass_g),
        ) == Ok::<SecurityView, Seq<char>>(security@));
        assert(asks_for_login(optional_chars(tls_found)) ==> lookup.ensures(("SMTP_USERNAME",), user_g));
        assert(asks_for_login(optional_chars(tls_found)) && present(optional_chars(user_g)) is Some
            ==> lookup.ensures(("SMTP_PASSWORD",), pass_g));
        let (port_found, port) = read_present(&lookup, "SMTP_PORT");
        let smtp_port: u16 = match &port {
            None => match &security {
                SmtpSecurity::Plain => 1025,
                SmtpSecurity::StartTls { .. } => 587,
            },
            Some(text) => {
                let t = chars_of(text.as_str());
                let t = trimmed(&t);
                match parse_unsigned_chars(&t, 65535) {
                    Ok(n) => n as u16,
                    Err(_) => {
                        let e = error_with("SMTP_PORT must be a port number");
                        assert(read_in_order(lookup, Err(e), tls_found, user_g, pass_g, port_found, unread, unread, unread));
                        return Err(e);
                    },
                }
            },
        };
        let (host_found, host) = read_present(&lookup, "SMTP_HOST");
        let (from_found, from) = read_present(&lookup, "MAIL_FROM");
        let (base_found, base_url) = read_present(&lookup, "APP_BASE_URL");
        let ghost expected = mail_reading(
            optional_chars(tls_found),
            optional_chars(user_g),
            optional_chars(pass_g),
            optional_chars(port_found),
            optional_chars(host_found),
            optional_chars(from_found),
            optional_chars(base_found),
        );
        let config = MailConfig {
            smtp_host: kept_or(host, "127.0.0.1"),
            smtp_port,
            security,
            from: kept_or(from, "DAC2 <no-reply@dac2.local>"),
            base_url: kept_or(base_url, "http://127.0.0.1:3000"),
        };
        assert(mail_agrees(Ok(config), expected));
        assert(read_in_order(lookup, Ok(config), tls_found, user_g, pass_g, port_found, host_found, from_found, base_found));
        Ok(config)
    }
}

/// The address a letter links to: the base address without its trailing
/// slashes, the path, and the token.
pub open spec fn link_text(base_url: Seq<char>, path: Seq<char>, token: Seq<char>) -> Seq<char> {
    strip_trailing(base_url, '/') + "/"@ + path + "?token="@ + token
}

/// A base address written with a trailing slash links to the same place.
pub proof fn law_trailing_slash_links_alike(base_url: Seq<char>, path: Seq<char>, token: Seq<char>)
    ensures
        link_text(base_url.push('/'), path, token) == link_text(base_url, path, token),
{
    crate::text::law_strip_trailing_absorbs(base_url, '/');
}

/// The connection is plaintext only when `SMTP_TLS` is unset, blank or
/// `off`, so a typo never sends credentials in the clear; a relay always
/// carries a login.
pub proof fn law_plaintext_only_when_asked(
    tls: Option<Seq<char>>,
    username: Option<Seq<char>>,
    password: Option<Seq<char>>,
    port: Option<Seq<char>>,
    host: Option<Seq<char>>,
    from: Option<Seq<char>>,
    base_url: Option<Seq<char>>,
)
    ensures
        mail_reading(tls, username, password, port, host, from, base_url) matches Ok(settings)
            ==> match settings.security {
            SecurityView::Plain => present(tls) is None || present(tls) == Some("off"@),
            SecurityView::StartTls { username: u, password: p } => present(tls) == Some(
                "starttls"@,
            ) && present(username) == Some(u) && present(password) == Some(p),
        },
{
}

/// One of the letters the service sends.
#[derive(Clone, Copy, Debug, PartialEq, Eq, Structural)]
pub enum Letter {
    Verification,
    PasswordReset,
}

impl Letter {
    pub open spec fn spec_subject(self) -> Seq<char> {
        match self {
            Letter::Verification => "ยืนยันอีเมล DAC2"@,
            Letter::PasswordReset => "ตั้งรหัสผ่าน DAC2 ใหม่"@,
        }
    }

    pub open spec fn spec_path(self) -> Seq<char> {
        match self {
            Letter::Verification => "auth/verify-email"@,
            Letter::PasswordReset => "reset-password"@,
        }
    }

    pub open spec fn spec_instruction(self) -> Seq<char> {
        match self {
            Letter::Verification => "กดลิงก์นี้เพื่อยืนยันอีเมล"@,
            Letter::PasswordReset => "กดลิงก์นี้เพื่อตั้งรหัสผ่านใหม่"@,
        }
    }

    pub fn subject(&self) -> (r: String)
        ensures
            r@ == self.spec_subject(),
    {
        let c = match self {
            Letter::Verification => chars_of("ยืนยันอีเมล DAC2"),
            Letter::PasswordReset => chars_of("ตั้งรหัสผ่าน DAC2 ใหม่"),
        };
        string_of(&c)
    }

    pub fn path(&self) -> (r: &'static str)
        ensures
            r@ == self.spec_path(),
    {
        match self {
            Letter::Verification => "auth/verify-email",
            Letter::PasswordReset => "reset-password",
        }
    }

    pub fn instruction(&self) -> (r: &'static str)
        ensures
            r@ == self.spec_instruction(),
    {
        match self {
            Letter::Verification => "กดลิงก์นี้เพื่อยืนยันอีเมล",
            Letter::PasswordReset => "กดลิงก์นี้เพื่อตั้งรหัสผ่านใหม่",
        }
    }
}

/// The body of a letter: the instruction, a blank line, the link.
pub open spec fn body_text(instruction: Seq<char>, link: Seq<char>) -> Seq<char> {
    instruction + "\n\n"@ + link + "\n"@
}

impl MailConfig {
    /// The link a letter carries, for one path and token.
    pub fn link(&self, path: &str, token: &str) -> (r: String)
        ensures
            r@ == link_text(self.base_url@, path@, token@),
    {
        let base = chars_of(self.base_url.as_str());
        let mut out = strip_trailing_chars(&base, '/');
        push_str(&mut out, "/");
        push_str(&mut out, path);
        push_str(&mut out, "?token=");
        push_str(&mut out, token);
        string_of(&out)
    }

    /// The subject and body of a letter carrying one token.
    pub fn compose(&self, letter: Letter, token: &str) -> (r: (String, String))
        ensures
            r.0@ == letter.spec_subject(),
            r.1@ == body_text(
                letter.spec_instruction(),
                link_text(self.base_url@, letter.spec_path(), token@),
            ),
    {
        let link = self.link(letter.path(), token);
        let mut body = chars_of(letter.instruction());
        push_str(&mut body, "\n\n");
        push_str(&mut body, link.as_str());
        push_str(&mut body, "\n");
        (letter.subject(), string_of(&body))
    }
}

} // verus!
