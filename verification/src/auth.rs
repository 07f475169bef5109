//! What the account doors answer. Public responses never say whether an
//! account exists, and only the planning pages ask for a signed-in owner.

use vstd::prelude::*;
use crate::text::{chars_are, chars_of, chars_start_with, starts_with, strip_trailing, strip_trailing_chars};

verus! {

pub const REGISTRATION_ACCEPTED: &'static str = "หากอีเมลนี้สมัครได้ ระบบได้ส่งลิงก์ยืนยันไปให้แล้ว";

pub const RESEND_ACCEPTED: &'static str = "หากบัญชีนี้ยังรอยืนยัน ระบบได้ส่งลิงก์ยืนยันฉบับใหม่ไปให้แล้ว";

pub const RESET_REQUEST_ACCEPTED: &'static str = "หากมีบัญชีที่ใช้อีเมลนี้ ระบบได้ส่งลิงก์ตั้งรหัสผ่านใหม่ไปให้แล้ว";

pub const LOGIN_FAILED: &'static str = "อีเมลหรือรหัสผ่านไม่ถูกต้อง หรือบัญชียังไม่ได้ยืนยัน";

/// The one sentence every unexpected failure is reported with, so the
/// reply never says what went wrong inside.
pub const PUBLIC_SERVER_ERROR: &'static str = "ระบบยังทำรายการไม่ได้ กรุณาลองอีกครั้ง";

/// Why the account store refused an operation.
#[derive(Clone, Copy, Debug, PartialEq, Eq, Structural)]
pub enum StoreError {
    NotFound,
    Closed,
    DuplicateSeasonYear,
    InvalidValue,
    DuplicateEmail,
    InvalidEmail,
    InvalidPassword,
    InvalidToken,
    /// Any other failure: the database, a connection, a query.
    Unavailable,
}

/// What a registration is answered, by what the store made of it. A new
/// account and an address already registered get the same answer, so the
/// answer never tells a stranger whether an account exists.
pub open spec fn spec_registration_reply(outcome: Result<(), StoreError>) -> Result<
    &'static str,
    &'static str,
> {
    match outcome {
        Ok(()) => Ok(REGISTRATION_ACCEPTED),
        Err(StoreError::DuplicateEmail) => Ok(REGISTRATION_ACCEPTED),
        Err(StoreError::InvalidEmail) => Err("กรุณากรอกอีเมลให้ถูกต้อง"),
        Err(StoreError::InvalidPassword) => Err("รหัสผ่านต้องมีอย่างน้อย 15 ตัวอักษร"),
        Err(_) => Err(PUBLIC_SERVER_ERROR),
    }
}

pub fn registration_reply(outcome: Result<(), StoreError>) -> (r: Result<
    &'static str,
    &'static str,
>)
    ensures
        r == spec_registration_reply(outcome),
{
    match outcome {
        Ok(()) => Ok(REGISTRATION_ACCEPTED),
        Err(StoreError::DuplicateEmail) => Ok(REGISTRATION_ACCEPTED),
        Err(StoreError::InvalidEmail) => Err("กรุณากรอกอีเมลให้ถูกต้อง"),
        Err(StoreError::InvalidPassword) => Err("รหัสผ่านต้องมีอย่างน้อย 15 ตัวอักษร"),
        Err(_) => Err(PUBLIC_SERVER_ERROR),
    }
}

/// A new account and a duplicate registration are answered alike.
pub proof fn law_registration_does_not_reveal_an_account()
    ensures
        spec_registration_reply(Ok(())) == spec_registration_reply(
            Err(StoreError::DuplicateEmail),
        ),
{
}

/// What opening a verification link is answered.
pub open spec fn spec_verification_reply(outcome: Result<(), StoreError>) -> Result<
    &'static str,
    &'static str,
> {
    match outcome {
        Ok(()) => Ok("ยืนยันอีเมลเรียบร้อยแล้ว เข้าสู่ระบบได้เลย"),
        Err(StoreError::InvalidToken) => Err("ลิงก์ยืนยันไม่ถูกต้อง หมดอายุ หรือถูกใช้ไปแล้ว"),
        Err(_) => Err(PUBLIC_SERVER_ERROR),
    }
}

pub fn verification_reply(outcome: Result<(), StoreError>) -> (r: Result<
    &'static str,
    &'static str,
>)
    ensures
        r == spec_verification_reply(outcome),
{
    match outcome {
        Ok(()) => Ok("ยืนยันอีเมลเรียบร้อยแล้ว เข้าสู่ระบบได้เลย"),
        Err(StoreError::InvalidToken) => Err("ลิงก์ยืนยันไม่ถูกต้อง หมดอายุ หรือถูกใช้ไปแล้ว"),
        Err(_) => Err(PUBLIC_SERVER_ERROR),
    }
}

/// Where the link in a verification letter leads, by whether its token was
/// accepted.
pub fn verification_link_destination(accepted: bool) -> (r: &'static str)
    ensures
        r == (if accepted {
            "/login?verified=1"
        } else {
            "/verify-email?invalid=1"
        }),
{
    if accepted {
        "/login?verified=1"
    } else {
        "/verify-email?invalid=1"
    }
}

/// What a password reset is answered.
pub open spec fn spec_reset_reply(outcome: Result<(), StoreError>) -> Result<
    &'static str,
    &'static str,
> {
    match outcome {
        Ok(()) => Ok("ตั้งรหัสผ่านใหม่เรียบร้อยแล้ว กรุณาเข้าสู่ระบบอีกครั้ง"),
        Err(StoreError::InvalidPassword) => Err("รหัสผ่านต้องมีอย่างน้อย 15 ตัวอักษร"),
        Err(StoreError::InvalidToken) => Err("ลิงก์ตั้งรหัสผ่านไม่ถูกต้อง หมดอายุ หรือถูกใช้ไปแล้ว"),
        Err(_) => Err(PUBLIC_SERVER_ERROR),
    }
}

pub fn reset_reply(outcome: Result<(), StoreError>) -> (r: Result<&'static str, &'static str>)
    ensures
        r == spec_reset_reply(outcome),
{
    match outcome {
        Ok(()) => Ok("ตั้งรหัสผ่านใหม่เรียบร้อยแล้ว กรุณาเข้าสู่ระบบอีกครั้ง"),
        Err(StoreError::InvalidPassword) => Err("รหัสผ่านต้องมีอย่างน้อย 15 ตัวอักษร"),
        Err(StoreError::InvalidToken) => Err("ลิงก์ตั้งรหัสผ่านไม่ถูกต้อง หมดอายุ หรือถูกใช้ไปแล้ว"),
        Err(_) => Err(PUBLIC_SERVER_ERROR),
    }
}

/// What a sign-in is answered: whether the credentials were accepted, or
/// that the session could not be established. Every kind of rejection,
/// an unknown address, a wrong password, an unverified account, is one.
pub open spec fn spec_login_reply(outcome: Result<bool, ()>) -> Result<&'static str, &'static str> {
    match outcome {
        Ok(true) => Ok("เข้าสู่ระบบแล้ว"),
        Ok(false) => Err(LOGIN_FAILED),
        Err(()) => Err(PUBLIC_SERVER_ERROR),
    }
}

pub fn login_reply(outcome: Result<bool, ()>) -> (r: Result<&'static str, &'static str>)
    ensures
        r == spec_login_reply(outcome),
{
    match outcome {
        Ok(true) => Ok("เข้าสู่ระบบแล้ว"),
        Ok(false) => Err(LOGIN_FAILED),
        Err(()) => Err(PUBLIC_SERVER_ERROR),
    }
}

/// Whether asking for a new verification letter sends one: only to an
/// account found and still waiting to be verified. The reply is the same
/// whether or not a letter is sent.
pub open spec fn spec_resend_sends(found_verified: Option<bool>) -> bool {
    found_verified == Some(false)
}

pub fn resend_sends(found_verified: Option<bool>) -> (r: bool)
    ensures
        r == spec_resend_sends(found_verified),
{
    match found_verified {
        Some(verified) => !verified,
        None => false,
    }
}

/// Whether asking to reset a password sends a letter: only to an account
/// found and already verified. The reply is the same whether or not a
/// letter is sent.
pub open spec fn spec_reset_request_sends(found_verified: Option<bool>) -> bool {
    found_verified == Some(true)
}

pub fn reset_request_sends(found_verified: Option<bool>) -> (r: bool)
    ensures
        r == spec_reset_request_sends(found_verified),
{
    match found_verified {
        Some(verified) => verified,
        None => false,
    }
}

/// Whether a request is sent to the login page instead of being served: a
/// planning page asked for by someone not signed in.
pub open spec fn sends_to_login(path: Seq<char>, signed_in: bool) -> bool {
    starts_with(path, "/plans"@) && !signed_in
}

pub fn requires_login(path: &str, signed_in: bool) -> (r: bool)
    ensures
        r == sends_to_login(path@, signed_in),
{
    let p = chars_of(path);
    chars_start_with(&p, "/plans") && !signed_in
}


/// Whether an address is the entry screen, which hides the shared header:
/// the root or the login page, trailing slashes aside.
pub open spec fn is_entry_path(path: Seq<char>) -> bool {
    let p = strip_trailing(path, '/');
    p.len() == 0 || p == "/login"@
}

pub fn entry_path(path: &str) -> (r: bool)
    ensures
        r == is_entry_path(path@),
{
    let p = chars_of(path);
    let p = strip_trailing_chars(&p, '/');
    p.len() == 0 || chars_are(&p, "/login")
}

} // verus!
