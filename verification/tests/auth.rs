use web::auth::{
    entry_path, login_reply, registration_reply, requires_login, resend_sends, reset_reply,
    reset_request_sends, verification_link_destination, verification_reply, StoreError,
    LOGIN_FAILED, PUBLIC_SERVER_ERROR, REGISTRATION_ACCEPTED, RESEND_ACCEPTED,
    RESET_REQUEST_ACCEPTED,
};

#[test]
fn public_account_responses_do_not_encode_account_existence() {
    let successful_registration = REGISTRATION_ACCEPTED;
    let duplicate_registration = REGISTRATION_ACCEPTED;
    assert_eq!(successful_registration, duplicate_registration);

    let known_reset_address = RESET_REQUEST_ACCEPTED;
    let unknown_reset_address = RESET_REQUEST_ACCEPTED;
    assert_eq!(known_reset_address, unknown_reset_address);

    let known_resend_address = RESEND_ACCEPTED;
    let unknown_resend_address = RESEND_ACCEPTED;
    assert_eq!(known_resend_address, unknown_resend_address);
}

#[test]
fn login_failure_does_not_distinguish_failure_kind() {
    let unknown_account = LOGIN_FAILED;
    let wrong_password = LOGIN_FAILED;
    let unverified_account = LOGIN_FAILED;
    assert_eq!(unknown_account, wrong_password);
    assert_eq!(wrong_password, unverified_account);
}

#[test]
fn only_planning_pages_need_a_signed_in_owner() {
    assert!(requires_login("/plans", false));
    assert!(requires_login("/plans/42/dashboard", false));
    assert!(!requires_login("/plans/42", true));
    assert!(!requires_login("/login", false));
    assert!(!requires_login("/", false));
}

#[test]
fn the_entry_screen_is_the_root_and_the_login_page() {
    assert!(entry_path("/"));
    assert!(entry_path(""));
    assert!(entry_path("/login"));
    assert!(entry_path("/login/"));
    assert!(!entry_path("/register"));
    assert!(!entry_path("/plans"));
}

#[test]
fn a_duplicate_registration_is_answered_like_a_new_one() {
    assert_eq!(registration_reply(Ok(())), Ok(REGISTRATION_ACCEPTED));
    assert_eq!(
        registration_reply(Err(StoreError::DuplicateEmail)),
        registration_reply(Ok(()))
    );
    assert_eq!(
        registration_reply(Err(StoreError::InvalidEmail)),
        Err("กรุณากรอกอีเมลให้ถูกต้อง")
    );
    assert_eq!(
        registration_reply(Err(StoreError::InvalidPassword)),
        Err("รหัสผ่านต้องมีอย่างน้อย 15 ตัวอักษร")
    );
    assert_eq!(
        registration_reply(Err(StoreError::Unavailable)),
        Err(PUBLIC_SERVER_ERROR)
    );
}

#[test]
fn verification_and_reset_replies_name_a_bad_token() {
    assert_eq!(
        verification_reply(Ok(())),
        Ok("ยืนยันอีเมลเรียบร้อยแล้ว เข้าสู่ระบบได้เลย")
    );
    assert_eq!(
        verification_reply(Err(StoreError::InvalidToken)),
        Err("ลิงก์ยืนยันไม่ถูกต้อง หมดอายุ หรือถูกใช้ไปแล้ว")
    );
    assert_eq!(
        verification_reply(Err(StoreError::NotFound)),
        Err(PUBLIC_SERVER_ERROR)
    );
    assert_eq!(
        reset_reply(Ok(())),
        Ok("ตั้งรหัสผ่านใหม่เรียบร้อยแล้ว กรุณาเข้าสู่ระบบอีกครั้ง")
    );
    assert_eq!(
        reset_reply(Err(StoreError::InvalidToken)),
        Err("ลิงก์ตั้งรหัสผ่านไม่ถูกต้อง หมดอายุ หรือถูกใช้ไปแล้ว")
    );
    assert_eq!(
        reset_reply(Err(StoreError::InvalidPassword)),
        Err("รหัสผ่านต้องมีอย่างน้อย 15 ตัวอักษร")
    );
    assert_eq!(reset_reply(Err(StoreError::Closed)), Err(PUBLIC_SERVER_ERROR));
}

#[test]
fn a_verification_link_leads_to_login_or_back() {
    assert_eq!(verification_link_destination(true), "/login?verified=1");
    assert_eq!(verification_link_destination(false), "/verify-email?invalid=1");
}

#[test]
fn every_rejected_sign_in_gets_one_answer() {
    assert_eq!(login_reply(Ok(true)), Ok("เข้าสู่ระบบแล้ว"));
    assert_eq!(login_reply(Ok(false)), Err(LOGIN_FAILED));
    assert_eq!(login_reply(Err(())), Err(PUBLIC_SERVER_ERROR));
}

#[test]
fn letters_go_only_to_accounts_in_the_right_state() {
    assert!(resend_sends(Some(false)));
    assert!(!resend_sends(Some(true)));
    assert!(!resend_sends(None));
    assert!(reset_request_sends(Some(true)));
    assert!(!reset_request_sends(Some(false)));
    assert!(!reset_request_sends(None));
}
