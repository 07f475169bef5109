use web::mail::{Letter, MailConfig, SmtpSecurity};

fn lookup(pairs: &[(&str, &str)]) -> impl Fn(&str) -> Option<String> {
    let pairs: Vec<(String, String)> = pairs
        .iter()
        .map(|(name, value)| (name.to_string(), value.to_string()))
        .collect();
    move |name| {
        pairs
            .iter()
            .find(|(candidate, _)| candidate == name)
            .map(|(_, value)| value.clone())
    }
}

#[test]
fn links_use_the_configured_local_base_without_logging() {
    let config = MailConfig {
        smtp_host: "127.0.0.1".into(),
        smtp_port: 1025,
        security: SmtpSecurity::Plain,
        from: "DAC2 <no-reply@dac2.local>".into(),
        base_url: "http://127.0.0.1:3000/".into(),
    };
    assert_eq!(
        config.link("auth/verify-email", "secret-token"),
        "http://127.0.0.1:3000/auth/verify-email?token=secret-token"
    );
}

#[test]
fn unset_mail_variables_keep_the_local_plaintext_path() {
    let config = MailConfig::from_lookup(lookup(&[])).expect("defaults are valid");
    assert_eq!(config.smtp_host, "127.0.0.1");
    assert_eq!(config.smtp_port, 1025);
    assert_eq!(config.security, SmtpSecurity::Plain);
    assert_eq!(config.base_url, "http://127.0.0.1:3000");
}

#[test]
fn starttls_carries_the_login_and_defaults_to_submission_port() {
    let config = MailConfig::from_lookup(lookup(&[
        ("SMTP_TLS", "starttls"),
        ("SMTP_HOST", "smtp-relay.example"),
        ("SMTP_USERNAME", "login"),
        ("SMTP_PASSWORD", "secret"),
    ]))
    .expect("a complete STARTTLS configuration is valid");
    assert_eq!(config.smtp_port, 587);
    assert_eq!(
        config.security,
        SmtpSecurity::StartTls {
            username: "login".into(),
            password: "secret".into(),
        }
    );
}

#[test]
fn starttls_without_a_login_is_refused_by_name() {
    let error = MailConfig::from_lookup(lookup(&[
        ("SMTP_TLS", "starttls"),
        ("SMTP_USERNAME", "login"),
    ]))
    .expect_err("a missing password is a configuration error");
    assert_eq!(error.to_string(), "SMTP_TLS=starttls requires SMTP_PASSWORD");
}

#[test]
fn an_unknown_tls_mode_is_refused_rather_than_sent_in_the_clear() {
    let error = MailConfig::from_lookup(lookup(&[("SMTP_TLS", "tls")]))
        .expect_err("only off and starttls are modes");
    assert_eq!(error.to_string(), "SMTP_TLS must be off or starttls");
}

#[test]
fn a_port_that_is_not_a_number_is_refused() {
    let error = MailConfig::from_lookup(lookup(&[("SMTP_PORT", "five")]))
        .expect_err("a port must parse");
    assert_eq!(error.to_string(), "SMTP_PORT must be a port number");
}

#[test]
fn a_named_port_and_sender_replace_the_defaults_and_blank_values_do_not() {
    let config = MailConfig::from_lookup(lookup(&[
        ("SMTP_PORT", " 2525 "),
        ("MAIL_FROM", "Farm <farm@example.test>"),
        ("SMTP_HOST", "   "),
        ("SMTP_TLS", "off"),
    ]))
    .expect("valid");
    assert_eq!(config.smtp_port, 2525);
    assert_eq!(config.from, "Farm <farm@example.test>");
    assert_eq!(config.smtp_host, "127.0.0.1");
    assert_eq!(config.security, SmtpSecurity::Plain);
    let error = MailConfig::from_lookup(lookup(&[("SMTP_TLS", "starttls")])).expect_err("no login");
    assert_eq!(error.to_string(), "SMTP_TLS=starttls requires SMTP_USERNAME");
}

#[test]
fn each_letter_carries_its_own_subject_path_and_instruction() {
    let config = MailConfig::from_lookup(lookup(&[("APP_BASE_URL", "https://farm.example//")]))
        .expect("valid");
    let (subject, body) = config.compose(Letter::Verification, "abc");
    assert_eq!(subject, "ยืนยันอีเมล DAC2");
    assert_eq!(
        body,
        "กดลิงก์นี้เพื่อยืนยันอีเมล\n\nhttps://farm.example/auth/verify-email?token=abc\n"
    );
    let (subject, body) = config.compose(Letter::PasswordReset, "xyz");
    assert_eq!(subject, "ตั้งรหัสผ่าน DAC2 ใหม่");
    assert_eq!(
        body,
        "กดลิงก์นี้เพื่อตั้งรหัสผ่านใหม่\n\nhttps://farm.example/reset-password?token=xyz\n"
    );
}

#[test]
fn mail_variables_are_read_only_as_far_as_needed() {
    let asked = std::cell::RefCell::new(Vec::new());
    let result = MailConfig::from_lookup(|name| {
        asked.borrow_mut().push(name.to_string());
        match name {
            "SMTP_TLS" => Some("starttls".to_string()),
            _ => None,
        }
    });
    assert!(result.is_err());
    assert_eq!(*asked.borrow(), vec!["SMTP_TLS".to_string(), "SMTP_USERNAME".to_string()]);
    asked.borrow_mut().clear();
    let config = MailConfig::from_lookup(|name| {
        asked.borrow_mut().push(name.to_string());
        None
    });
    assert!(config.is_ok());
    assert_eq!(
        *asked.borrow(),
        ["SMTP_TLS", "SMTP_PORT", "SMTP_HOST", "MAIL_FROM", "APP_BASE_URL"]
            .iter()
            .map(|n| n.to_string())
            .collect::<Vec<_>>()
    );
}
