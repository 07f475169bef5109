use web::settings::{flag, port};

#[test]
fn an_unset_or_blank_flag_is_off() {
    assert_eq!(flag("COOKIE_SECURE", None), Ok(false));
    assert_eq!(flag("COOKIE_SECURE", Some("  ".into())), Ok(false));
}

#[test]
fn only_the_words_true_and_false_are_accepted() {
    assert_eq!(flag("COOKIE_SECURE", Some("true".into())), Ok(true));
    assert_eq!(flag("COOKIE_SECURE", Some(" false ".into())), Ok(false));
    assert_eq!(
        flag("COOKIE_SECURE", Some("yes".into())),
        Err("COOKIE_SECURE must be true or false".into())
    );
}

#[test]
fn a_host_port_is_a_number_or_absent() {
    assert_eq!(port(None), Ok(None));
    assert_eq!(port(Some("10000".into())), Ok(Some(10000)));
    assert!(port(Some("http".into())).is_err());
}

#[test]
fn a_port_refusal_carries_the_reason_the_number_was_refused() {
    assert_eq!(port(Some(" 8080 ".into())), Ok(Some(8080)));
    assert_eq!(port(Some("   ".into())), Ok(None));
    assert_eq!(port(Some("+80".into())), Ok(Some(80)));
    assert_eq!(
        port(Some("http".into())),
        Err("PORT must be a port number: invalid digit found in string".into())
    );
    assert_eq!(
        port(Some("65536".into())),
        Err("PORT must be a port number: number too large to fit in target type".into())
    );
    assert_eq!(
        port(Some("-1".into())),
        Err("PORT must be a port number: invalid digit found in string".into())
    );
}
