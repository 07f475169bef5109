use web::gate::{
    budget_for, client_address, forwarded_client, refusal_body, refusal_message,
    retry_after_seconds, wait_text, wants_html, AccountDoors, AddressSource, Budget,
    ClientAddress, GateConfig, Limit,
};
use web::limiter::{Decision, Limiter};

const SECOND: u128 = 1_000_000_000;

fn address(last: u8) -> ClientAddress {
    ClientAddress { v6: false, bits: u128::from(u32::from_be_bytes([203, 0, 113, last])) }
}

fn config(account: &str, login: &str) -> GateConfig {
    GateConfig {
        account: Limit::parse("RATE_LIMIT_ACCOUNT", account).unwrap(),
        login: Limit::parse("RATE_LIMIT_LOGIN", login).unwrap(),
        address_source: AddressSource::Peer,
    }
}

fn doors() -> AccountDoors {
    AccountDoors {
        register: "/api/register".to_string(),
        resend_verification: "/api/resend_verification".to_string(),
        request_password_reset: "/api/request_password_reset".to_string(),
        login: "/api/login".to_string(),
        verify_email: "/api/verify_email".to_string(),
        reset_password: "/api/reset_password".to_string(),
    }
}

#[test]
fn a_limit_is_attempts_over_seconds_and_nothing_else() {
    assert_eq!(
        Limit::parse("RATE_LIMIT_LOGIN", " 10 / 300 "),
        Ok(Limit { attempts: 10, window_secs: 300 })
    );
    for bad in ["10", "10/", "/300", "0/300", "10/0", "ten/300", "10/300/1"] {
        assert!(
            Limit::parse("RATE_LIMIT_LOGIN", bad)
                .unwrap_err()
                .starts_with("RATE_LIMIT_LOGIN must be written as attempts/seconds"),
            "{bad}"
        );
    }
}

#[test]
fn defaults_apply_when_nothing_is_set_and_a_bad_value_is_refused_by_name() {
    let config = GateConfig::from_lookup(|_| None).unwrap();
    assert_eq!(config.account, Limit::parse("", "5/3600").unwrap());
    assert_eq!(config.login, Limit::parse("", "10/300").unwrap());
    assert_eq!(config.address_source, AddressSource::Peer);

    let error = GateConfig::from_lookup(|name| {
        if name == "RATE_LIMIT_ACCOUNT" {
            Some("many".to_string())
        } else {
            None
        }
    })
    .unwrap_err();
    assert!(error.starts_with("RATE_LIMIT_ACCOUNT must be written"));

    let error = GateConfig::from_lookup(|name| {
        if name == "CLIENT_ADDRESS_SOURCE" {
            Some("header".to_string())
        } else {
            None
        }
    })
    .unwrap_err();
    assert_eq!(error, "CLIENT_ADDRESS_SOURCE must be peer or forwarded-for");
}

#[test]
fn the_budget_engages_after_the_configured_count_and_releases_after_the_window() {
    let mut limiter = Limiter::new(config("2/60", "3/10"));
    let start: u128 = 1_000 * SECOND;
    let client = address(1);

    for _ in 0..3 {
        assert_eq!(limiter.check(Budget::Login, client, start), Decision::Allowed);
    }
    assert_eq!(
        limiter.check(Budget::Login, client, start + 4 * SECOND),
        Decision::Refused(6 * SECOND)
    );
    // Knocking while refused does not extend the wait.
    assert_eq!(
        limiter.check(Budget::Login, client, start + 5 * SECOND),
        Decision::Refused(5 * SECOND)
    );
    assert_eq!(
        limiter.check(Budget::Login, client, start + 10 * SECOND),
        Decision::Allowed
    );
}

#[test]
fn budgets_and_addresses_are_counted_apart() {
    let mut limiter = Limiter::new(config("1/60", "1/60"));
    let now: u128 = 7 * SECOND;
    assert_eq!(limiter.check(Budget::Account, address(1), now), Decision::Allowed);
    assert!(matches!(
        limiter.check(Budget::Account, address(1), now),
        Decision::Refused(_)
    ));
    assert_eq!(limiter.check(Budget::Login, address(1), now), Decision::Allowed);
    assert_eq!(limiter.check(Budget::Account, address(2), now), Decision::Allowed);
}

#[test]
fn every_account_door_has_a_budget_and_the_rest_of_the_site_has_none() {
    let doors = doors();
    assert_eq!(budget_for("/api/register", &doors), Some(Budget::Account));
    assert_eq!(budget_for("/api/resend_verification", &doors), Some(Budget::Account));
    assert_eq!(budget_for("/api/request_password_reset", &doors), Some(Budget::Account));
    assert_eq!(budget_for("/api/login", &doors), Some(Budget::Login));
    assert_eq!(budget_for("/api/verify_email", &doors), Some(Budget::Login));
    assert_eq!(budget_for("/api/reset_password", &doors), Some(Budget::Login));
    assert_eq!(budget_for("/auth/verify-email", &doors), Some(Budget::Login));
    for open in ["/", "/login", "/register", "/plans", "/plans/3/dashboard", "/pkg/dac2.wasm"] {
        assert_eq!(budget_for(open, &doors), None, "{open}");
    }
}

#[test]
fn the_wait_is_said_in_seconds_or_whole_minutes() {
    assert_eq!(wait_text(0), "1 วินาที");
    assert_eq!(wait_text(45 * SECOND), "45 วินาที");
    assert_eq!(wait_text(90 * SECOND), "2 นาที");
    assert_eq!(wait_text(3600 * SECOND), "60 นาที");
}

#[test]
fn the_address_comes_from_the_peer_unless_the_forwarding_header_is_trusted() {
    let peer = ClientAddress { v6: false, bits: u128::from(u32::from_be_bytes([10, 0, 0, 1])) };
    let client = ClientAddress { v6: false, bits: u128::from(u32::from_be_bytes([198, 51, 100, 7])) };
    assert_eq!(forwarded_client("198.51.100.7, 10.0.0.1"), "198.51.100.7");
    assert_eq!(client_address(AddressSource::Peer, Some(peer), Some(client)), peer);
    assert_eq!(client_address(AddressSource::ForwardedFor, Some(peer), Some(client)), client);
    assert_eq!(
        client_address(AddressSource::ForwardedFor, None, None),
        ClientAddress { v6: false, bits: 0 }
    );
}

#[test]
fn a_forwarding_header_without_a_comma_is_one_address() {
    assert_eq!(forwarded_client("  203.0.113.9 "), "203.0.113.9");
    assert_eq!(forwarded_client(""), "");
}

#[test]
fn the_refusal_names_the_wait_and_says_it_once_per_encoding() {
    let message = refusal_message(300 * SECOND);
    assert_eq!(message, "ลองหลายครั้งติดกันแล้ว กรุณารอ 5 นาที แล้วลองใหม่อีกครั้ง");
    assert_eq!(refusal_body(300 * SECOND, false), format!("ServerError|{message}"));
    let page = refusal_body(300 * SECOND, true);
    assert!(page.starts_with("<!DOCTYPE html><html lang=\"th\">"));
    assert!(page.contains(&format!("<p>{message}</p>")));
    assert!(page.ends_with("</html>"));
    assert_eq!(retry_after_seconds(300 * SECOND), 300);
    assert_eq!(retry_after_seconds(SECOND / 2), 1);
}

#[test]
fn only_a_browser_asking_for_html_gets_the_page() {
    assert!(wants_html(Some("text/html,application/xhtml+xml".to_string())));
    assert!(!wants_html(Some("application/json".to_string())));
    assert!(!wants_html(None));
}

#[test]
fn a_client_whose_attempts_have_left_the_window_is_allowed_again() {
    let mut limiter = Limiter::new(config("1/60", "2/10"));
    let client = address(3);
    assert_eq!(limiter.check(Budget::Account, client, 0), Decision::Allowed);
    assert_eq!(
        limiter.check(Budget::Account, client, 59 * SECOND + SECOND / 2),
        Decision::Refused(SECOND)
    );
    assert_eq!(limiter.check(Budget::Account, client, 60 * SECOND), Decision::Allowed);
}

#[test]
fn forgotten_addresses_are_swept_once_the_map_is_large() {
    let mut limiter = Limiter::new(config("1/60", "1/60"));
    for last in 0..=4096u32 {
        let client = ClientAddress { v6: true, bits: u128::from(last) };
        assert_eq!(limiter.check(Budget::Login, client, 0), Decision::Allowed);
    }
    let old = ClientAddress { v6: true, bits: 7 };
    assert!(matches!(limiter.check(Budget::Login, old, 30 * SECOND), Decision::Refused(_)));
    assert_eq!(limiter.check(Budget::Login, old, 61 * SECOND), Decision::Allowed);
}

#[test]
fn a_request_is_counted_only_at_an_account_door_under_the_configured_address() {
    let mut trusting = config("1/60", "1/60");
    trusting.address_source = AddressSource::ForwardedFor;
    let mut limiter = Limiter::new(trusting);
    let doors = doors();
    let proxy = address(200);
    let client = address(9);
    assert_eq!(limiter.check_request(&doors, "/plans", Some(proxy), Some(client), 0), None);
    assert_eq!(
        limiter.check_request(&doors, "/api/login", Some(proxy), Some(client), 0),
        Some(Decision::Allowed)
    );
    assert!(matches!(
        limiter.check_request(&doors, "/api/login", Some(proxy), Some(client), 0),
        Some(Decision::Refused(_))
    ));
    assert_eq!(
        limiter.check_request(&doors, "/api/login", Some(proxy), Some(address(10)), 0),
        Some(Decision::Allowed)
    );
    assert_eq!(limiter.config().address_source, AddressSource::ForwardedFor);
}

#[test]
fn reading_stops_at_the_first_refused_limit() {
    let asked = std::cell::RefCell::new(Vec::new());
    let result = GateConfig::from_lookup(|name| {
        asked.borrow_mut().push(name.to_string());
        (name == "RATE_LIMIT_ACCOUNT").then_some("five".to_string())
    });
    assert!(result.is_err());
    assert_eq!(*asked.borrow(), vec!["RATE_LIMIT_ACCOUNT".to_string()]);
}

#[test]
fn each_answer_depends_only_on_the_allowed_attempts_still_in_the_window() {
    let mut config = GateConfig::from_lookup(|_| None).unwrap();
    config.login = Limit { attempts: 2, window_secs: 10 };
    let mut limiter = Limiter::new(config);
    let me = address(1);
    assert_eq!(limiter.check(Budget::Login, me, 0), Decision::Allowed);
    assert_eq!(limiter.check(Budget::Login, me, 2 * SECOND), Decision::Allowed);
    // refused for what is left after the oldest allowed attempt
    assert_eq!(limiter.check(Budget::Login, me, 3 * SECOND), Decision::Refused(7 * SECOND));
    // a refused attempt is not remembered: the wait still counts from 0 s
    assert_eq!(limiter.check(Budget::Login, me, 9 * SECOND), Decision::Refused(SECOND));
    // at 10 s the first has left the window; one remains, so one more is allowed
    assert_eq!(limiter.check(Budget::Login, me, 10 * SECOND), Decision::Allowed);
    assert_eq!(limiter.check(Budget::Login, me, 11 * SECOND), Decision::Refused(SECOND));
}
