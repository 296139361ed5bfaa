use std::time::Duration;

use adaq_data_stock_us::http::retry::{backoff_for, decide_status, decide_transport, Decision};
use adaq_data_stock_us::http::{next_step, Attempt, Step};
use adaq_data_stock_us::YfError;

fn is_success(status: u16, attempt: u32, retries: u32, retry_401: bool) -> bool {
    matches!(decide_status(status, attempt, retries, retry_401), Decision::Success)
}

#[test]
fn success_on_2xx() {
    assert!(is_success(200, 0, 3, true));
    assert!(is_success(204, 2, 3, true));
    assert!(is_success(299, 0, 0, false));
    assert!(!is_success(199, 0, 3, true));
    assert!(!is_success(300, 0, 3, true));
}

#[test]
fn rate_limited_never_retries() {
    assert!(matches!(
        decide_status(429, 0, 5, true),
        Decision::GiveUp { error: YfError::RateLimited }
    ));
    assert!(matches!(
        decide_status(429, 0, 5, false),
        Decision::GiveUp { error: YfError::RateLimited }
    ));
}

#[test]
fn unauthorized_json_retries_then_gives_up() {
    let d = decide_status(401, 0, 3, true);
    assert!(matches!(d, Decision::Retry { backoff: _, reset_auth: true }));
    if let Decision::Retry { backoff, .. } = d {
        assert_eq!(backoff, backoff_for(1));
    }
    let d = decide_status(401, 3, 3, true);
    assert!(matches!(d, Decision::GiveUp { error: YfError::Msg(_) }));
}

#[test]
fn unauthorized_text_never_retries() {
    assert!(matches!(
        decide_status(401, 0, 5, false),
        Decision::GiveUp { error: YfError::Msg(_) }
    ));
}

#[test]
fn server_error_retries_within_budget() {
    let d = decide_status(503, 1, 3, false);
    assert!(matches!(d, Decision::Retry { backoff: _, reset_auth: false }));
    if let Decision::Retry { backoff, .. } = d {
        assert_eq!(backoff, backoff_for(2));
    }
    let d = decide_status(500, 3, 3, false);
    assert!(matches!(
        d,
        Decision::GiveUp { error: YfError::Status { status: 500, body } } if body.is_empty()
    ));
}

#[test]
fn client_error_gives_up() {
    assert!(matches!(
        decide_status(403, 0, 5, true),
        Decision::GiveUp { error: YfError::Status { status: 403, body } } if body.is_empty()
    ));
    assert!(matches!(
        decide_status(404, 2, 3, false),
        Decision::GiveUp { error: YfError::Status { status: 404, body } } if body.is_empty()
    ));
}

#[test]
fn transport_retries_then_gives_up() {
    let d = decide_transport(YfError::msg("boom"), 0, 3);
    assert!(matches!(d, Decision::Retry { reset_auth: false, .. }));
    let d = decide_transport(YfError::msg("boom"), 3, 3);
    assert!(matches!(d, Decision::GiveUp { .. }));
}

#[test]
fn backoff_grows_exponentially() {
    assert_eq!(backoff_for(0), Duration::from_secs(1));
    assert_eq!(backoff_for(1), Duration::from_secs(2));
    assert_eq!(backoff_for(2), Duration::from_secs(4));
    assert_eq!(backoff_for(3), Duration::from_secs(8));
}

#[test]
fn backoff_saturates() {
    assert_eq!(backoff_for(u32::MAX), Duration::from_secs(u64::MAX));
}

#[test]
fn backoff_saturates_at_sixty_four() {
    assert_eq!(backoff_for(63), Duration::from_secs(1u64 << 63));
    assert_eq!(backoff_for(64), Duration::from_secs(u64::MAX));
}

#[test]
fn next_step_success_keeps_body() {
    let s = next_step(0, 3, true, Attempt::Response { status: 200, body: "{\"ok\":true}".to_string() });
    assert!(matches!(s, Step::Done { body } if body == "{\"ok\":true}"));
}

#[test]
fn next_step_terminal_status_carries_body() {
    let s = next_step(0, 0, true, Attempt::Response { status: 404, body: "{\"error\":\"not found\"}".to_string() });
    match s {
        Step::Fail { error: YfError::Status { status, body } } => {
            assert_eq!(status, 404);
            assert_eq!(body, "{\"error\":\"not found\"}");
        }
        _ => panic!("404 is terminal"),
    }
}

#[test]
fn next_step_retries_5xx_then_stops() {
    let s = next_step(0, 2, true, Attempt::Response { status: 503, body: "try later".to_string() });
    assert!(matches!(s, Step::Retry { attempt: 1, reset_auth: false, .. }));
    let s = next_step(2, 2, true, Attempt::Response { status: 503, body: "try later".to_string() });
    assert!(matches!(s, Step::Fail { error: YfError::Status { status: 503, .. } }));
}

#[test]
fn next_step_401_resets_auth() {
    let s = next_step(0, 1, true, Attempt::Response { status: 401, body: "expired".to_string() });
    match s {
        Step::Retry { attempt, backoff, reset_auth } => {
            assert_eq!(attempt, 1);
            assert!(reset_auth);
            assert_eq!(backoff, Duration::from_secs(2));
        }
        _ => panic!("401 with budget is retried"),
    }
}

#[test]
fn next_step_429_gives_up_immediately() {
    let s = next_step(0, 5, true, Attempt::Response { status: 429, body: "rate limited".to_string() });
    assert!(matches!(s, Step::Fail { error: YfError::RateLimited }));
}

#[test]
fn next_step_transport_error_surfaces_when_budget_spent() {
    let s = next_step(1, 1, true, Attempt::Transport(YfError::Http("boom".to_string())));
    assert!(matches!(s, Step::Fail { error: YfError::Http(m) } if m == "boom"));
}

#[test]
fn error_messages() {
    assert_eq!(YfError::RateLimited.message(), "rate limited by Yahoo (HTTP 429)");
    assert_eq!(
        YfError::Status { status: 404, body: "nope".to_string() }.message(),
        "Yahoo returned HTTP 404: nope"
    );
    assert_eq!(YfError::DataMissing("x".to_string()).message(), "missing data: x");
    assert_eq!(YfError::msg("plain").message(), "plain");
}
