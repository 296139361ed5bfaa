use adaq_data_stock_us::cache::{cached_crumb, crumb_expiry, expiry_from_now, fresh_crumb};
use adaq_data_stock_us::config::Locale;
use adaq_data_stock_us::http::{
    accept_language, crumb_cacheable, crumb_text, json_request_query, login_cookie, login_state,
    next_step, post_request_query, subscription_tier_of, user_of, Attempt, Step,
};
use adaq_data_stock_us::json::{Json, JsonNumber};
use adaq_data_stock_us::YfError;

fn to_json(v: &serde_json::Value) -> Json {
    match v {
        serde_json::Value::Null => Json::Null,
        serde_json::Value::Bool(b) => Json::Bool(*b),
        serde_json::Value::Number(n) => {
            if let Some(u) = n.as_u64() {
                Json::Number(JsonNumber::PosInt(u))
            } else if let Some(i) = n.as_i64() {
                Json::Number(JsonNumber::NegInt(i))
            } else {
                let f = n.as_f64().unwrap_or(0.0);
                Json::Number(JsonNumber::Float { bits: f.to_bits(), as_i64: f as i64, as_u64: f as u64 })
            }
        }
        serde_json::Value::String(s) => Json::Str(s.clone()),
        serde_json::Value::Array(a) => Json::Array(a.iter().map(to_json).collect()),
        serde_json::Value::Object(m) => {
            Json::Object(m.iter().map(|(k, v)| (k.clone(), to_json(v))).collect())
        }
    }
}

fn parse(text: &str) -> Json {
    to_json(&serde_json::from_str::<serde_json::Value>(text).expect("test JSON"))
}

#[test]
fn check_login_true_when_guid_present() {
    let reply = parse(r#"{"result":{"guid":"abc-123"}}"#);
    assert!(login_state(Ok((200, reply))).expect("ok"));
}

#[test]
fn check_login_false_without_guid() {
    let reply = parse(r#"{"result":{}}"#);
    assert!(!login_state(Ok((200, reply))).expect("ok"));
}

#[test]
fn set_login_cookies_reports_validity() {
    assert_eq!(
        login_cookie("T", "TVAL"),
        "T=TVAL; Domain=finance.yahoo.com; Path=/"
    );
    assert_eq!(
        login_cookie("Y", "YVAL"),
        "Y=YVAL; Domain=finance.yahoo.com; Path=/"
    );
    let reply = parse(r#"{"result":{"guid":"user-guid"}}"#);
    assert!(login_state(Ok((200, reply))).expect("ok"));
}

#[test]
fn login_state_of_errors() {
    let null_guid = parse(r#"{"result":{"guid":null}}"#);
    assert!(!login_state(Ok((200, null_guid))).expect("ok"));
    assert!(!login_state(Ok((200, Json::Null))).expect("ok"));
    let forbidden = YfError::Status { status: 403, body: "no".to_string() };
    assert!(!login_state(Err(forbidden)).expect("403 is not logged in"));
    let unauthorized = YfError::Status { status: 401, body: "no".to_string() };
    assert!(!login_state(Err(unauthorized)).expect("401 is not logged in"));
    match login_state(Err(YfError::Status { status: 500, body: "boom".to_string() })) {
        Err(YfError::Status { status: 500, body }) => assert_eq!(body, "boom"),
        other => panic!("unexpected: {other:?}"),
    }
    assert!(matches!(login_state(Err(YfError::RateLimited)), Err(YfError::RateLimited)));
}

#[test]
fn subscription_tiers() {
    let tier = |text: &str| subscription_tier_of(&parse(text));
    assert_eq!(tier(r#"{"result":{}}"#), None);
    assert_eq!(tier(r#"{}"#), None);
    assert_eq!(tier(r#"{"result":{"guid":"g"}}"#).as_deref(), Some("free"));
    assert_eq!(
        tier(r#"{"result":{"guid":"g","subscriptionView":[{"action":"EXPIRED","tier":6}]}}"#).as_deref(),
        Some("free")
    );
    assert_eq!(
        tier(r#"{"result":{"guid":"g","subscriptionView":[{"action":"ACTIVE","tier":6}]}}"#).as_deref(),
        Some("gold")
    );
    assert_eq!(
        tier(r#"{"result":{"guid":"g","subscriptionView":[{"action":"EXPIRED","tier":6},{"action":"ACTIVE","tier":5}]}}"#).as_deref(),
        Some("silver")
    );
    assert_eq!(
        tier(r#"{"result":{"guid":"g","subscriptionView":[{"action":"ACTIVE","tier":3}]}}"#).as_deref(),
        Some("bronze")
    );
    assert_eq!(
        tier(r#"{"result":{"guid":"g","subscriptionView":[{"action":"ACTIVE","tier":9}]}}"#).as_deref(),
        Some("premium")
    );
    assert_eq!(
        tier(r#"{"result":{"guid":"g","subscriptionView":[{"action":"ACTIVE"}]}}"#).as_deref(),
        Some("premium")
    );
}

#[test]
fn user_guid() {
    assert_eq!(user_of(&parse(r#"{"result":{"guid":"abc"}}"#)).as_deref(), Some("abc"));
    assert_eq!(user_of(&parse(r#"{"result":{"guid":7}}"#)), None);
    assert_eq!(user_of(&parse(r#"{"result":{}}"#)), None);
}

#[test]
fn crumb_reply_is_trimmed_and_kept_when_present() {
    assert_eq!(crumb_text("  test-crumb\n"), "test-crumb");
    assert!(crumb_cacheable("test-crumb"));
    assert!(!crumb_cacheable(&crumb_text(" \r\n")));
}

#[test]
fn crumb_cache_expiry() {
    assert_eq!(crumb_expiry(1_000, 60), 1_060);
    let row = Some(("c".to_string(), 1_060));
    assert_eq!(cached_crumb(row.clone(), 1_000).as_deref(), Some("c"));
    assert_eq!(cached_crumb(row, 1_060), None);
    assert_eq!(cached_crumb(None, 0), None);
}

#[test]
fn crumb_cache_against_the_clock() {
    let far = Some(("c".to_string(), i64::MAX));
    assert_eq!(fresh_crumb(far).as_deref(), Some("c"));
    let past = Some(("c".to_string(), 0));
    assert_eq!(fresh_crumb(past), None);
    assert_eq!(fresh_crumb(None), None);
    let e = expiry_from_now(60);
    assert!(e > 1_600_000_000);
    assert_eq!(expiry_from_now(i64::MAX), i64::MAX);
}

fn reply(status: u16, body: &str) -> Attempt {
    Attempt::Response { status, body: body.to_string() }
}

#[test]
fn get_json_parses_and_injects_crumb_locale() {
    let locale = Locale::new();
    let q = json_request_query(&[("interval", "1d".to_string())], "test-crumb", &locale);
    let get = |k: &str| q.iter().find(|(key, _)| key == k).map(|(_, v)| v.clone());
    assert_eq!(get("crumb"), Some("test-crumb".to_string()));
    assert_eq!(get("lang"), Some("en".to_string()));
    assert_eq!(get("region"), Some("US".to_string()));
    assert_eq!(get("interval"), Some("1d".to_string()));
    assert_eq!(accept_language(&locale), "en-US");
    match next_step(0, 0, true, reply(200, r#"{"ok":true}"#)) {
        Step::Done { body } => {
            let v = parse(&body);
            assert!(matches!(v.get_key("ok"), Some(Json::Bool(true))));
        }
        _ => panic!("2xx is done"),
    }
}

#[test]
fn get_json_retries_on_5xx_then_succeeds() {
    let s = next_step(0, 2, true, reply(503, "try later"));
    assert!(matches!(s, Step::Retry { attempt: 1, reset_auth: false, .. }));
    let s = next_step(1, 2, true, reply(503, "try later"));
    assert!(matches!(s, Step::Retry { attempt: 2, reset_auth: false, .. }));
    let s = next_step(2, 2, true, reply(200, r#"{"ok":true}"#));
    assert!(matches!(s, Step::Done { .. }));
}

#[test]
fn get_json_401_retries_with_reset_auth() {
    let s = next_step(0, 2, true, reply(401, "expired"));
    assert!(matches!(s, Step::Retry { attempt: 1, reset_auth: true, .. }));
    let s = next_step(1, 2, true, reply(200, r#"{"ok":true}"#));
    assert!(matches!(s, Step::Done { .. }));
}

#[test]
fn get_json_429_gives_up_immediately() {
    let s = next_step(0, 3, true, reply(429, "rate limited"));
    assert!(matches!(s, Step::Fail { error: YfError::RateLimited }));
}

#[test]
fn get_json_404_gives_up_with_status_body() {
    match next_step(0, 0, true, reply(404, r#"{"error":"not found"}"#)) {
        Step::Fail { error: YfError::Status { status, body } } => {
            assert_eq!(status, 404);
            assert!(body.contains("not found"));
        }
        _ => panic!("404 is terminal"),
    }
}

#[test]
fn get_text_success_without_crumb() {
    match next_step(0, 0, false, reply(200, "<html>hi</html>")) {
        Step::Done { body } => assert_eq!(body, "<html>hi</html>"),
        _ => panic!("2xx is done"),
    }
}

#[test]
fn get_text_401_not_retried() {
    let s = next_step(0, 3, false, reply(401, "forbidden"));
    assert!(matches!(s, Step::Fail { error: YfError::Msg(_) }));
}

#[test]
fn post_json_success() {
    let q = post_request_query(&[], "c1");
    assert_eq!(q, vec![("crumb".to_string(), "c1".to_string())]);
    assert!(post_request_query(&[], "").is_empty());
    match next_step(0, 0, true, reply(200, r#"{"posted":true}"#)) {
        Step::Done { body } => {
            let v = parse(&body);
            assert!(matches!(v.get_key("posted"), Some(Json::Bool(true))));
        }
        _ => panic!("2xx is done"),
    }
}

#[test]
fn post_json_error_propagates() {
    match next_step(0, 0, true, reply(500, "boom")) {
        Step::Fail { error: YfError::Status { status, .. } } => assert_eq!(status, 500),
        _ => panic!("500 without budget is terminal"),
    }
}

#[test]
fn check_login_false_on_401_or_403_reply() {
    let with_guid = r#"{"result":{"guid":"abc"}}"#;
    assert!(!login_state(Ok((401, parse(with_guid)))).expect("ok"));
    assert!(!login_state(Ok((403, parse(with_guid)))).expect("ok"));
    assert!(login_state(Ok((200, parse(with_guid)))).expect("ok"));
}
