use base64::Engine;

use adaq_data_stock_us::json::{Json, JsonNumber};
use adaq_data_stock_us::live::{
    decode_frame, heartbeat_due, on_frame, subscribe_message, FrameAction, LiveWebSocket,
    StreamEvent, STREAM_URL,
};
use adaq_data_stock_us::YfError;

fn to_json(v: &serde_json::Value) -> Json {
    match v {
        serde_json::Value::Null => Json::Null,
        serde_json::Value::Bool(b) => Json::Bool(*b),
        serde_json::Value::Number(n) => {
            if let Some(u) = n.as_u64() {
                Json::Number(JsonNumber::PosInt(u))
            } else if let Some(i) = n.as_i64() {
                Json::Number(JsonNumber::NegInt(i))
            } else {
                let f = n.as_f64().unwrap_or(0.0);
                Json::Number(JsonNumber::Float { bits: f.to_bits(), as_i64: f as i64, as_u64: f as u64 })
            }
        }
        serde_json::Value::String(s) => Json::Str(s.clone()),
        serde_json::Value::Array(a) => Json::Array(a.iter().map(to_json).collect()),
        serde_json::Value::Object(m) => {
            Json::Object(m.iter().map(|(k, v)| (k.clone(), to_json(v))).collect())
        }
    }
}

fn parse(text: &str) -> Json {
    to_json(&serde_json::from_str::<serde_json::Value>(text).expect("test JSON"))
}

#[test]
fn decodes_base64_frames() {
    let payload: Vec<u8> = vec![10, 4, b'A', b'A', b'P', b'L'];
    let b64 = base64::engine::general_purpose::STANDARD.encode(&payload);
    assert_eq!(decode_frame(&b64).unwrap(), payload);
    assert_eq!(decode_frame(&format!("  {}\n", b64)).unwrap(), payload);
    match decode_frame("not base64!") {
        Err(YfError::Msg(m)) => assert!(m.starts_with("invalid base64: ")),
        _ => panic!("expected an invalid-base64 error"),
    }
}

#[test]
fn frames_decide_actions() {
    let text = parse(r#"{"type": "pricing", "message": "QUFQTA=="}"#);
    match on_frame(&StreamEvent::Text(Some(text))) {
        FrameAction::Deliver(b) => assert_eq!(b, b"AAPL".to_vec()),
        _ => panic!("expected a delivered frame"),
    }
    let bad = parse(r#"{"message": "%%%"}"#);
    assert!(matches!(on_frame(&StreamEvent::Text(Some(bad))), FrameAction::Invalid(_)));
    let other = parse(r#"{"status": "ok"}"#);
    assert!(matches!(on_frame(&StreamEvent::Text(Some(other))), FrameAction::Ignore));
    assert!(matches!(on_frame(&StreamEvent::Text(None)), FrameAction::Ignore));
    assert!(matches!(on_frame(&StreamEvent::Ping), FrameAction::Ignore));
    assert!(matches!(on_frame(&StreamEvent::Close), FrameAction::Stop));
}

#[test]
fn subscription_message_lists_symbols() {
    let m = subscribe_message(&["AAPL", "MSFT"]);
    match m.get_key("subscribe") {
        Some(Json::Array(items)) => {
            assert_eq!(items.len(), 2);
            assert_eq!(items[1].as_str(), Some("MSFT"));
        }
        _ => panic!("expected the symbol list"),
    }
}

#[test]
fn heartbeat_every_fifteen_seconds() {
    assert!(!heartbeat_due(14));
    assert!(heartbeat_due(15));
    assert!(heartbeat_due(60));
}

#[test]
fn client_settings() {
    let w = LiveWebSocket::new();
    assert_eq!(w.url(), STREAM_URL);
    assert!(!w.is_verbose());
    let w = w.verbose(true);
    assert!(w.is_verbose());
    assert_eq!(LiveWebSocket::default().url(), "wss://streamer.finance.yahoo.com/?version=2");
}
