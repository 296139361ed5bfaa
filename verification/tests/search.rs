use adaq_data_stock_us::json::{Json, JsonNumber};
use adaq_data_stock_us::search::{search_news, search_params, search_quote_item, search_quotes};

fn to_json(v: &serde_json::Value) -> Json {
    match v {
        serde_json::Value::Null => Json::Null,
        serde_json::Value::Bool(b) => Json::Bool(*b),
        serde_json::Value::Number(n) => {
            if let Some(u) = n.as_u64() {
                Json::Number(JsonNumber::PosInt(u))
            } else if let Some(i) = n.as_i64() {
                Json::Number(JsonNumber::NegInt(i))
            } else {
                let f = n.as_f64().unwrap_or(0.0);
                Json::Number(JsonNumber::Float { bits: f.to_bits(), as_i64: f as i64, as_u64: f as u64 })
            }
        }
        serde_json::Value::String(s) => Json::Str(s.clone()),
        serde_json::Value::Array(a) => Json::Array(a.iter().map(to_json).collect()),
        serde_json::Value::Object(m) => {
            Json::Object(m.iter().map(|(k, v)| (k.clone(), to_json(v))).collect())
        }
    }
}

fn parse(text: &str) -> Json {
    to_json(&serde_json::from_str::<serde_json::Value>(text).expect("test JSON"))
}

fn as_f64(n: Option<JsonNumber>) -> Option<f64> {
    match n {
        Some(JsonNumber::PosInt(u)) => Some(u as f64),
        Some(JsonNumber::NegInt(i)) => Some(i as f64),
        Some(JsonNumber::Float { bits, .. }) => Some(f64::from_bits(bits)),
        None => None,
    }
}

#[test]
fn search_quotes_read_like_records() {
    let v = parse(
        r#"{"quotes": [
            {"symbol": "AAPL", "shortname": "Apple Inc.", "longname": "Apple Inc.", "exchDisp": "NASDAQ", "typeDisp": "Equity", "score": 31337.5},
            {"symbol": 7},
            {"symbol": "MSFT", "score": "high"},
            ["US0378331005", null, null, "NASDAQ", "Equity", 12],
            ["too", "short"],
            {"symbol": "IBM", "extra": [1, 2]}
        ]}"#,
    );
    let qs = search_quotes(&v);
    assert_eq!(qs.len(), 3);
    assert_eq!(qs[0].symbol.as_deref(), Some("AAPL"));
    assert_eq!(qs[0].short_name.as_deref(), Some("Apple Inc."));
    assert_eq!(qs[0].exchange.as_deref(), Some("NASDAQ"));
    assert_eq!(qs[0].quote_type.as_deref(), Some("Equity"));
    assert_eq!(as_f64(qs[0].score.clone()), Some(31337.5));
    assert_eq!(qs[1].symbol.as_deref(), Some("US0378331005"));
    assert_eq!(qs[1].short_name, None);
    assert_eq!(as_f64(qs[1].score.clone()), Some(12.0));
    assert_eq!(qs[2].symbol.as_deref(), Some("IBM"));
    assert_eq!(qs[2].score.clone().map(|_| ()), None);
}

#[test]
fn search_quote_field_kinds() {
    assert!(search_quote_item(&parse(r#"{"longname": false}"#)).is_none());
    assert!(search_quote_item(&parse(r#""AAPL""#)).is_none());
    let q = search_quote_item(&parse(r#"{"typeDisp": null, "score": null}"#)).unwrap();
    assert_eq!(q.quote_type, None);
    assert!(q.score.is_none());
    assert!(search_quotes(&parse(r#"{"quotes": {}}"#)).is_empty());
}

#[test]
fn search_request_and_news() {
    let p = search_params("apple", 1, 0);
    assert_eq!(p[0], ("q".to_string(), "apple".to_string()));
    assert_eq!(p[1], ("quotesCount".to_string(), "1".to_string()));
    assert_eq!(p[2], ("newsCount".to_string(), "0".to_string()));
    let v = parse(r#"{"news": [{"uuid": "u", "title": "T"}, {"title": 3}]}"#);
    let ns = search_news(&v);
    assert_eq!(ns.len(), 1);
    assert_eq!(ns[0].title.as_deref(), Some("T"));
}
