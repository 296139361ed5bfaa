use adaq_data_stock_us::config::Locale;
use adaq_data_stock_us::earnings::{
    earnings_dates_body, earnings_dates_params, earnings_dates_url, earnings_rows,
    parse_earnings_row, EARNINGS_LIMIT_MAX,
};
use adaq_data_stock_us::json::{Json, JsonNumber};
use adaq_data_stock_us::YfError;

fn to_json(v: &serde_json::Value) -> Json {
    match v {
        serde_json::Value::Null => Json::Null,
        serde_json::Value::Bool(b) => Json::Bool(*b),
        serde_json::Value::Number(n) => {
            if let Some(u) = n.as_u64() {
                Json::Number(JsonNumber::PosInt(u))
            } else if let Some(i) = n.as_i64() {
                Json::Number(JsonNumber::NegInt(i))
            } else {
                let f = n.as_f64().unwrap_or(0.0);
                Json::Number(JsonNumber::Float { bits: f.to_bits(), as_i64: f as i64, as_u64: f as u64 })
            }
        }
        serde_json::Value::String(s) => Json::Str(s.clone()),
        serde_json::Value::Array(a) => Json::Array(a.iter().map(to_json).collect()),
        serde_json::Value::Object(m) => {
            Json::Object(m.iter().map(|(k, v)| (k.clone(), to_json(v))).collect())
        }
    }
}

fn parse(text: &str) -> Json {
    to_json(&serde_json::from_str::<serde_json::Value>(text).expect("test JSON"))
}

fn as_f64(n: Option<JsonNumber>) -> Option<f64> {
    match n {
        Some(JsonNumber::PosInt(u)) => Some(u as f64),
        Some(JsonNumber::NegInt(i)) => Some(i as f64),
        Some(JsonNumber::Float { bits, .. }) => Some(f64::from_bits(bits)),
        None => None,
    }
}

#[test]
fn parses_visualization_rows() {
    let row = parse(
        r#"{
        "Event Start Date": "2025-10-30T00:00:00.000Z",
        "Timezone short name": "EDT",
        "EPS Estimate": 2.97,
        "Reported EPS": 2.9,
        "Surprise (%)": -2.36,
        "Event Type": "1"
    }"#,
    );
    let e = parse_earnings_row(&row);
    assert_eq!(e.start.as_deref(), Some("2025-10-30T00:00:00.000Z"));
    assert_eq!(as_f64(e.eps_estimate), Some(2.97));
    assert_eq!(as_f64(e.eps_actual), Some(2.9));
    assert_eq!(as_f64(e.surprise_pct), Some(-2.36));
    assert_eq!(e.event_type.as_deref(), Some("1"));
}

#[test]
fn earnings_request_caps_limit() {
    assert_eq!(EARNINGS_LIMIT_MAX, 100);
    match earnings_dates_body("AAPL", 101) {
        Err(YfError::Msg(m)) => assert_eq!(m, "Yahoo caps limit at 100"),
        other => panic!("unexpected: {other:?}"),
    }
    let body = earnings_dates_body("AAPL", 4).expect("within the cap");
    let size = body.get_key("size").and_then(|s| s.as_u64());
    assert_eq!(size, Some(4));
    let operands = body
        .get_key("query")
        .and_then(|q| q.get_key("operands"))
        .and_then(|o| o.as_array())
        .map(|a| a.iter().filter_map(|x| x.as_str().map(String::from)).collect::<Vec<_>>());
    assert_eq!(operands, Some(vec!["ticker".to_string(), "AAPL".to_string()]));
}

#[test]
fn earnings_request_target() {
    assert_eq!(
        earnings_dates_url(),
        "https://query1.finance.yahoo.com/v1/finance/visualization"
    );
    let p = earnings_dates_params(&Locale::new());
    assert_eq!(
        p,
        vec![
            ("lang".to_string(), "en".to_string()),
            ("region".to_string(), "US".to_string())
        ]
    );
}

#[test]
fn earnings_rows_of_first_document() {
    let v = parse(
        r#"{"finance": {"result": [{"documents": [{"rows": [{"Event Type": "2"}, {"Event Type": "1"}]}]}]}}"#,
    );
    let rows = earnings_rows(&v, "AAPL").expect("document present");
    assert_eq!(rows.len(), 2);
    assert_eq!(parse_earnings_row(&rows[1]).event_type.as_deref(), Some("1"));
    let no_rows = parse(r#"{"finance": {"result": [{"documents": [{}]}]}}"#);
    assert!(earnings_rows(&no_rows, "AAPL").expect("document present").is_empty());
}

#[test]
fn earnings_rows_missing_document() {
    let v = parse(r#"{"finance": {"result": [{"documents": []}]}}"#);
    match earnings_rows(&v, "MSFT") {
        Err(YfError::DataMissing(m)) => assert_eq!(m, "earnings dates missing for MSFT"),
        other => panic!("unexpected: {other:?}"),
    }
}
