use adaq_data_stock_us::json::{Json, JsonNumber};
use adaq_data_stock_us::shares::{
    shares_params, shares_series, shares_url, shares_window_start, SHARES_WINDOW_SECS,
};

fn to_json(v: &serde_json::Value) -> Json {
    match v {
        serde_json::Value::Null => Json::Null,
        serde_json::Value::Bool(b) => Json::Bool(*b),
        serde_json::Value::Number(n) => {
            if let Some(u) = n.as_u64() {
                Json::Number(JsonNumber::PosInt(u))
            } else if let Some(i) = n.as_i64() {
                Json::Number(JsonNumber::NegInt(i))
            } else {
                let f = n.as_f64().unwrap_or(0.0);
                Json::Number(JsonNumber::Float { bits: f.to_bits(), as_i64: f as i64, as_u64: f as u64 })
            }
        }
        serde_json::Value::String(s) => Json::Str(s.clone()),
        serde_json::Value::Array(a) => Json::Array(a.iter().map(to_json).collect()),
        serde_json::Value::Object(m) => {
            Json::Object(m.iter().map(|(k, v)| (k.clone(), to_json(v))).collect())
        }
    }
}

fn parse(text: &str) -> Json {
    to_json(&serde_json::from_str::<serde_json::Value>(text).expect("test JSON"))
}

fn as_f64(n: Option<JsonNumber>) -> Option<f64> {
    match n {
        Some(JsonNumber::PosInt(u)) => Some(u as f64),
        Some(JsonNumber::NegInt(i)) => Some(i as f64),
        Some(JsonNumber::Float { bits, .. }) => Some(f64::from_bits(bits)),
        None => None,
    }
}

#[test]
fn shares_request() {
    assert_eq!(
        shares_url("AAPL"),
        "https://query2.finance.yahoo.com/ws/fundamentals-timeseries/v1/finance/timeseries/AAPL"
    );
    assert_eq!(SHARES_WINDOW_SECS, 548 * 86_400);
    assert_eq!(shares_window_start(1_700_000_000), 1_700_000_000 - 47_347_200);
    assert_eq!(
        shares_params("AAPL", -5, 1_700_000_000),
        vec![
            ("symbol".to_string(), "AAPL".to_string()),
            ("period1".to_string(), "-5".to_string()),
            ("period2".to_string(), "1700000000".to_string()),
        ]
    );
}

#[test]
fn shares_series_sorted_by_date() {
    let v = parse(
        r#"{"timeseries": {"result": [{"shares_out": [
            {"timestamp": 300, "value": 15.5e9},
            {"timestamp": 100, "value": 16000000000},
            {"timestamp": "soon", "value": 1},
            {"timestamp": 200},
            {"timestamp": 300, "value": 15.4e9},
            {"timestamp": 100.5, "value": 1},
            {"timestamp": 50, "value": "n/a"},
            {"timestamp": 200, "value": 15.9e9}
        ]}]}}"#,
    );
    let s = shares_series(&v);
    let got: Vec<(i64, Option<f64>)> = s.iter().map(|(t, n)| (*t, as_f64(Some(n.clone())))).collect();
    assert_eq!(
        got,
        vec![
            (100, Some(16.0e9)),
            (200, Some(15.9e9)),
            (300, Some(15.5e9)),
            (300, Some(15.4e9)),
        ]
    );
}

#[test]
fn shares_series_missing() {
    assert!(shares_series(&parse(r#"{"timeseries": {"result": []}}"#)).is_empty());
    assert!(shares_series(&parse(r#"{"timeseries": {"result": [{}]}}"#)).is_empty());
    assert!(shares_series(&parse("{}")).is_empty());
}
