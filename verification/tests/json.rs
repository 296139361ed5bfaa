use adaq_data_stock_us::dates::get_date;
use adaq_data_stock_us::json::{
    get, get_i64, get_number, get_raw, get_str, get_u64, yf_result, yf_result_first, Json,
    JsonNumber,
};
use adaq_data_stock_us::YfError;

fn to_json(v: &serde_json::Value) -> Json {
    match v {
        serde_json::Value::Null => Json::Null,
        serde_json::Value::Bool(b) => Json::Bool(*b),
        serde_json::Value::Number(n) => {
            if let Some(u) = n.as_u64() {
                Json::Number(JsonNumber::PosInt(u))
            } else if let Some(i) = n.as_i64() {
                Json::Number(JsonNumber::NegInt(i))
            } else {
                let f = n.as_f64().unwrap_or(0.0);
                Json::Number(JsonNumber::Float { bits: f.to_bits(), as_i64: f as i64, as_u64: f as u64 })
            }
        }
        serde_json::Value::String(s) => Json::Str(s.clone()),
        serde_json::Value::Array(a) => Json::Array(a.iter().map(to_json).collect()),
        serde_json::Value::Object(m) => {
            Json::Object(m.iter().map(|(k, v)| (k.clone(), to_json(v))).collect())
        }
    }
}

fn parse(text: &str) -> Json {
    to_json(&serde_json::from_str::<serde_json::Value>(text).expect("test JSON"))
}

fn num_f64(n: &Json) -> Option<f64> {
    match n {
        Json::Number(JsonNumber::PosInt(u)) => Some(*u as f64),
        Json::Number(JsonNumber::NegInt(i)) => Some(*i as f64),
        Json::Number(JsonNumber::Float { bits, .. }) => Some(f64::from_bits(*bits)),
        _ => None,
    }
}

#[test]
fn unwraps_raw_by_default() {
    let v = parse(r#"{"price": {"marketCap": {"raw": 3000000000000.0, "fmt": "3T"}}}"#);
    assert_eq!(get(&v, &["price", "marketCap"]).and_then(num_f64), Some(3_000_000_000_000.0));
    assert_eq!(
        get_number(&v, &["price", "marketCap"]).map(|n| num_f64(&Json::Number(n))),
        Some(Some(3_000_000_000_000.0))
    );
}

#[test]
fn bare_number_no_wrapper() {
    let v = parse(r#"{"strike": 123.0}"#);
    assert_eq!(get(&v, &["strike"]).and_then(num_f64), Some(123.0));
}

#[test]
fn missing_node_is_none() {
    let v = parse(r#"{"a": {"b": 1}}"#);
    assert!(get(&v, &["a", "c"]).is_none());
    assert!(get(&v, &["x"]).is_none());
    assert!(get_str(&v, &["a", "b"]).is_none());
}

#[test]
fn get_raw_returns_wrapper() {
    let v = parse(r#"{"x": {"raw": 5, "fmt": "5"}}"#);
    let w = get_raw(&v, &["x"]).unwrap();
    assert!(w.get_key("raw").is_some());
    assert!(w.get_key("fmt").is_some());
}

#[test]
fn get_str_unwraps_raw() {
    let v = parse(r#"{"name": {"raw": "Apple", "fmt": "Apple"}}"#);
    assert_eq!(get_str(&v, &["name"]).as_deref(), Some("Apple"));
}

#[test]
fn get_i64_and_u64_from_float() {
    let v = parse(r#"{"shares": {"raw": 1500000000.0, "fmt": "1.5B"}}"#);
    assert_eq!(get_i64(&v, &["shares"]), Some(1_500_000_000));
    assert_eq!(get_u64(&v, &["shares"]), Some(1_500_000_000));
}

#[test]
fn yf_result_returns_array() {
    let v = parse(r#"{"finance": {"result": [{"a": 1}]}}"#);
    let r = yf_result(&v, "finance").unwrap();
    assert_eq!(r.as_array().map(|a| a.len()), Some(1));
    let first = yf_result_first(&v, "finance").unwrap();
    assert!(first.get_key("a").is_some());
}

#[test]
fn yf_result_missing_errors() {
    let v = parse(r#"{"other": {}}"#);
    match yf_result(&v, "finance") {
        Err(YfError::DataMissing(m)) => assert_eq!(m, "finance.result missing"),
        _ => panic!("expected DataMissing"),
    }
    let v = parse(r#"{"finance": {"result": []}}"#);
    match yf_result_first(&v, "finance") {
        Err(YfError::DataMissing(m)) => assert_eq!(m, "finance.result[0] missing"),
        _ => panic!("expected DataMissing"),
    }
}

#[test]
fn explicit_raw_segment_lands_on_raw() {
    let v = parse(r#"{"a": {"raw": 7, "fmt": "7"}}"#);
    assert_eq!(get_i64(&v, &["a", "raw"]), get_i64(&v, &["a"]));
    assert_eq!(get_i64(&v, &["a"]), Some(7));
}

#[test]
fn negative_and_huge_integers() {
    let v = parse(r#"{"n": -5, "big": 18446744073709551615}"#);
    assert_eq!(get_i64(&v, &["n"]), Some(-5));
    assert_eq!(get_u64(&v, &["n"]), Some(0));
    assert_eq!(get_i64(&v, &["big"]), Some(i64::MAX));
    assert_eq!(get_u64(&v, &["big"]), Some(u64::MAX));
}

#[test]
fn clone_is_equal_in_shape() {
    let v = parse(r#"{"a": [1, "x", null, true, {"b": 2.5}]}"#);
    let c = v.clone();
    assert_eq!(format!("{:?}", v), format!("{:?}", c));
}

fn ymd(secs: i64) -> String {
    chrono::DateTime::from_timestamp(secs, 0)
        .unwrap()
        .format("%Y-%m-%d")
        .to_string()
}

#[test]
fn get_date_epoch_and_string() {
    let epoch = parse(r#"{"d": {"raw": 1700000000, "fmt": "2023"}}"#);
    let dt = get_date(&epoch, &["d"]).unwrap();
    assert_eq!(ymd(dt), "2023-11-14");
    let s = parse(r#"{"d": {"raw": "2023-01-15", "fmt": "Jan 15, 2023"}}"#);
    let dt = get_date(&s, &["d"]).unwrap();
    assert_eq!(ymd(dt), "2023-01-15");
    assert_eq!(get_date(&parse("{}"), &["d"]), None);
}

#[test]
fn get_date_rejects_malformed_text() {
    let v = parse(r#"{"d": "15/01/2023", "e": 1.9e9, "f": true}"#);
    assert_eq!(get_date(&v, &["d"]), None);
    assert_eq!(get_date(&v, &["e"]), Some(1_900_000_000));
    assert_eq!(get_date(&v, &["f"]), None);
    let midnight = parse(r#"{"d": "1970-01-02"}"#);
    assert_eq!(get_date(&midnight, &["d"]), Some(86_400));
}
