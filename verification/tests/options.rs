use adaq_data_stock_us::json::{Json, JsonNumber};
use adaq_data_stock_us::options::{
    chain_options, chain_strikes, expiration_dates, expiration_of_entry, last_trade_date, option_chain_result,
    option_chain_url, parse_contract, parse_contracts,
};
use adaq_data_stock_us::YfError;

fn to_json(v: &serde_json::Value) -> Json {
    match v {
        serde_json::Value::Null => Json::Null,
        serde_json::Value::Bool(b) => Json::Bool(*b),
        serde_json::Value::Number(n) => {
            if let Some(u) = n.as_u64() {
                Json::Number(JsonNumber::PosInt(u))
            } else if let Some(i) = n.as_i64() {
                Json::Number(JsonNumber::NegInt(i))
            } else {
                let f = n.as_f64().unwrap_or(0.0);
                Json::Number(JsonNumber::Float { bits: f.to_bits(), as_i64: f as i64, as_u64: f as u64 })
            }
        }
        serde_json::Value::String(s) => Json::Str(s.clone()),
        serde_json::Value::Array(a) => Json::Array(a.iter().map(to_json).collect()),
        serde_json::Value::Object(m) => {
            Json::Object(m.iter().map(|(k, v)| (k.clone(), to_json(v))).collect())
        }
    }
}

fn parse(text: &str) -> Json {
    to_json(&serde_json::from_str::<serde_json::Value>(text).expect("test JSON"))
}

fn as_f64(n: Option<JsonNumber>) -> Option<f64> {
    match n {
        Some(JsonNumber::PosInt(u)) => Some(u as f64),
        Some(JsonNumber::NegInt(i)) => Some(i as f64),
        Some(JsonNumber::Float { bits, .. }) => Some(f64::from_bits(bits)),
        None => None,
    }
}

#[test]
fn chain_request_and_result() {
    assert_eq!(
        option_chain_url("AAPL"),
        "https://query2.finance.yahoo.com/v7/finance/options/AAPL"
    );
    let v = parse(r#"{"optionChain": {"result": [{"underlyingSymbol": "AAPL"}]}}"#);
    let r = option_chain_result(&v, "AAPL").expect("result present");
    assert_eq!(r.get_key("underlyingSymbol").and_then(|s| s.as_str()), Some("AAPL"));
    match option_chain_result(&parse(r#"{"optionChain": {"result": []}}"#), "ZZZ") {
        Err(YfError::DataMissing(m)) => assert_eq!(m, "optionChain.result for ZZZ"),
        other => panic!("unexpected: {other:?}"),
    }
}

#[test]
fn expirations_are_utc_dates() {
    let r = parse(r#"{"expirationDates": [1700000000, "x", 1700092800, 86399]}"#);
    assert_eq!(
        expiration_dates(&r),
        vec!["2023-11-14".to_string(), "2023-11-16".to_string(), "1970-01-01".to_string()]
    );
    assert!(expiration_dates(&parse("{}")).is_empty());
    assert_eq!(expiration_of_entry(&parse(r#"{"expirationDate": 0}"#)), "1970-01-01");
    assert_eq!(expiration_of_entry(&parse(r#"{"calls": []}"#)), "");
}

#[test]
fn contract_fields() {
    let c = parse(
        r#"{"contractSymbol": "AAPL231117C00150000", "strike": 150.0, "lastPrice": 39.5,
            "volume": 12, "inTheMoney": true, "lastTradeDate": 1700000000, "currency": "USD"}"#,
    );
    let f = parse_contract(&c);
    assert_eq!(f.contract_symbol.as_deref(), Some("AAPL231117C00150000"));
    assert_eq!(as_f64(f.strike), Some(150.0));
    assert_eq!(as_f64(f.last_price), Some(39.5));
    assert_eq!(as_f64(f.volume), Some(12.0));
    assert_eq!(as_f64(f.bid), None);
    assert_eq!(f.in_the_money, Some(true));
    assert_eq!(f.currency.as_deref(), Some("USD"));
    assert_eq!(f.last_trade_date.as_deref(), Some("2023-11-14 22:13:20"));
    assert_eq!(last_trade_date(&parse(r#"{"lastTradeDate": "soon"}"#)), None);
}

#[test]
fn contracts_of_an_expiration() {
    let o = parse(r#"{"calls": [{"strike": 1}, {"strike": 2}], "puts": 5}"#);
    let calls = parse_contracts(&o, "calls");
    assert_eq!(calls.len(), 2);
    assert_eq!(as_f64(calls[1].strike.clone()), Some(2.0));
    assert!(parse_contracts(&o, "puts").is_empty());
}

#[test]
fn strikes_are_the_numbers() {
    let r = parse(r#"{"strikes": [100, 102.5, "105", null, -1]}"#);
    let s: Vec<Option<f64>> = chain_strikes(&r).into_iter().map(|n| as_f64(Some(n))).collect();
    assert_eq!(s, vec![Some(100.0), Some(102.5), Some(-1.0)]);
    assert!(chain_strikes(&parse("{}")).is_empty());
}

#[test]
fn every_expiration_entry_is_read_in_order() {
    let r = parse(
        r#"{"options": [
            {"expirationDate": 1718928000, "calls": [{"strike": 190}], "puts": [{"strike": 180}, {"strike": 185}]},
            {"calls": [], "puts": []}
        ]}"#,
    );
    let xs = chain_options(&r);
    assert_eq!(xs.len(), 2);
    assert_eq!(xs[0].expiration, "2024-06-21");
    assert_eq!(xs[0].calls.len(), 1);
    assert_eq!(as_f64(xs[0].calls[0].strike.clone()), Some(190.0));
    assert_eq!(xs[0].puts.len(), 2);
    assert_eq!(as_f64(xs[0].puts[1].strike.clone()), Some(185.0));
    assert_eq!(xs[1].expiration, "");
    assert!(xs[1].calls.is_empty() && xs[1].puts.is_empty());
    assert!(chain_options(&parse("{}")).is_empty());
    assert!(chain_options(&parse(r#"{"options": 3}"#)).is_empty());
}
