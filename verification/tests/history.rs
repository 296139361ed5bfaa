use adaq_data_stock_us::history::{
    bar_rows, chart_error, chart_events, chart_result, chart_series, chart_timestamps, meta_text, chart_url, history_params, metadata_params, ts_i64,
    HistoryOptions, Interval,
};
use adaq_data_stock_us::json::{Json, JsonNumber};
use adaq_data_stock_us::YfError;

fn to_json(v: &serde_json::Value) -> Json {
    match v {
        serde_json::Value::Null => Json::Null,
        serde_json::Value::Bool(b) => Json::Bool(*b),
        serde_json::Value::Number(n) => {
            if let Some(u) = n.as_u64() {
                Json::Number(JsonNumber::PosInt(u))
            } else if let Some(i) = n.as_i64() {
                Json::Number(JsonNumber::NegInt(i))
            } else {
                let f = n.as_f64().unwrap_or(0.0);
                Json::Number(JsonNumber::Float { bits: f.to_bits(), as_i64: f as i64, as_u64: f as u64 })
            }
        }
        serde_json::Value::String(s) => Json::Str(s.clone()),
        serde_json::Value::Array(a) => Json::Array(a.iter().map(to_json).collect()),
        serde_json::Value::Object(m) => {
            Json::Object(m.iter().map(|(k, v)| (k.clone(), to_json(v))).collect())
        }
    }
}

fn as_f64(n: Option<JsonNumber>) -> Option<f64> {
    match n {
        Some(JsonNumber::PosInt(u)) => Some(u as f64),
        Some(JsonNumber::NegInt(i)) => Some(i as f64),
        Some(JsonNumber::Float { bits, .. }) => Some(f64::from_bits(bits)),
        None => None,
    }
}

fn parse(text: &str) -> Json {
    to_json(&serde_json::from_str::<serde_json::Value>(text).expect("test JSON"))
}

fn param<'a>(p: &'a [(String, String)], k: &str) -> Option<&'a str> {
    p.iter().find(|(a, _)| a == k).map(|(_, b)| b.as_str())
}

#[test]
fn interval_wire_names() {
    assert_eq!(Interval::Min90.as_str(), "90m");
    assert_eq!(Interval::Week1.as_str(), "1wk");
    assert_eq!(Interval::Month3.as_str(), "3mo");
}

#[test]
fn default_options() {
    let o = HistoryOptions::default();
    assert_eq!(o.period, "1mo");
    assert_eq!(o.interval, Interval::Day1);
    assert!(o.auto_adjust && !o.back_adjust && !o.prepost && !o.actions && !o.keepna && !o.repair);
}

#[test]
fn params_use_range_or_bounds() {
    let o = HistoryOptions::default();
    let p = history_params(&o);
    assert_eq!(param(&p, "interval"), Some("1d"));
    assert_eq!(param(&p, "includePrePost"), Some("false"));
    assert_eq!(param(&p, "events"), Some("div,split,capitalGains"));
    assert_eq!(param(&p, "range"), Some("1mo"));
    assert_eq!(param(&p, "period1"), None);
    let mut o = HistoryOptions::default();
    o.start = Some(1_600_000_000);
    o.end = Some(-5);
    let p = history_params(&o);
    assert_eq!(param(&p, "period1"), Some("1600000000"));
    assert_eq!(param(&p, "period2"), Some("-5"));
    assert_eq!(param(&p, "range"), None);
    let mut o = HistoryOptions::default();
    o.start = Some(1);
    assert_eq!(param(&history_params(&o), "range"), Some("1mo"));
    assert_eq!(param(&metadata_params(), "range"), Some("1d"));
    assert_eq!(chart_url("AAPL"), "https://query2.finance.yahoo.com/v8/finance/chart/AAPL");
}

#[test]
fn chart_errors_name_the_ticker() {
    let v = parse(r#"{"chart": {"error": {"description": "No data found"}}}"#);
    match chart_error(&v, "ZZZZ") {
        Some(YfError::TickerMissing(m)) => assert_eq!(m, "ZZZZ: No data found"),
        _ => panic!("expected TickerMissing"),
    }
    assert!(chart_error(&parse(r#"{"chart": {"error": {"description": ""}}}"#), "X").is_none());
    assert!(chart_error(&parse(r#"{"chart": {"error": null}}"#), "X").is_none());
}

#[test]
fn timestamps_skip_non_integers() {
    let r = parse(r#"{"timestamp": [1700000000, null, 1700086400, 1.5]}"#);
    let ts = chart_timestamps(&r);
    assert_eq!(ts, vec![1_700_000_000, 1_700_086_400]);
    assert_eq!(ts_i64(&ts, 1), 1_700_086_400);
    assert_eq!(ts_i64(&ts, 5), 0);
    assert!(chart_timestamps(&parse("{}")).is_empty());
}

const CHART: &str = r#"{"chart": {"result": [{
    "meta": {"currency": "USD", "exchangeName": "NMS", "firstTradeDate": 345479400, "regularMarketPrice": 190.5},
    "timestamp": [1600000000, 1600086400],
    "indicators": {
        "quote": [{"open": [10.0, null], "close": [11, 12.5], "volume": [1000, 2000]}],
        "adjclose": [{"adjclose": [10.5, 12.0]}]
    },
    "events": {
        "dividends": {},
        "div": {"1600000000": {"date": 1600000000, "amount": 0.2}, "x": {"amount": 1.0}},
        "split": {"1600086400": {"date": 1600086400, "numerator": 4, "denominator": 1}, "y": {"date": 5, "numerator": "4"}}
    }
}], "error": null}}"#;

#[test]
fn chart_price_series_as_sent() {
    let v = parse(CHART);
    let r = chart_result(&v).expect("result present");
    let open: Vec<Option<f64>> = chart_series(r, "quote", "open").into_iter().map(as_f64).collect();
    assert_eq!(open, vec![Some(10.0), None]);
    let close: Vec<Option<f64>> = chart_series(r, "quote", "close").into_iter().map(as_f64).collect();
    assert_eq!(close, vec![Some(11.0), Some(12.5)]);
    let adj: Vec<Option<f64>> = chart_series(r, "adjclose", "adjclose").into_iter().map(as_f64).collect();
    assert_eq!(adj, vec![Some(10.5), Some(12.0)]);
    assert!(chart_series(r, "quote", "high").is_empty());
    assert!(chart_series(r, "missing", "open").is_empty());
}

#[test]
fn chart_corporate_action_events() {
    let v = parse(CHART);
    let r = chart_result(&v).expect("result present");
    let divs = chart_events(r, "div", &["amount"]);
    assert_eq!(divs.len(), 1);
    assert_eq!(divs[0].0, 1_600_000_000);
    assert_eq!(as_f64(Some(divs[0].1[0].clone())), Some(0.2));
    let splits = chart_events(r, "split", &["numerator", "denominator"]);
    assert_eq!(splits.len(), 1);
    assert_eq!(splits[0].0, 1_600_086_400);
    assert_eq!(as_f64(Some(splits[0].1[0].clone())), Some(4.0));
    assert_eq!(as_f64(Some(splits[0].1[1].clone())), Some(1.0));
    assert!(chart_events(r, "capitalGains", &["amount"]).is_empty());
}

#[test]
fn chart_metadata_text() {
    let v = parse(CHART);
    let r = chart_result(&v).expect("result present");
    let m = meta_text(r);
    assert_eq!(m.currency.as_deref(), Some("USD"));
    assert_eq!(m.exchange.as_deref(), Some("NMS"));
    assert_eq!(m.first_trade_date, Some(345_479_400));
    assert_eq!(m.timezone, None);
    assert_eq!(as_f64(m.regular_market_price.clone()), Some(190.5));
    assert_eq!(as_f64(m.fifty_two_week_high.clone()), None);
}

#[test]
fn rows_with_a_date_and_complete_prices_become_bars() {
    let n = |x: u64| Some(JsonNumber::PosInt(x));
    let ts = vec![1_700_000_000, i64::MAX, 1_700_086_400, 1_700_172_800];
    let open = vec![n(1), n(2), n(3), None];
    let high = vec![n(1), n(2), n(3), n(4)];
    let low = vec![n(1), n(2), None, n(4)];
    let close = vec![n(1), n(2), n(3)];
    // Row 1 has no calendar date; row 2 lacks a low; row 3 lacks an open and a close.
    assert_eq!(bar_rows(&ts, &open, &high, &low, &close, false), vec![0]);
    assert_eq!(bar_rows(&ts, &open, &high, &low, &close, true), vec![0, 2, 3]);
    assert!(bar_rows(&[], &open, &high, &low, &close, true).is_empty());
}
