use adaq_data_stock_us::json::{Json, JsonNumber};
use adaq_data_stock_us::quote::{
    parse_calendar_events, parse_sec_filings, parse_upgrades,
    estimate_table, estimate_table_names, find_string, join_strs, modules_info, parse_named_table,
    parse_recommendation_trend, parse_valuation_measures, quote_summary_params,
    quote_summary_result, quote_summary_url,
};
use adaq_data_stock_us::YfError;

fn to_json(v: &serde_json::Value) -> Json {
    match v {
        serde_json::Value::Null => Json::Null,
        serde_json::Value::Bool(b) => Json::Bool(*b),
        serde_json::Value::Number(n) => {
            if let Some(u) = n.as_u64() {
                Json::Number(JsonNumber::PosInt(u))
            } else if let Some(i) = n.as_i64() {
                Json::Number(JsonNumber::NegInt(i))
            } else {
                let f = n.as_f64().unwrap_or(0.0);
                Json::Number(JsonNumber::Float { bits: f.to_bits(), as_i64: f as i64, as_u64: f as u64 })
            }
        }
        serde_json::Value::String(s) => Json::Str(s.clone()),
        serde_json::Value::Array(a) => Json::Array(a.iter().map(to_json).collect()),
        serde_json::Value::Object(m) => {
            Json::Object(m.iter().map(|(k, v)| (k.clone(), to_json(v))).collect())
        }
    }
}

fn parse(text: &str) -> Json {
    to_json(&serde_json::from_str::<serde_json::Value>(text).expect("test JSON"))
}

fn as_f64(n: Option<JsonNumber>) -> Option<f64> {
    match n {
        Some(JsonNumber::PosInt(u)) => Some(u as f64),
        Some(JsonNumber::NegInt(i)) => Some(i as f64),
        Some(JsonNumber::Float { bits, .. }) => Some(f64::from_bits(bits)),
        None => None,
    }
}

#[test]
fn estimate_tables_registered() {
    let names: Vec<&str> = estimate_table_names();
    assert_eq!(names.len(), 6);
    assert!(names.contains(&"earnings_estimate"));
    assert!(names.contains(&"growth_estimates"));
}

#[test]
fn every_registered_table_has_a_descriptor() {
    for n in estimate_table_names() {
        assert!(estimate_table(n).is_some());
    }
    assert!(estimate_table("unknown").is_none());
    let t = estimate_table("earnings_history").unwrap();
    assert_eq!(t.module, "earningsHistory");
    assert_eq!(t.array_key, "history");
    assert_eq!(t.label_key, "quarter");
    assert_eq!(t.metrics, vec!["epsEstimate", "epsActual", "epsDifference", "surprisePercent"]);
}

#[test]
fn named_table_lookup() {
    let v = parse(
        r#"{"earningsTrend": {"earningsTrend": [
            {"period": "0q", "avg": {"raw": 1.5}, "high": {"raw": 2.0}},
            {"period": "0y", "avg": {"raw": 3.0}}
        ]}}"#,
    );
    let t = parse_named_table(&v, "earningsTrend", "earningsTrend", "period", &vec!["avg", "high"]);
    assert_eq!(t.index, vec!["0q", "0y"]);
    assert_eq!(t.columns, vec!["avg", "high"]);
    assert_eq!(as_f64(t.get("0q", "avg")), Some(1.5));
    assert_eq!(as_f64(t.get("0q", "high")), Some(2.0));
    assert_eq!(as_f64(t.get("0y", "high")), None);
    assert_eq!(as_f64(t.get("missing", "avg")), None);
}

#[test]
fn parses_valuation_measures() {
    let r = parse(
        r#"{
            "price": {"marketCap": {"raw": 3000000000000.0}},
            "summaryDetail": {"trailingPE": {"raw": 30.0}},
            "defaultKeyStatistics": {"enterpriseValue": {"raw": 2900000000000.0}, "pegRatio": {"raw": 2.1}}
        }"#,
    );
    let v = parse_valuation_measures(&r);
    assert_eq!(v.columns, vec!["Current".to_string()]);
    assert_eq!(as_f64(v.get("Market Cap", "Current")), Some(3_000_000_000_000.0));
    assert_eq!(as_f64(v.get("Trailing P/E", "Current")), Some(30.0));
    assert_eq!(as_f64(v.get("PEG Ratio", "Current")), Some(2.1));
    assert_eq!(as_f64(v.get("Price/Book", "Current")), None);
    assert_eq!(v.index.len(), 8);
}

#[test]
fn recommendation_trend_rows() {
    let r = parse(
        r#"{"recommendationTrend": {"trend": [
            {"period": "0m", "strongBuy": 10, "buy": 20, "hold": 5, "sell": 1, "strongSell": 0},
            {"period": "-1m", "strongBuy": {"raw": 9}}
        ]}}"#,
    );
    let rows = parse_recommendation_trend(&r);
    assert_eq!(rows.len(), 2);
    assert_eq!(rows[0].period.as_deref(), Some("0m"));
    assert_eq!(rows[0].strong_buy, Some(10));
    assert_eq!(rows[0].buy, Some(20));
    assert_eq!(rows[0].strong_sell, Some(0));
    assert_eq!(rows[1].strong_buy, Some(9));
    assert_eq!(rows[1].buy, None);
    assert!(parse_recommendation_trend(&parse("{}")).is_empty());
}

#[test]
fn quote_summary_request() {
    assert_eq!(
        quote_summary_url("AAPL"),
        "https://query2.finance.yahoo.com/v10/finance/quoteSummary/AAPL"
    );
    let p = quote_summary_params(&["price", "summaryDetail"]);
    assert_eq!(p, vec![("modules".to_string(), "price,summaryDetail".to_string())]);
    assert_eq!(join_strs(&[], ","), "");
    assert_eq!(join_strs(&["a"], ","), "a");
    assert_eq!(modules_info().len(), 30);
}

#[test]
fn quote_summary_result_first_or_missing() {
    let v = parse(r#"{"quoteSummary": {"result": [{"price": {}}]}}"#);
    assert!(quote_summary_result(&v, "AAPL").unwrap().get_key("price").is_some());
    match quote_summary_result(&parse(r#"{"quoteSummary": {"result": []}}"#), "AAPL") {
        Err(YfError::DataMissing(m)) => assert_eq!(m, "quoteSummary.result for AAPL"),
        _ => panic!("expected DataMissing"),
    }
}

#[test]
fn first_position_of_a_label() {
    let labels = vec!["0q".to_string(), "+1q".to_string(), "0q".to_string()];
    assert_eq!(find_string(&labels, "0q"), Some(0));
    assert_eq!(find_string(&labels, "+1q"), Some(1));
    assert_eq!(find_string(&labels, "0y"), None);
}

#[test]
fn parses_calendar_events() {
    let r = parse(
        r#"{"calendarEvents": {
        "earnings": {"earningsDate": {"raw": 1700000000, "fmt": "2023-11-01"}, "earningsTime": "amc", "epsEstimate": {"raw": 1.2}},
        "exDividendDate": {"raw": 1690000000},
        "dividendDate": {"raw": 1695000000}
    }}"#,
    );
    let c = parse_calendar_events(&r);
    assert!(c.earnings_date.is_some());
    assert_eq!(c.earnings_time.as_deref(), Some("amc"));
    assert_eq!(as_f64(c.eps_estimate.clone()), Some(1.2));
    assert!(c.ex_dividend_date.is_some());
}

#[test]
fn calendar_event_values() {
    let r = parse(
        r#"{"calendarEvents": {
        "earnings": {"earningsDate": {"raw": 1700000000.0}, "revenueEstimate": {"raw": 9.4e10}},
        "exDividendDate": {"raw": 1690000000},
        "nextQuarter": 1696000000
    }}"#,
    );
    let c = parse_calendar_events(&r);
    assert_eq!(c.earnings_date, Some(1_700_000_000));
    assert_eq!(c.earnings_time, None);
    assert_eq!(as_f64(c.revenue_estimate.clone()), Some(9.4e10));
    assert_eq!(c.ex_dividend_date, Some(1_690_000_000));
    assert_eq!(c.next_quarter, None);
    assert_eq!(c.dividend_date, None);
    let none = parse_calendar_events(&parse("{}"));
    assert_eq!(none.earnings_date, None);
}

#[test]
fn parses_sec_filings_dates() {
    let r = parse(
        r#"{"secFilings": {"filings": [
        {"date": {"raw": "2023-01-15", "fmt": "Jan 15, 2023"}, "type": "10-K", "title": "Annual report"}
    ]}}"#,
    );
    let f = parse_sec_filings(&r);
    assert_eq!(f.len(), 1);
    assert_eq!(f[0].type_.as_deref(), Some("10-K"));
    assert!(f[0].date.is_some());
}

#[test]
fn sec_filing_dates_at_midnight() {
    let r = parse(
        r#"{"secFilings": {"filings": [
        {"date": {"raw": "2023-01-15"}, "url": "https://sec.gov/x", "editor": "SEC"},
        {"date": {"raw": "Jan 15"}},
        {"date": 1673740800}
    ]}}"#,
    );
    let f = parse_sec_filings(&r);
    assert_eq!(f.len(), 3);
    assert_eq!(f[0].date, Some(1_673_740_800));
    assert_eq!(f[0].url.as_deref(), Some("https://sec.gov/x"));
    assert_eq!(f[0].editor.as_deref(), Some("SEC"));
    assert_eq!(f[1].date, None);
    assert_eq!(f[2].date, None);
}

#[test]
fn upgrades_and_downgrades() {
    let r = parse(
        r#"{"upgradeDowngradeHistory": {"history": [
        {"date": {"raw": 1700000000}, "firm": "Morgan Stanley", "toGrade": "Overweight", "fromGrade": "Equal-Weight", "action": "up"},
        {"firm": "Citi"}
    ]}}"#,
    );
    let u = parse_upgrades(&r);
    assert_eq!(u.len(), 2);
    assert_eq!(u[0].date, Some(1_700_000_000));
    assert_eq!(u[0].firm.as_deref(), Some("Morgan Stanley"));
    assert_eq!(u[0].to_grade.as_deref(), Some("Overweight"));
    assert_eq!(u[0].from_grade.as_deref(), Some("Equal-Weight"));
    assert_eq!(u[0].action.as_deref(), Some("up"));
    assert_eq!(u[1].date, None);
    assert!(parse_upgrades(&parse("{}")).is_empty());
}
