use adaq_data_stock_us::fundamentals::{
    build_statement, dig_history, freq_name, module_name, period_date, statement_name,
    statement_periods, Freq, Statement,
};
use adaq_data_stock_us::json::{Json, JsonNumber};
use adaq_data_stock_us::YfError;

fn to_json(v: &serde_json::Value) -> Json {
    match v {
        serde_json::Value::Null => Json::Null,
        serde_json::Value::Bool(b) => Json::Bool(*b),
        serde_json::Value::Number(n) => {
            if let Some(u) = n.as_u64() {
                Json::Number(JsonNumber::PosInt(u))
            } else if let Some(i) = n.as_i64() {
                Json::Number(JsonNumber::NegInt(i))
            } else {
                let f = n.as_f64().unwrap_or(0.0);
                Json::Number(JsonNumber::Float { bits: f.to_bits(), as_i64: f as i64, as_u64: f as u64 })
            }
        }
        serde_json::Value::String(s) => Json::Str(s.clone()),
        serde_json::Value::Array(a) => Json::Array(a.iter().map(to_json).collect()),
        serde_json::Value::Object(m) => {
            Json::Object(m.iter().map(|(k, v)| (k.clone(), to_json(v))).collect())
        }
    }
}

fn parse(text: &str) -> Json {
    to_json(&serde_json::from_str::<serde_json::Value>(text).expect("test JSON"))
}

fn as_f64(n: Option<JsonNumber>) -> Option<f64> {
    match n {
        Some(JsonNumber::PosInt(u)) => Some(u as f64),
        Some(JsonNumber::NegInt(i)) => Some(i as f64),
        Some(JsonNumber::Float { bits, .. }) => Some(f64::from_bits(bits)),
        None => None,
    }
}

#[test]
fn names_of_statements() {
    assert_eq!(module_name(Statement::Income, Freq::Quarterly), "incomeStatementHistoryQuarterly");
    assert_eq!(module_name(Statement::CashFlow, Freq::Annual), "cashflowStatementHistory");
    assert_eq!(statement_name(Statement::BalanceSheet), "balance-sheet");
    assert_eq!(freq_name(Freq::Annual), "annual");
    assert_eq!(Freq::Quarterly.as_str(), "quarterly");
}

#[test]
fn history_under_module_or_history_key() {
    let r = parse(r#"{"incomeStatementHistory": {"incomeStatementHistory": [{"a": 1}]}}"#);
    assert_eq!(dig_history(&r, "incomeStatementHistory").map(|a| a.len()), Some(1));
    let r = parse(r#"{"balanceSheetHistory": {"history": [{}, {}]}}"#);
    assert_eq!(dig_history(&r, "balanceSheetHistory").map(|a| a.len()), Some(2));
    match statement_periods(&parse("{}"), "balanceSheetHistory", "AAPL") {
        Err(YfError::DataMissing(m)) => assert_eq!(m, "balanceSheetHistory for AAPL"),
        _ => panic!("expected DataMissing"),
    }
}

#[test]
fn period_dates() {
    assert_eq!(period_date(&parse(r#"{"endDate": {"raw": 1696032000, "fmt": "2023-09-30"}}"#)).as_deref(), Some("2023-09-30"));
    assert_eq!(period_date(&parse(r#"{"fiscalDateEnd": 1703980800}"#)).as_deref(), Some("2023-12-31"));
    assert_eq!(period_date(&parse(r#"{"endDate": {"fmt": "2022-12-31"}}"#)).as_deref(), Some("2022-12-31"));
    assert_eq!(period_date(&parse(r#"{}"#)), None);
}

#[test]
fn statement_table() {
    let periods = parse(
        r#"[
            {"endDate": {"raw": 1696032000}, "totalRevenue": {"raw": 100}, "netIncome": {"raw": 20}, "maxAge": 1},
            {"totalRevenue": {"raw": 5}},
            {"endDate": {"raw": 1664496000}, "totalRevenue": {"raw": 90}, "grossProfit": null, "note": "x"}
        ]"#,
    );
    let items = match periods {
        Json::Array(a) => a,
        _ => panic!("array"),
    };
    let t = build_statement(&items, Statement::Income, Freq::Annual);
    assert_eq!(t.statement, "income");
    assert_eq!(t.freq, "annual");
    assert_eq!(t.dates, vec!["2022-09-30".to_string(), "2023-09-30".to_string()]);
    assert_eq!(t.items, vec!["grossProfit".to_string(), "netIncome".to_string(), "totalRevenue".to_string()]);
    assert_eq!(as_f64(t.get("totalRevenue", "2023-09-30")), Some(100.0));
    assert_eq!(as_f64(t.get("totalRevenue", "2022-09-30")), Some(90.0));
    assert_eq!(as_f64(t.get("netIncome", "2022-09-30")), None);
    assert_eq!(as_f64(t.get("grossProfit", "2022-09-30")), None);
    assert_eq!(as_f64(t.get("maxAge", "2023-09-30")), None);
    let s: Vec<Option<f64>> = t.series("totalRevenue").into_iter().map(as_f64).collect();
    assert_eq!(s, vec![Some(90.0), Some(100.0)]);
}

#[test]
fn statement_dates_ascending() {
    let periods = parse(
        r#"[
            {"endDate": {"fmt": "2024-09-28"}, "totalRevenue": 391},
            {"endDate": {"fmt": "2023-09-30"}, "totalRevenue": 383},
            {"endDate": {"fmt": "2024-09-28"}, "totalRevenue": 392},
            {"endDate": {"fmt": "2022-09-24"}, "totalRevenue": 394}
        ]"#,
    );
    let items = match periods {
        Json::Array(a) => a,
        _ => panic!("array"),
    };
    let t = build_statement(&items, Statement::Income, Freq::Annual);
    assert_eq!(
        t.dates,
        vec![
            "2022-09-24".to_string(),
            "2023-09-30".to_string(),
            "2024-09-28".to_string(),
            "2024-09-28".to_string()
        ]
    );
    let s: Vec<Option<f64>> = t.series("totalRevenue").into_iter().map(as_f64).collect();
    assert_eq!(s, vec![Some(394.0), Some(383.0), Some(392.0), Some(392.0)]);
    assert_eq!(t.values[0].iter().map(|c| as_f64(c.clone())).collect::<Vec<_>>(), vec![Some(394.0), Some(383.0), Some(391.0), Some(392.0)]);
}

#[test]
fn duplicate_dates_take_the_last_period() {
    let periods = parse(
        r#"[
            {"endDate": {"fmt": "2023-01-01"}, "x": 1},
            {"endDate": {"fmt": "2023-01-01"}, "x": 2}
        ]"#,
    );
    let items = match periods {
        Json::Array(a) => a,
        _ => panic!("array"),
    };
    let t = build_statement(&items, Statement::CashFlow, Freq::Quarterly);
    assert_eq!(t.dates.len(), 2);
    let s: Vec<Option<f64>> = t.series("x").into_iter().map(as_f64).collect();
    assert_eq!(s, vec![Some(2.0), Some(2.0)]);
}
