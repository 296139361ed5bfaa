use adaq_data_stock_us::json::{Json, JsonNumber};
use adaq_data_stock_us::summary::{
    fast_info_modules, parse_funds, parse_holder_table, parse_price_targets,
    parse_sustainability, FastInfoFields, InfoFields,
};

fn to_json(v: &serde_json::Value) -> Json {
    match v {
        serde_json::Value::Null => Json::Null,
        serde_json::Value::Bool(b) => Json::Bool(*b),
        serde_json::Value::Number(n) => {
            if let Some(u) = n.as_u64() {
                Json::Number(JsonNumber::PosInt(u))
            } else if let Some(i) = n.as_i64() {
                Json::Number(JsonNumber::NegInt(i))
            } else {
                let f = n.as_f64().unwrap_or(0.0);
                Json::Number(JsonNumber::Float { bits: f.to_bits(), as_i64: f as i64, as_u64: f as u64 })
            }
        }
        serde_json::Value::String(s) => Json::Str(s.clone()),
        serde_json::Value::Array(a) => Json::Array(a.iter().map(to_json).collect()),
        serde_json::Value::Object(m) => {
            Json::Object(m.iter().map(|(k, v)| (k.clone(), to_json(v))).collect())
        }
    }
}

fn parse(text: &str) -> Json {
    to_json(&serde_json::from_str::<serde_json::Value>(text).expect("test JSON"))
}

fn as_f64(n: Option<JsonNumber>) -> Option<f64> {
    match n {
        Some(JsonNumber::PosInt(u)) => Some(u as f64),
        Some(JsonNumber::NegInt(i)) => Some(i as f64),
        Some(JsonNumber::Float { bits, .. }) => Some(f64::from_bits(bits)),
        None => None,
    }
}

#[test]
fn info_symbol_fallback() {
    let v = parse(r#"{"price": {"shortName": "Apple"}}"#);
    let info = InfoFields::from_result("AAPL", &v);
    assert_eq!(info.symbol.as_deref(), Some("AAPL"));
    assert_eq!(info.short_name.as_deref(), Some("Apple"));
}

#[test]
fn info_keeps_the_reported_symbol() {
    let v = parse(
        r#"{"price": {"symbol": "BRK-B", "marketCap": {"raw": 9.0e11}, "regularMarketPrice": {"raw": 410.5}},
            "financialData": {"currentPrice": {"raw": 411.0}},
            "assetProfile": {"sector": "Financial Services"}}"#,
    );
    let info = InfoFields::from_result("BRK.B", &v);
    assert_eq!(info.symbol.as_deref(), Some("BRK-B"));
    assert_eq!(info.sector.as_deref(), Some("Financial Services"));
    assert_eq!(as_f64(info.market_cap), Some(9.0e11));
    assert_eq!(as_f64(info.price), Some(411.0));
    assert_eq!(as_f64(info.regular_market_price), Some(410.5));
}

#[test]
fn info_price_falls_back_to_market_price() {
    let v = parse(r#"{"price": {"regularMarketPrice": {"raw": 12.25}}}"#);
    let info = InfoFields::from_result("X", &v);
    assert_eq!(as_f64(info.price), Some(12.25));
}

#[test]
fn fast_info_unwraps_raw() {
    let v = parse(
        r#"{"price": {
            "currency": "USD",
            "regularMarketPrice": {"raw": 190.5, "fmt": "190.50"},
            "sharesOutstanding": 15500000000.0
        }}"#,
    );
    let f = FastInfoFields::from_result(&v);
    assert_eq!(f.currency.as_deref(), Some("USD"));
    assert_eq!(as_f64(f.last_price), Some(190.5));
    assert_eq!(as_f64(f.shares), Some(15_500_000_000.0));
}

#[test]
fn fast_info_module_list() {
    assert_eq!(
        fast_info_modules(),
        vec!["price", "quoteType", "summaryDetail", "defaultKeyStatistics"]
    );
}

#[test]
fn parses_holder_table_unwraps_raw() {
    let r = parse(
        r#"{
        "institutionOwnership": {"holders": [
            {"name": "Vanguard", "pctHeld": {"raw": 0.07}, "positionDirect": {"raw": 1.2e9}, "value": {"raw": 3.4e9}, "reportDate": "2024-01-01"}
        ]}
    }"#,
    );
    let rows = parse_holder_table(&r, &["institutionOwnership", "holders"]);
    assert_eq!(rows.len(), 1);
    assert_eq!(rows[0].name.as_deref(), Some("Vanguard"));
    assert_eq!(as_f64(rows[0].pct_in_floats.clone()), Some(0.07));
    assert_eq!(rows[0].date.as_deref(), Some("2024-01-01"));
}

#[test]
fn missing_holder_table_is_empty() {
    let r = parse(r#"{"fundOwnership": {}}"#);
    assert!(parse_holder_table(&r, &["fundOwnership", "holders"]).is_empty());
}

#[test]
fn sustainability_scores() {
    let r = parse(r#"{"esgScores": {"totalEsg": {"raw": 17.2}, "percentile": 12, "esgScore": null}}"#);
    let s = parse_sustainability(&r);
    assert_eq!(as_f64(s.total_esg), Some(17.2));
    assert_eq!(as_f64(s.percentile), Some(12.0));
    assert_eq!(as_f64(s.esg_score), None);
}

#[test]
fn price_targets_read_raw_values() {
    let r = parse(
        r#"{"financialData": {"targetLowPrice": {"raw": 150.0}, "targetHighPrice": {"raw": 250.0},
            "numberOfAnalystOpinions": {"raw": 38}}}"#,
    );
    let t = parse_price_targets(&r);
    assert_eq!(as_f64(t.low), Some(150.0));
    assert_eq!(as_f64(t.high), Some(250.0));
    assert_eq!(as_f64(t.num_analysts), Some(38.0));
    assert_eq!(as_f64(t.current), None);
}

#[test]
fn funds_sector_weights_and_holdings() {
    let r = parse(
        r#"{"fundProfile": {"family": "Vanguard", "sectorWeightings": [{"technology": {"raw": 0.31}}, {}, 5]},
            "fundOverview": {"navPrice": {"raw": 480.25}},
            "topHoldings": {"holdings": [{"symbol": "AAPL", "holdingName": "Apple Inc", "holdingPercent": {"raw": 0.07}}]}}"#,
    );
    let f = parse_funds(&r);
    assert_eq!(f.family.as_deref(), Some("Vanguard"));
    assert_eq!(f.sector_weightings.len(), 1);
    assert_eq!(f.sector_weightings[0].0, "technology");
    assert_eq!(as_f64(f.sector_weightings[0].1.clone()), Some(0.31));
    assert_eq!(as_f64(f.nav_price), Some(480.25));
    assert_eq!(f.top_holdings.len(), 1);
    assert_eq!(f.top_holdings[0].name.as_deref(), Some("Apple Inc"));
    assert_eq!(as_f64(f.top_holdings[0].holding_percent.clone()), Some(0.07));
}
