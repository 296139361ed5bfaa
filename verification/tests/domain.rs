use adaq_data_stock_us::domain::{
    companies_from, market_params, market_status, market_summary_url, market_time_url,
    parse_industry, parse_sector, sector_url, MarketRegion,
};
use adaq_data_stock_us::json::{Json, JsonNumber};
use adaq_data_stock_us::lookup::{lookup_params, parse_lookup};
use adaq_data_stock_us::search::{search_news, search_params};
use adaq_data_stock_us::YfError;

fn to_json(v: &serde_json::Value) -> Json {
    match v {
        serde_json::Value::Null => Json::Null,
        serde_json::Value::Bool(b) => Json::Bool(*b),
        serde_json::Value::Number(n) => {
            if let Some(u) = n.as_u64() {
                Json::Number(JsonNumber::PosInt(u))
            } else if let Some(i) = n.as_i64() {
                Json::Number(JsonNumber::NegInt(i))
            } else {
                let f = n.as_f64().unwrap_or(0.0);
                Json::Number(JsonNumber::Float { bits: f.to_bits(), as_i64: f as i64, as_u64: f as u64 })
            }
        }
        serde_json::Value::String(s) => Json::Str(s.clone()),
        serde_json::Value::Array(a) => Json::Array(a.iter().map(to_json).collect()),
        serde_json::Value::Object(m) => {
            Json::Object(m.iter().map(|(k, v)| (k.clone(), to_json(v))).collect())
        }
    }
}

fn parse(text: &str) -> Json {
    to_json(&serde_json::from_str::<serde_json::Value>(text).expect("test JSON"))
}

#[test]
fn region_names() {
    assert_eq!(MarketRegion::Europe.as_str(), "eu");
    assert_eq!(MarketRegion::Cryptocurrencies.as_str(), "crypto");
    assert_eq!(MarketRegion::default(), MarketRegion::Us);
    assert_eq!(market_params(MarketRegion::Gb), vec![("region".to_string(), "gb".to_string())]);
    assert_eq!(market_summary_url(), "https://query1.finance.yahoo.com/v6/finance/quote/marketSummary");
    assert_eq!(market_time_url(), "https://query1.finance.yahoo.com/v6/finance/markettime");
}

#[test]
fn companies_skip_invalid_entries() {
    let v = parse(
        r#"{"companies": [
            {"name": "Apple", "symbol": "AAPL", "quoteType": "EQUITY", "weight": 0.1},
            {"name": 5},
            ["Microsoft", "MSFT", null],
            ["too", "short"],
            {"symbol": null}
        ]}"#,
    );
    let cs = companies_from(&v);
    assert_eq!(cs.len(), 3);
    assert_eq!(cs[0].name.as_deref(), Some("Apple"));
    assert_eq!(cs[0].quote_type.as_deref(), Some("EQUITY"));
    assert_eq!(cs[1].symbol.as_deref(), Some("MSFT"));
    assert_eq!(cs[1].quote_type, None);
    assert_eq!(cs[2].symbol, None);
    assert!(companies_from(&parse("{}")).is_empty());
}

#[test]
fn sector_reply() {
    let v = parse(
        r#"{"finance": {"result": {"name": "Technology", "symbol": "^YH311", "description": {"raw": "Tech", "fmt": "Tech"},
            "topCompanies": {"companies": [{"symbol": "AAPL"}]}}}}"#,
    );
    let s = parse_sector(&v, "technology").unwrap();
    assert_eq!(s.name.as_deref(), Some("Technology"));
    assert_eq!(s.overview.as_deref(), Some("Tech"));
    assert_eq!(s.ticker, None);
    assert_eq!(s.top_companies.len(), 1);
    match parse_sector(&parse("{}"), "technology") {
        Err(YfError::DataMissing(m)) => assert_eq!(m, "sector technology"),
        _ => panic!("expected DataMissing"),
    }
    assert_eq!(sector_url("technology"), "https://query1.finance.yahoo.com/v1/finance/sectors/technology");
}

#[test]
fn industry_reply() {
    let v = parse(
        r#"{"finance": {"result": {"name": "Semis", "sectorKey": "technology", "sectorName": "Technology",
            "topPerformingCompanies": {"companies": [{"name": "NVIDIA"}, {"name": "AMD"}]}}}}"#,
    );
    let i = parse_industry(&v, "semiconductors").unwrap();
    assert_eq!(i.sector_key.as_deref(), Some("technology"));
    assert_eq!(i.top_performing_companies.len(), 2);
    assert!(i.top_companies.is_empty());
    assert!(matches!(parse_industry(&parse("{}"), "x"), Err(YfError::DataMissing(m)) if m == "industry x"));
}

#[test]
fn market_status_by_region() {
    let t = parse(r#"{"marketTime": {"us": {"status": "open"}, "gb": {}}}"#);
    assert_eq!(market_status(&t, MarketRegion::Us).as_deref(), Some("open"));
    assert_eq!(market_status(&t, MarketRegion::Gb), None);
    assert_eq!(market_status(&t, MarketRegion::Asia), None);
}

#[test]
fn lookup_rows_and_params() {
    let v = parse(
        r#"{"finance": {"result": [
            {"symbol": "AAPL", "name": "Apple Inc.", "exch": "NMS", "typeDisp": "Equity", "industryDisp": "Tech"},
            {"symbol": 1},
            {"symbol": "AAPL.MX"}
        ]}}"#,
    );
    let r = parse_lookup("apple", &v);
    assert_eq!(r.query, "apple");
    assert_eq!(r.results.len(), 2);
    assert_eq!(r.results[0].exchange.as_deref(), Some("NMS"));
    assert_eq!(r.results[0].industry.as_deref(), Some("Tech"));
    assert_eq!(r.results[1].name, None);
    assert!(parse_lookup("x", &parse("{}")).results.is_empty());
    assert_eq!(
        lookup_params("apple", 10, "equity"),
        vec![
            ("query".to_string(), "apple".to_string()),
            ("count".to_string(), "10".to_string()),
            ("type".to_string(), "equity".to_string()),
        ]
    );
}

#[test]
fn search_news_and_params() {
    let v = parse(
        r#"{"quotes": [], "news": [
            {"uuid": "n1", "title": "Apple", "link": "https://x", "publisher": "R", "extra": 1},
            {"title": 3}
        ]}"#,
    );
    let n = search_news(&v);
    assert_eq!(n.len(), 1);
    assert_eq!(n[0].uuid.as_deref(), Some("n1"));
    assert_eq!(n[0].publisher.as_deref(), Some("R"));
    let p = search_params("apple", 8, 2);
    assert_eq!(p[1], ("quotesCount".to_string(), "8".to_string()));
    assert_eq!(p[2], ("newsCount".to_string(), "2".to_string()));
    assert_eq!(p[4], ("quotesQueryId".to_string(), "tss_match_phrase_query".to_string()));
}
