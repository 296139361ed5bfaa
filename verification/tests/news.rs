use adaq_data_stock_us::json::{Json, JsonNumber};
use adaq_data_stock_us::news::{news_body, news_query_ref, news_url, parse_news};
use adaq_data_stock_us::YfError;

fn to_json(v: &serde_json::Value) -> Json {
    match v {
        serde_json::Value::Null => Json::Null,
        serde_json::Value::Bool(b) => Json::Bool(*b),
        serde_json::Value::Number(n) => {
            if let Some(u) = n.as_u64() {
                Json::Number(JsonNumber::PosInt(u))
            } else if let Some(i) = n.as_i64() {
                Json::Number(JsonNumber::NegInt(i))
            } else {
                let f = n.as_f64().unwrap_or(0.0);
                Json::Number(JsonNumber::Float { bits: f.to_bits(), as_i64: f as i64, as_u64: f as u64 })
            }
        }
        serde_json::Value::String(s) => Json::Str(s.clone()),
        serde_json::Value::Array(a) => Json::Array(a.iter().map(to_json).collect()),
        serde_json::Value::Object(m) => {
            Json::Object(m.iter().map(|(k, v)| (k.clone(), to_json(v))).collect())
        }
    }
}

fn parse(text: &str) -> Json {
    to_json(&serde_json::from_str::<serde_json::Value>(text).expect("test JSON"))
}

#[test]
fn parses_article_without_ads() {
    let v = parse(
        r#"{"data": {"tickerStream": {"stream": [
            {
                "uuid": "u1",
                "title": "Apple earnings",
                "link": "https://x/1",
                "publisher": "Reuters",
                "providerPublishTime": 1700000000,
                "type": "STORY",
                "relatedTickers": ["AAPL"],
                "thumbnail": {"originalUrl": "https://img/1", "url": "https://img/1s"}
            },
            {"ad": ["some sponsor"]}
        ]}}}"#,
    );
    let articles = parse_news(&v, "AAPL").unwrap();
    assert_eq!(articles.len(), 1);
    assert_eq!(articles[0].title.as_deref(), Some("Apple earnings"));
    assert_eq!(articles[0].article_type.as_deref(), Some("STORY"));
    assert_eq!(articles[0].thumbnail_url().as_deref(), Some("https://img/1"));
    assert_eq!(articles[0].provider_publish_time, Some(1_700_000_000));
    assert_eq!(articles[0].related_tickers, vec!["AAPL".to_string()]);
}

#[test]
fn article_without_related_tickers_is_dropped() {
    let v = parse(r#"{"data": {"tickerStream": {"stream": [{"uuid": "u2", "title": "t"}]}}}"#);
    assert!(parse_news(&v, "AAPL").unwrap().is_empty());
}

#[test]
fn empty_ad_list_is_not_an_ad() {
    let v = parse(
        r#"{"data": {"tickerStream": {"stream": [{"ad": [], "relatedTickers": [], "title": "x"}]}}}"#,
    );
    let a = parse_news(&v, "AAPL").unwrap();
    assert_eq!(a.len(), 1);
    assert_eq!(a[0].thumbnail_url(), None);
}

#[test]
fn thumbnail_falls_back_to_url() {
    let v = parse(
        r#"{"data": {"tickerStream": {"stream": [{"relatedTickers": [], "thumbnail": {"url": "https://img/s"}}]}}}"#,
    );
    let a = parse_news(&v, "AAPL").unwrap();
    assert_eq!(a[0].thumbnail_url().as_deref(), Some("https://img/s"));
}

#[test]
fn missing_stream_is_an_error() {
    match parse_news(&parse(r#"{"data": {}}"#), "AAPL") {
        Err(YfError::DataMissing(m)) => assert_eq!(m, "news stream missing for AAPL"),
        _ => panic!("expected DataMissing"),
    }
}

#[test]
fn tab_selects_feed() {
    assert_eq!(news_query_ref("news"), "latestNews");
    assert_eq!(news_query_ref("All"), "newsAll");
    assert_eq!(news_query_ref("Press Releases"), "pressRelease");
    assert_eq!(news_query_ref("pressrelease"), "pressRelease");
    assert_eq!(
        news_url("all"),
        "https://finance.yahoo.com/xhr/ncp?queryRef=newsAll&serviceKey=ncp_fin"
    );
}

#[test]
fn feed_body_names_ticker_and_count() {
    let b = news_body("AAPL", 10);
    let cfg = b.get_key("serviceConfig").unwrap();
    assert!(matches!(cfg.get_key("snippetCount"), Some(Json::Number(JsonNumber::PosInt(10)))));
    match cfg.get_key("s") {
        Some(Json::Array(items)) => {
            assert_eq!(items.len(), 1);
            assert_eq!(items[0].as_str(), Some("AAPL"));
        }
        _ => panic!("expected the ticker list"),
    }
}
