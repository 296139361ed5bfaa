use std::path::PathBuf;

use adaq_data_stock_us::client::collect_downloads;
use adaq_data_stock_us::config::{Config, Locale};
use adaq_data_stock_us::http::{accept_language, json_request_query, post_request_query, urls};
use adaq_data_stock_us::YfError;

#[test]
fn defaults() {
    let c = Config::default();
    assert_eq!(c.proxy, None);
    assert_eq!(c.retries, 0);
    assert_eq!(c.timeout_secs, 30);
    assert!(c.user_agent.starts_with("Mozilla/5.0"));
    assert_eq!(c.locale.lang, "en");
    assert_eq!(c.locale.region, "US");
    assert!(c.lenient);
    assert!(c.cache_dir.is_none());
}

#[test]
fn builders_set_one_field() {
    let c = Config::new()
        .proxy("http://127.0.0.1:7890")
        .retries(3)
        .timeout_secs(5)
        .locale("de", "DE")
        .lenient(false)
        .cache_dir(PathBuf::from("/tmp/x"))
        .cookies("T1", "Y1");
    assert_eq!(c.proxy.as_deref(), Some("http://127.0.0.1:7890"));
    assert_eq!(c.retries, 3);
    assert_eq!(c.timeout_secs, 5);
    assert_eq!(c.locale.lang, "de");
    assert_eq!(c.locale.region, "DE");
    assert!(!c.lenient);
    assert_eq!(c.cache_dir, Some(PathBuf::from("/tmp/x")));
    assert_eq!(c.cookie_t.as_deref(), Some("T1"));
    assert_eq!(c.cookie_y.as_deref(), Some("Y1"));
}

#[test]
fn request_query_appends_crumb_and_locale() {
    let params = [("interval", "1d".to_string())];
    let q = json_request_query(&params, "test-crumb", &Locale::new());
    assert_eq!(
        q,
        vec![
            ("interval".to_string(), "1d".to_string()),
            ("crumb".to_string(), "test-crumb".to_string()),
            ("lang".to_string(), "en".to_string()),
            ("region".to_string(), "US".to_string()),
        ]
    );
    let q = json_request_query(&params, "", &Locale { lang: String::new(), region: "US".to_string() });
    assert_eq!(q, vec![("interval".to_string(), "1d".to_string())]);
    let q = post_request_query(&[], "c");
    assert_eq!(q, vec![("crumb".to_string(), "c".to_string())]);
    assert_eq!(accept_language(&Locale::new()), "en-US");
    assert_eq!(urls().query1, "https://query1.finance.yahoo.com");
}

#[test]
fn lenient_download_collects_errors() {
    let outcomes = vec![
        ("AAPL".to_string(), Ok(1u32)),
        ("ZZZZ".to_string(), Err(YfError::TickerMissing("ZZZZ".to_string()))),
        ("MSFT".to_string(), Ok(2u32)),
    ];
    let r = collect_downloads(outcomes, true).unwrap();
    assert_eq!(r.histories, vec![1, 2]);
    assert_eq!(r.errors, vec![("ZZZZ".to_string(), "ticker not found: ZZZZ".to_string())]);
}

#[test]
fn strict_download_fails_on_first_error() {
    let outcomes = vec![
        ("AAPL".to_string(), Ok(1u32)),
        ("ZZZZ".to_string(), Err(YfError::TickerMissing("ZZZZ".to_string()))),
    ];
    match collect_downloads(outcomes, false) {
        Err(YfError::Msg(m)) => assert_eq!(m, "download failed for ZZZZ: ticker not found: ZZZZ"),
        _ => panic!("expected a strict failure"),
    }
    let ok = collect_downloads(vec![("AAPL".to_string(), Ok(1u32))], false).unwrap();
    assert_eq!(ok.histories, vec![1]);
    assert!(ok.errors.is_empty());
}
