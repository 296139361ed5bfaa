use adaq_data_stock_us::isin::{
    encode_query, isin_from_suggest, isin_query_text, isin_suggest_params, isin_ticker_from_search,
    ticker_has_no_isin, validate_isin,
};
use adaq_data_stock_us::YfError;

#[test]
fn encodes_spaces_and_symbols() {
    assert_eq!(encode_query("Apple Inc."), "Apple%20Inc.");
    assert_eq!(encode_query("AAPL"), "AAPL");
    assert_eq!(encode_query("BRK.B"), "BRK.B");
}

#[test]
fn reverse_isin_parsing() {
    let html = r#"foo "AAPL|US0378331005|Apple Inc." bar"#;
    assert_eq!(isin_from_suggest(html, "AAPL", "AAPL"), "US0378331005");
}

#[test]
fn encodes_reserved_and_multibyte_characters() {
    assert_eq!(encode_query("a&b/c"), "a%26b%2Fc");
    assert_eq!(encode_query("é"), "%C3%A9");
    assert_eq!(encode_query("~_-."), "~_-.");
}

#[test]
fn suggest_without_anchor_is_dash() {
    assert_eq!(isin_from_suggest("nothing here", "AAPL", "Apple"), "-");
}

#[test]
fn suggest_falls_back_to_bare_anchor_when_name_matches() {
    let data = r#"results for apple: "|US0378331005|x""#;
    assert_eq!(isin_from_suggest(data, "AAPL", "Apple"), "US0378331005");
}

#[test]
fn indices_have_no_isin() {
    assert!(ticker_has_no_isin("^GSPC"));
    assert!(ticker_has_no_isin("BRK-B"));
    assert!(!ticker_has_no_isin("AAPL"));
}

#[test]
fn invalid_isin_is_rejected() {
    assert!(validate_isin("US0378331005").is_ok());
    match validate_isin("AAPL") {
        Err(YfError::Msg(m)) => assert_eq!(m, "Invalid ISIN number: AAPL"),
        _ => panic!("expected an error"),
    }
}

#[test]
fn search_result_must_name_a_symbol() {
    assert_eq!(
        isin_ticker_from_search("US0378331005", Some("AAPL".to_string())).unwrap(),
        "AAPL"
    );
    assert!(isin_ticker_from_search("US0378331005", Some(String::new())).is_err());
    assert!(isin_ticker_from_search("US0378331005", None).is_err());
}

#[test]
fn query_text_prefers_short_name() {
    assert_eq!(isin_query_text("AAPL", Some("Apple Inc.".to_string())), "Apple Inc.");
    assert_eq!(isin_query_text("AAPL", Some(String::new())), "AAPL");
    assert_eq!(isin_query_text("AAPL", None), "AAPL");
    let p = isin_suggest_params("Apple Inc.");
    assert_eq!(p[0], ("max_results".to_string(), "25".to_string()));
    assert_eq!(p[1], ("query".to_string(), "Apple%20Inc.".to_string()));
}

fn hex_value(c: u8) -> u8 {
    match c {
        b'0'..=b'9' => c - b'0',
        b'A'..=b'F' => c - b'A' + 10,
        _ => c - b'a' + 10,
    }
}

fn percent_decode(t: &str) -> Vec<u8> {
    let b = t.as_bytes();
    let mut out = Vec::new();
    let mut i = 0;
    while i < b.len() {
        if b[i] == b'%' && i + 2 < b.len() && b[i + 1].is_ascii_hexdigit() && b[i + 2].is_ascii_hexdigit() {
            out.push(hex_value(b[i + 1]) * 16 + hex_value(b[i + 2]));
            i += 3;
        } else {
            out.push(b[i]);
            i += 1;
        }
    }
    out
}

#[test]
fn query_encoding_round_trips_and_keeps_its_alphabet() {
    for s in ["Apple Inc.", "a&b/c d", "Société Générale", "€ 100%", "日本 株", ""] {
        let e = encode_query(s);
        assert!(e.chars().all(|c| c.is_ascii_alphanumeric() || "-_.~%".contains(c)));
        let b = e.as_bytes();
        for (i, &c) in b.iter().enumerate() {
            if c == b'%' {
                assert!(i + 2 < b.len());
                assert!(b[i + 1].is_ascii_digit() || (b'A'..=b'F').contains(&b[i + 1]));
                assert!(b[i + 2].is_ascii_digit() || (b'A'..=b'F').contains(&b[i + 2]));
            }
        }
        assert_eq!(percent_decode(&e), s.as_bytes());
    }
    assert_eq!(encode_query("€ 100%"), "%E2%82%AC%20100%25");
}
