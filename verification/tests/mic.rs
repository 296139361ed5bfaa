use adaq_data_stock_us::mic::{is_isin, mic_suffix_table, mic_to_suffix, resolve_symbol};
use adaq_data_stock_us::YfError;

#[test]
fn isin_detection() {
    assert!(is_isin("US0378331005"));
    assert!(is_isin("GB0002634946"));
    assert!(!is_isin("AAPL"));
    assert!(!is_isin("US037833100"));
    assert!(!is_isin("US037833100X"));
    assert!(!is_isin("12378331005"));
}

#[test]
fn mic_suffix_lookup() {
    assert_eq!(mic_to_suffix("XPAR"), Some("PA"));
    assert_eq!(mic_to_suffix("xpar"), Some("PA"));
    assert_eq!(mic_to_suffix("XNYS"), Some(""));
    assert_eq!(mic_to_suffix(".PA"), None);
    assert_eq!(mic_to_suffix("ZZZZ"), None);
}

#[test]
fn resolve_symbol_pairs() {
    assert_eq!(resolve_symbol("OR", "XPAR").unwrap(), "OR.PA");
    assert_eq!(resolve_symbol("AAPL", "XNAS").unwrap(), "AAPL");
    assert!(resolve_symbol("AAPL", "ZZZZ").is_err());
    assert_eq!(resolve_symbol("mc", "XLON").unwrap(), "MC.L");
}

#[test]
fn mic_with_leading_dot_and_mixed_case() {
    assert_eq!(mic_to_suffix(".XPAR"), Some("PA"));
    assert_eq!(mic_to_suffix("xLoN"), Some("L"));
    assert_eq!(resolve_symbol("or", ".xpar").unwrap(), "OR.PA");
}

#[test]
fn unknown_mic_message() {
    match resolve_symbol("AAPL", "ZZZZ") {
        Err(YfError::Msg(m)) => assert_eq!(m, "Unknown MIC code: 'ZZZZ'"),
        _ => panic!("expected an unknown-MIC error"),
    }
}

#[test]
fn isin_letters_must_be_uppercase() {
    assert!(!is_isin("us0378331005"));
}

#[test]
fn symbols_are_not_mic_codes() {
    assert_eq!(mic_to_suffix("OR"), None);
    assert_eq!(mic_to_suffix("AAPL"), None);
    assert!(resolve_symbol("X", "OR").is_err());
    assert!(resolve_symbol("AAPL", "AAPL").is_err());
    assert_eq!(mic_suffix_table().len(), 82);
}
