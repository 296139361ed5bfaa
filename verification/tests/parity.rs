use adaq_data_stock_us::parity::{
    changed_files, cross_reference, extract_field, latest_tag, newer_release, parse_parity_rows,
    parse_ver,
};

const MD: &str = "# Parity\n\nPinned version: 0.2.54  \n\n| Rust module | yfinance source | phase | status |\n|---|---|---|---|\n| history | yfinance/scrapers/history.py, base.py | P1 | done |\n| live | live.py | P4 | todo |\n|  | x.py | P1 | done |\n| calendars | calendars.py | P3 | --- |\n";

#[test]
fn parses_versions() {
    assert_eq!(parse_ver("1.6.0"), Some((1, 6, 0)));
    assert_eq!(parse_ver("+1.2.3"), Some((1, 2, 3)));
    assert_eq!(parse_ver("1.2"), None);
    assert_eq!(parse_ver("1.2.x"), None);
    assert_eq!(parse_ver("1.2.3.4"), None);
    assert_eq!(parse_ver("4294967296.0.0"), None);
    assert_eq!(parse_ver("4294967295.0.0"), Some((4294967295, 0, 0)));
    assert_eq!(parse_ver("-1.0.0"), None);
    assert_eq!(parse_ver("+.0.0"), None);
}

#[test]
fn extracts_fields() {
    assert_eq!(extract_field(MD, "Pinned version").as_deref(), Some("0.2.54"));
    assert_eq!(extract_field(MD, "Pinned commit"), None);
    assert_eq!(extract_field("  Key:  value \r\n", "Key").as_deref(), Some("value"));
}

#[test]
fn parses_rows() {
    let rows = parse_parity_rows(MD);
    assert_eq!(rows.len(), 2);
    assert_eq!(rows[0].module, "history");
    assert_eq!(rows[0].sources, vec!["scrapers/history.py".to_string(), "base.py".to_string()]);
    assert_eq!(rows[0].status, "done");
    assert_eq!(rows[1].module, "live");
    assert_eq!(rows[1].status, "todo");
}

#[test]
fn separator_rows_are_skipped() {
    let rows = parse_parity_rows("| a | b | c | - |\n| a | b | c | -- |\n| a | yfinance/yfinance/b, , c | c | ok |");
    assert_eq!(rows.len(), 1);
    assert_eq!(rows[0].sources, vec!["b".to_string(), "c".to_string()]);
}

#[test]
fn latest_tag_is_first_version_line() {
    assert_eq!(latest_tag("nightly\n0.2.55\n0.2.54\n").as_deref(), Some("0.2.55"));
    assert_eq!(latest_tag("nightly\nv1\n"), None);
}

#[test]
fn newer_release_decision() {
    assert!(newer_release(Some("0.2.54"), "0.2.55"));
    assert!(!newer_release(Some("0.2.55"), "0.2.55"));
    assert!(!newer_release(Some("1.0.0"), "0.9.9"));
    assert!(newer_release(Some("garbage"), "0.1.0"));
    assert!(!newer_release(None, "0.2.55"));
    assert!(!newer_release(Some("0.2.54"), "latest"));
}

#[test]
fn cross_references_changed_files() {
    let rows = parse_parity_rows(MD);
    let files = changed_files("yfinance/scrapers/history.py\n\nyfinance/live.py\nREADME.md\n");
    assert_eq!(files.len(), 3);
    let (review, todo) = cross_reference(&files, &rows);
    assert_eq!(review.len(), 1);
    assert_eq!(review[0].module, "history");
    assert_eq!(todo.len(), 1);
    assert_eq!(todo[0].module, "live");
    let (review, _) = cross_reference(&vec!["yfinance/pkg/base.py".to_string()], &rows);
    assert_eq!(review.len(), 1);
}
