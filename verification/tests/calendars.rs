use adaq_data_stock_us::calendars::{
    calendar_body, calendar_params, earnings_calendar_query, economic_calendar_query,
    economic_events, ipo_calendar_query, parse_documents, predef, split_events,
    splits_calendar_query, str_field, zip_fields, CalendarOperand, CalendarQuery,
};
use adaq_data_stock_us::json::{Json, JsonNumber};
use adaq_data_stock_us::YfError;

fn to_json(v: &serde_json::Value) -> Json {
    match v {
        serde_json::Value::Null => Json::Null,
        serde_json::Value::Bool(b) => Json::Bool(*b),
        serde_json::Value::Number(n) => {
            if let Some(u) = n.as_u64() {
                Json::Number(JsonNumber::PosInt(u))
            } else if let Some(i) = n.as_i64() {
                Json::Number(JsonNumber::NegInt(i))
            } else {
                let f = n.as_f64().unwrap_or(0.0);
                Json::Number(JsonNumber::Float { bits: f.to_bits(), as_i64: f as i64, as_u64: f as u64 })
            }
        }
        serde_json::Value::String(s) => Json::Str(s.clone()),
        serde_json::Value::Array(a) => Json::Array(a.iter().map(to_json).collect()),
        serde_json::Value::Object(m) => {
            Json::Object(m.iter().map(|(k, v)| (k.clone(), to_json(v))).collect())
        }
    }
}

fn parse(text: &str) -> Json {
    to_json(&serde_json::from_str::<serde_json::Value>(text).expect("test JSON"))
}

fn doc(body: &str) -> Json {
    parse(&format!(r#"{{"finance": {{"result": [{{"documents": [{}]}}]}}}}"#, body))
}

#[test]
fn predefined_calendars() {
    let p = predef("sp_earnings").unwrap();
    assert_eq!(p.sort_field, "intradaymarketcap");
    assert_eq!(p.include_fields.len(), 9);
    assert_eq!(predef("splits").unwrap().include_fields[0], "ticker");
    match predef("weather") {
        Err(YfError::NotSupported(m)) => assert_eq!(m, "unknown calendar type 'weather'"),
        _ => panic!("expected NotSupported"),
    }
}

#[test]
fn query_operator_is_uppercased() {
    let q = CalendarQuery::new("eq", vec![CalendarOperand::value(Json::Str("region".to_string()))]);
    assert_eq!(q.operator, "EQ");
    let d = q.to_dict();
    assert_eq!(d.get_key("operator").and_then(|o| o.as_str()), Some("EQ"));
    assert_eq!(d.get_key("operands").and_then(|o| o.as_array()).map(|a| a.len()), Some(1));
}

#[test]
fn earnings_query_shape() {
    let d = earnings_calendar_query("2025-01-01", "2025-01-31").to_dict();
    assert_eq!(d.get_key("operator").and_then(|o| o.as_str()), Some("AND"));
    let ops = d.get_key("operands").and_then(|o| o.as_array()).unwrap();
    assert_eq!(ops.len(), 4);
    assert_eq!(ops[1].get_key("operator").and_then(|o| o.as_str()), Some("OR"));
    let lte = ops[3].get_key("operands").and_then(|o| o.as_array()).unwrap();
    assert_eq!(lte[0].as_str(), Some("startdatetime"));
    assert_eq!(lte[1].as_str(), Some("2025-01-31"));
}

#[test]
fn ipo_and_range_queries() {
    let d = ipo_calendar_query("a", "b").to_dict();
    assert_eq!(d.get_key("operator").and_then(|o| o.as_str()), Some("OR"));
    let ops = d.get_key("operands").and_then(|o| o.as_array()).unwrap();
    assert_eq!(ops.len(), 3);
    assert_eq!(ops[0].get_key("operator").and_then(|o| o.as_str()), Some("GTELT"));
    let e = economic_calendar_query("a", "b").to_dict();
    let s = splits_calendar_query("a", "b").to_dict();
    assert_eq!(format!("{:?}", e), format!("{:?}", s));
}

#[test]
fn body_caps_size_and_names_calendar() {
    let q = economic_calendar_query("2025-01-01", "2025-01-02");
    let b = calendar_body("economic_event", &q, 250, 5).unwrap();
    assert!(matches!(b.get_key("size"), Some(Json::Number(JsonNumber::PosInt(100)))));
    assert!(matches!(b.get_key("offset"), Some(Json::Number(JsonNumber::PosInt(5)))));
    assert_eq!(b.get_key("entityIdType").and_then(|x| x.as_str()), Some("economic_event"));
    assert_eq!(b.get_key("sortType").and_then(|x| x.as_str()), Some("DESC"));
    assert_eq!(b.get_key("includeFields").and_then(|x| x.as_array()).map(|a| a.len()), Some(8));
    let b = calendar_body("economic_event", &q, 20, 0).unwrap();
    assert!(matches!(b.get_key("size"), Some(Json::Number(JsonNumber::PosInt(20)))));
    assert!(calendar_body("nope", &q, 20, 0).is_err());
    assert_eq!(
        calendar_params(),
        vec![("lang".to_string(), "en-US".to_string()), ("region".to_string(), "US".to_string())]
    );
}

#[test]
fn parses_visualization_documents() {
    let v = doc(
        r#"{"columns": [
                {"label": "Symbol", "type": "STRING"},
                {"label": "Event Start Date", "type": "DATETIME", "name": "startdatetime"},
                {"label": "Event Start Date", "type": "STRING"},
                {"type": "NUMBER"}
            ],
            "rows": [["AAPL", "2025-10-30", "AMC", 1.5], "not a row", ["MSFT"]]}"#,
    );
    let r = parse_documents("sp_earnings", &v).unwrap();
    assert_eq!(r.calendar_type, "sp_earnings");
    assert_eq!(r.columns.len(), 4);
    assert_eq!(r.columns[0].label, "Symbol");
    assert_eq!(r.columns[0].name, "Symbol");
    assert_eq!(r.columns[1].name, "startdatetime");
    assert_eq!(r.columns[2].label, "Timing");
    assert_eq!(r.columns[2].col_type.as_deref(), Some("STRING"));
    assert_eq!(r.columns[3].label, "");
    assert_eq!(r.rows.len(), 2);
    assert_eq!(r.rows[1].len(), 1);
    let recs = r.records();
    assert_eq!(recs.len(), 2);
    let first = &recs[0];
    assert_eq!(str_field(first, "Symbol").as_deref(), Some("AAPL"));
    assert_eq!(str_field(first, "Timing").as_deref(), Some("AMC"));
    assert_eq!(str_field(first, "Event Start Date").as_deref(), Some("2025-10-30"));
    assert_eq!(str_field(&recs[1], "Timing"), None);
}

#[test]
fn records_keep_last_duplicate_label() {
    let v = doc(
        r#"{"columns": [{"label": "A"}, {"label": "A"}], "rows": [["first", "second"]]}"#,
    );
    let r = parse_documents("splits", &v).unwrap();
    let recs = r.records();
    assert_eq!(recs[0].len(), 1);
    assert_eq!(str_field(&recs[0], "A").as_deref(), Some("second"));
}

#[test]
fn missing_document_is_an_error() {
    match parse_documents("ipo_info", &parse(r#"{"finance": {"result": [{"documents": []}]}}"#)) {
        Err(YfError::DataMissing(m)) => assert_eq!(m, "calendar ipo_info"),
        _ => panic!("expected DataMissing"),
    }
}

#[test]
fn economic_and_split_events_by_field() {
    let v = doc(
        r#"{"columns": [], "rows": [["CPI", "US", "2025-01-15", "Dec", 1.0], ["GDP"]]}"#,
    );
    let r = parse_documents("economic_event", &v).unwrap();
    let ev = economic_events(&r);
    assert_eq!(ev.len(), 2);
    assert_eq!(ev[0].ticker.as_deref(), Some("CPI"));
    assert_eq!(ev[0].companies.as_deref(), Some("US"));
    assert_eq!(ev[0].start_date.as_deref(), Some("2025-01-15"));
    assert_eq!(ev[0].time.as_deref(), Some("Dec"));
    assert_eq!(ev[1].companies, None);
    let v = doc(r#"{"rows": [["NVDA", "NVIDIA", "2024-06-10", true, 1, 10]]}"#);
    let sp = split_events(&parse_documents("splits", &v).unwrap());
    assert_eq!(sp[0].ticker.as_deref(), Some("NVDA"));
    assert_eq!(sp[0].companies.as_deref(), Some("NVIDIA"));
    assert_eq!(sp[0].time, None);
}

#[test]
fn zip_fields_pairs_by_position() {
    let row = vec![Json::Str("AAPL".to_string()), Json::Null];
    let rec = zip_fields(&row, &vec!["ticker", "companyshortname", "startdatetime"]);
    assert_eq!(rec.len(), 2);
    assert_eq!(str_field(&rec, "ticker").as_deref(), Some("AAPL"));
    assert_eq!(str_field(&rec, "companyshortname"), None);
    assert_eq!(str_field(&rec, "startdatetime"), None);
}
