use adaq_data_stock_us::config::Locale;
use adaq_data_stock_us::json::{Json, JsonNumber};
use adaq_data_stock_us::screener::{
    plan_predefined, predefined_entry, quote_name, quote_volume, screen_custom_body,
    screen_params, screener_result_node, Operand, Operator, PredefinedPlan, Query, QueryKind,
    ScreenOptions, ScreenerValue, PREDEFINED_SCREENER_QUERIES,
};
use adaq_data_stock_us::YfError;

fn to_json(v: &serde_json::Value) -> Json {
    match v {
        serde_json::Value::Null => Json::Null,
        serde_json::Value::Bool(b) => Json::Bool(*b),
        serde_json::Value::Number(n) => {
            if let Some(u) = n.as_u64() {
                Json::Number(JsonNumber::PosInt(u))
            } else if let Some(i) = n.as_i64() {
                Json::Number(JsonNumber::NegInt(i))
            } else {
                let f = n.as_f64().unwrap_or(0.0);
                Json::Number(JsonNumber::Float { bits: f.to_bits(), as_i64: f as i64, as_u64: f as u64 })
            }
        }
        serde_json::Value::String(s) => Json::Str(s.clone()),
        serde_json::Value::Array(a) => Json::Array(a.iter().map(to_json).collect()),
        serde_json::Value::Object(m) => {
            Json::Object(m.iter().map(|(k, v)| (k.clone(), to_json(v))).collect())
        }
    }
}

fn parse(text: &str) -> Json {
    to_json(&serde_json::from_str::<serde_json::Value>(text).expect("test JSON"))
}

fn param<'a>(p: &'a [(String, String)], k: &str) -> Option<&'a str> {
    p.iter().find(|(a, _)| a == k).map(|(_, b)| b.as_str())
}

#[test]
fn operator_and_kind_names() {
    assert_eq!(Operator::IsIn.as_str(), "IS-IN");
    assert_eq!(Operator::Gte.as_str(), "GTE");
    assert_eq!(QueryKind::Fund.quote_type(), "MUTUALFUND");
    assert_eq!(QueryKind::Etf.quote_type(), "ETF");
}

#[test]
fn query_to_value_nests() {
    let q = Query::equity(
        Operator::And,
        vec![
            Operand::query(Query::equity(
                Operator::Gt,
                vec![Operand::field("percentchange"), Operand::value(ScreenerValue::integer(3))],
            )),
            Operand::query(Query::equity(
                Operator::Eq,
                vec![Operand::field("region"), Operand::value(ScreenerValue::text("us"))],
            )),
        ],
    );
    let v = q.to_value();
    assert_eq!(v.get_key("operator").and_then(|o| o.as_str()), Some("AND"));
    let ops = v.get_key("operands").and_then(|o| o.as_array()).unwrap();
    assert_eq!(ops.len(), 2);
    assert_eq!(ops[0].get_key("operator").and_then(|o| o.as_str()), Some("GT"));
    let gt = ops[0].get_key("operands").and_then(|o| o.as_array()).unwrap();
    assert_eq!(gt[0].as_str(), Some("percentchange"));
    assert!(matches!(gt[1], Json::Number(JsonNumber::PosInt(3))));
}

#[test]
fn is_in_expands_to_or_of_eq() {
    let q = Query::equity(
        Operator::IsIn,
        vec![
            Operand::field("exchange"),
            Operand::value(ScreenerValue::text("NMS")),
            Operand::value(ScreenerValue::text("NYQ")),
        ],
    );
    let v = q.to_value();
    assert_eq!(v.get_key("operator").and_then(|o| o.as_str()), Some("OR"));
    let ops = v.get_key("operands").and_then(|o| o.as_array()).unwrap();
    assert_eq!(ops.len(), 2);
    for (op, val) in ops.iter().zip(["NMS", "NYQ"]) {
        assert_eq!(op.get_key("operator").and_then(|o| o.as_str()), Some("EQ"));
        let pair = op.get_key("operands").and_then(|o| o.as_array()).unwrap();
        assert_eq!(pair[0].as_str(), Some("exchange"));
        assert_eq!(pair[1].as_str(), Some(val));
    }
    let empty = Query::fund(Operator::IsIn, vec![]).to_value();
    assert_eq!(empty.get_key("operands").and_then(|o| o.as_array()).map(|a| a.len()), Some(0));
}

#[test]
fn custom_defaults_spelled_out() {
    let o = ScreenOptions::custom_defaults();
    assert_eq!(o.offset, Some(0));
    assert_eq!(o.count, Some(25));
    assert_eq!(o.sort_field.as_deref(), Some("ticker"));
    assert_eq!(o.sort_asc, Some(false));
    assert_eq!(o.user_id.as_deref(), Some(""));
    assert_eq!(o.user_id_type.as_deref(), Some("guid"));
    assert_eq!(o.size, None);
}

#[test]
fn custom_body_defaults_and_size() {
    let q = Json::Null;
    let b = screen_custom_body(&q, "EQUITY", &ScreenOptions::default());
    assert!(matches!(b.get_key("offset"), Some(Json::Number(JsonNumber::PosInt(0)))));
    assert!(matches!(b.get_key("count"), Some(Json::Number(JsonNumber::PosInt(25)))));
    assert_eq!(b.get_key("sortField").and_then(|x| x.as_str()), Some("ticker"));
    assert_eq!(b.get_key("sortType").and_then(|x| x.as_str()), Some("DESC"));
    assert_eq!(b.get_key("userIdType").and_then(|x| x.as_str()), Some("guid"));
    assert_eq!(b.get_key("quoteType").and_then(|x| x.as_str()), Some("EQUITY"));
    assert!(b.get_key("size").is_none());
    let mut o = ScreenOptions::default();
    o.size = Some(50);
    o.sort_asc = Some(true);
    let b = screen_custom_body(&q, "ETF", &o);
    assert!(matches!(b.get_key("size"), Some(Json::Number(JsonNumber::PosInt(50)))));
    assert_eq!(b.get_key("sortType").and_then(|x| x.as_str()), Some("ASC"));
}

#[test]
fn predefined_saved_plan_uses_entry_defaults() {
    let table = parse(PREDEFINED_SCREENER_QUERIES);
    let entry = predefined_entry(&table, "day_losers").unwrap();
    let plan = plan_predefined(entry, "day_losers", &ScreenOptions::default(), &Locale::new());
    match plan {
        PredefinedPlan::Saved { params } => {
            assert_eq!(param(&params, "scrIds"), Some("day_losers"));
            assert_eq!(param(&params, "sortField"), Some("percentchange"));
            assert_eq!(param(&params, "sortAsc"), Some("true"));
            assert_eq!(param(&params, "count"), Some("25"));
            assert_eq!(param(&params, "offset"), Some("0"));
            assert_eq!(param(&params, "lang"), Some("en"));
            assert_eq!(param(&params, "userIdType"), Some("guid"));
        }
        _ => panic!("expected the saved endpoint"),
    }
    let entry = predefined_entry(&table, "most_shorted_stocks").unwrap();
    match plan_predefined(entry, "most_shorted_stocks", &ScreenOptions::default(), &Locale::new()) {
        PredefinedPlan::Saved { params } => assert_eq!(param(&params, "count"), Some("25")),
        _ => panic!("expected the saved endpoint"),
    }
    let entry = predefined_entry(&table, "growth_technology_stocks").unwrap();
    match plan_predefined(entry, "growth_technology_stocks", &ScreenOptions::default(), &Locale::new()) {
        PredefinedPlan::Saved { params } => assert_eq!(param(&params, "sortAsc"), Some("false")),
        _ => panic!("expected the saved endpoint"),
    }
}

#[test]
fn predefined_with_offset_runs_as_custom() {
    let table = parse(PREDEFINED_SCREENER_QUERIES);
    let entry = predefined_entry(&table, "top_etfs_us").unwrap();
    let mut o = ScreenOptions::default();
    o.offset = Some(10);
    match plan_predefined(entry, "top_etfs_us", &o, &Locale::new()) {
        PredefinedPlan::Custom { query, quote_type } => {
            assert_eq!(quote_type, "ETF");
            assert_eq!(query.get_key("operator").and_then(|x| x.as_str()), Some("AND"));
        }
        _ => panic!("expected a custom screen"),
    }
}

#[test]
fn unknown_predefined_screen() {
    let table = parse(PREDEFINED_SCREENER_QUERIES);
    match predefined_entry(&table, "nope") {
        Err(YfError::NotSupported(m)) => assert_eq!(m, "unknown predefined screener 'nope'"),
        _ => panic!("expected NotSupported"),
    }
}

#[test]
fn screen_result_and_quote_fields() {
    let v = parse(
        r#"{"finance": {"result": [{"total": 1, "quotes": [
            {"symbol": "AAPL", "shortName": "Apple", "regularMarketVolume": {"raw": 100}},
            {"shortname": 5, "shortName": "ignored", "regularMarketVolume": 7}
        ]}]}}"#,
    );
    let r = screener_result_node(&v).unwrap();
    let quotes = r.get_key("quotes").and_then(|q| q.as_array()).unwrap();
    assert_eq!(quote_name(&quotes[0], "shortname", "shortName").as_deref(), Some("Apple"));
    assert_eq!(quote_name(&quotes[1], "shortname", "shortName"), None);
    assert_eq!(quote_volume(&quotes[0]), Some(100));
    assert_eq!(quote_volume(&quotes[1]), Some(7));
    match screener_result_node(&parse("{}")) {
        Err(YfError::DataMissing(m)) => assert_eq!(m, "screener result"),
        _ => panic!("expected DataMissing"),
    }
    let p = screen_params(&Locale::new());
    assert_eq!(param(&p, "corsDomain"), Some("finance.yahoo.com"));
    assert_eq!(param(&p, "formatted"), Some("false"));
}

#[test]
fn query_kinds_of_constructors() {
    let e = Query::etf(Operator::Eq, vec![Operand::field("region"), Operand::value(ScreenerValue::text("us"))]);
    assert_eq!(e.kind, QueryKind::Etf);
    assert_eq!(e.kind.quote_type(), "ETF");
    let f = Query::fund(Operator::Gt, vec![Operand::field("intradayprice"), Operand::value(ScreenerValue::integer(15))]);
    assert_eq!(f.kind, QueryKind::Fund);
    let q = Query::equity(Operator::Lt, vec![Operand::field("percentchange"), Operand::value(ScreenerValue::integer(-3))]);
    assert_eq!(q.kind, QueryKind::Equity);
    let v = q.to_value();
    let ops = v.get_key("operands").and_then(|o| o.as_array()).unwrap();
    assert!(matches!(ops[1], Json::Number(JsonNumber::NegInt(-3))));
    assert_eq!(v.get_key("operator").and_then(|o| o.as_str()), Some("LT"));
}
