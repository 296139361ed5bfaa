//! A ticker's earnings dates, from the visualization endpoint: the request
//! and the rows of the reply.

use vstd::prelude::*;

use crate::config::Locale;
use crate::error::YfError;
use crate::http::{pairs_view, QUERY1};
use crate::json::{
    clone_items, first_result, items_view, lemma_items_view, lemma_members_view, member,
    members_view, Json, JsonNumber, JsonV,
};
use crate::text::{concat2, string_from_chars};

verus! {

/// The most dates one request may ask for.
pub const EARNINGS_LIMIT_MAX: usize = 100;

/// The URL of an earnings-dates request.
pub fn earnings_dates_url() -> (u: String)
    ensures
        u@ == QUERY1@ + "/v1/finance/visualization"@,
{
    concat2(QUERY1, "/v1/finance/visualization")
}

/// The query parameters of an earnings-dates request: the locale.
pub fn earnings_dates_params(locale: &Locale) -> (p: Vec<(String, String)>)
    ensures
        pairs_view(p@) == seq![("lang"@, locale.lang@), ("region"@, locale.region@)],
{
    let p = vec![
        ("lang".to_owned(), locale.lang.clone()),
        ("region".to_owned(), locale.region.clone()),
    ];
    assert(pairs_view(p@) =~= seq![("lang"@, locale.lang@), ("region"@, locale.region@)]);
    p
}

/// The fields an earnings-dates request includes.
pub open spec fn earnings_date_fields() -> Seq<Seq<char>> {
    seq![
        "startdatetime"@,
        "timeZoneShortName"@,
        "epsestimate"@,
        "epsactual"@,
        "epssurprisepct"@,
        "eventtype"@,
    ]
}

/// The POST body of an earnings-dates request.
pub open spec fn earnings_body_json(ticker: Seq<char>, limit: usize) -> JsonV {
    JsonV::Object(
        seq![
            ("size"@, JsonV::Number(JsonNumber::PosInt(limit as u64))),
            ("query"@, JsonV::Object(
                seq![
                    ("operator"@, JsonV::Str("eq"@)),
                    ("operands"@, JsonV::Array(seq![JsonV::Str("ticker"@), JsonV::Str(ticker)])),
                ],
            )),
            ("sortField"@, JsonV::Str("startdatetime"@)),
            ("sortType"@, JsonV::Str("DESC"@)),
            ("entityIdType"@, JsonV::Str("earnings"@)),
            ("includeFields"@, JsonV::Array(
                earnings_date_fields().map_values(|f: Seq<char>| JsonV::Str(f)),
            )),
        ],
    )
}

/// The message of the error for a limit above the cap.
pub open spec fn limit_message() -> Seq<char> {
    "Yahoo caps limit at 100"@
}

/// The POST body of an earnings-dates request for up to `limit` dates;
/// `Msg` when `limit` is above 100.
pub fn earnings_dates_body(ticker: &str, limit: usize) -> (r: Result<Json, YfError>)
    ensures
        limit > EARNINGS_LIMIT_MAX <==> r is Err,
        r matches Err(e) ==> (e matches YfError::Msg(m) && m@ == limit_message()),
        r matches Ok(b) ==> b@ == earnings_body_json(ticker@, limit),
{
    if limit > EARNINGS_LIMIT_MAX {
        return Err(YfError::msg("Yahoo caps limit at 100"));
    }
    let operands = vec![Json::Str("ticker".to_owned()), Json::Str(ticker.to_owned())];
    let ghost ov = operands@;
    let query = vec![
        ("operator".to_owned(), Json::Str("eq".to_owned())),
        ("operands".to_owned(), Json::Array(operands)),
    ];
    let ghost qv = query@;
    let fields = vec![
        Json::Str("startdatetime".to_owned()),
        Json::Str("timeZoneShortName".to_owned()),
        Json::Str("epsestimate".to_owned()),
        Json::Str("epsactual".to_owned()),
        Json::Str("epssurprisepct".to_owned()),
        Json::Str("eventtype".to_owned()),
    ];
    let ghost fv = fields@;
    let members = vec![
        ("size".to_owned(), Json::Number(JsonNumber::PosInt(limit as u64))),
        ("query".to_owned(), Json::Object(query)),
        ("sortField".to_owned(), Json::Str("startdatetime".to_owned())),
        ("sortType".to_owned(), Json::Str("DESC".to_owned())),
        ("entityIdType".to_owned(), Json::Str("earnings".to_owned())),
        ("includeFields".to_owned(), Json::Array(fields)),
    ];
    let ghost mv = members@;
    proof {
        lemma_items_view(ov);
        lemma_items_view(fv);
        lemma_members_view(qv);
        lemma_members_view(mv);
        assert(items_view(ov) =~= seq![JsonV::Str("ticker"@), JsonV::Str(ticker@)]);
        assert(items_view(fv) =~= earnings_date_fields().map_values(|f: Seq<char>| JsonV::Str(f)));
        assert(members_view(qv) =~= seq![
            ("operator"@, JsonV::Str("eq"@)),
            ("operands"@, JsonV::Array(seq![JsonV::Str("ticker"@), JsonV::Str(ticker@)])),
        ]);
        assert(members_view(mv) =~= earnings_body_json(ticker@, limit)->Object_0);
    }
    Ok(Json::Object(members))
}

/// `finance.result[0].documents[0]` of a reply.
pub open spec fn earnings_doc(v: JsonV) -> Option<JsonV> {
    match first_result(v, "finance"@) {
        Some(r) => match member(r, "documents"@) {
            Some(JsonV::Array(ds)) => if ds.len() > 0 {
                Some(ds[0])
            } else {
                None
            },
            _ => None,
        },
        None => None,
    }
}

/// The rows of a document: its `rows` array, none when absent.
pub open spec fn doc_rows(d: JsonV) -> Seq<JsonV> {
    match member(d, "rows"@) {
        Some(JsonV::Array(rs)) => rs,
        _ => seq![],
    }
}

/// The message of the error for a reply without a document.
pub open spec fn dates_missing_message(ticker: Seq<char>) -> Seq<char> {
    "earnings dates missing for "@ + ticker
}

/// The rows of an earnings-dates reply; `DataMissing` when there is no
/// document.
pub fn earnings_rows(v: &Json, ticker: &str) -> (r: Result<Vec<Json>, YfError>)
    ensures
        r is Err <==> earnings_doc(v@) is None,
        r matches Err(e) ==> (e matches YfError::DataMissing(m) && m@ == dates_missing_message(
            ticker@,
        )),
        r matches Ok(rows) ==> (earnings_doc(v@) matches Some(d) && items_view(rows@) == doc_rows(
            d,
        )),
{
    let doc: &Json = match crate::json::yf_result_first(v, "finance") {
        Ok(first) => match first.get_key("documents") {
            Some(dn) => match dn.as_array() {
                Some(a) => {
                    proof {
                        lemma_items_view(a@);
                    }
                    if a.len() > 0 {
                        &a[0]
                    } else {
                        return Err(YfError::DataMissing(concat2("earnings dates missing for ", ticker)));
                    }
                },
                None => {
                    return Err(YfError::DataMissing(concat2("earnings dates missing for ", ticker)));
                },
            },
            None => {
                return Err(YfError::DataMissing(concat2("earnings dates missing for ", ticker)));
            },
        },
        Err(_) => {
            return Err(YfError::DataMissing(concat2("earnings dates missing for ", ticker)));
        },
    };
    match doc.get_key("rows") {
        Some(rn) => match rn.as_array() {
            Some(rows) => Ok(clone_items(rows)),
            None => {
                let e: Vec<Json> = Vec::new();
                assert(items_view(e@) =~= seq![]);
                Ok(e)
            },
        },
        None => {
            let e: Vec<Json> = Vec::new();
            assert(items_view(e@) =~= seq![]);
            Ok(e)
        },
    }
}

/// One earnings-date row, its numbers as sent and its date as text.
#[derive(Debug, Clone)]
pub struct EarningsRowFields {
    pub start: Option<String>,
    pub eps_estimate: Option<JsonNumber>,
    pub eps_actual: Option<JsonNumber>,
    pub surprise_pct: Option<JsonNumber>,
    pub event_type: Option<String>,
}

/// Reads one earnings-date row: each field the member of that label.
pub fn parse_earnings_row(row: &Json) -> (f: EarningsRowFields)
    ensures
        crate::json::opt_string_view(f.start) == crate::json::member_str(row@, "Event Start Date"@),
        f.eps_estimate == crate::json::member_number(row@, "EPS Estimate"@),
        f.eps_actual == crate::json::member_number(row@, "Reported EPS"@),
        f.surprise_pct == crate::json::member_number(row@, "Surprise (%)"@),
        crate::json::opt_string_view(f.event_type) == crate::json::member_str(row@, "Event Type"@),
{
    EarningsRowFields {
        start: crate::json::get_member_string(row, "Event Start Date"),
        eps_estimate: crate::json::get_member_number(row, "EPS Estimate"),
        eps_actual: crate::json::get_member_number(row, "Reported EPS"),
        surprise_pct: crate::json::get_member_number(row, "Surprise (%)"),
        event_type: crate::json::get_member_string(row, "Event Type"),
    }
}

} // verus!
