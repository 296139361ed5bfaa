//! Calendars (earnings / IPO / economic / splits), served by the
//! `v1/finance/visualization` endpoint.
//!
//! A calendar request POSTs a query tree (`operator` + `operands`) together
//! with an `entityIdType` naming the calendar; the reply comes back as
//! `finance.result[0].documents[0]` with parallel `columns` / `rows`.

use vstd::prelude::*;

use crate::error::YfError;
use crate::json::{
    clone_items, first_result, get_member_str, get_member_string, items_view, lemma_items_view,
    member, member_str, opt_string_view, str_of, yf_result_first, Json, JsonNumber, JsonV,
};
use crate::text::{concat2, concat3, str_eq};

verus! {

/// The visualization endpoint that serves every calendar.
pub const VIZ_URL: &'static str = "https://query1.finance.yahoo.com/v1/finance/visualization";

/// Names Unicode upper-casing of a string (`str::to_uppercase`).
pub uninterp spec fn unicode_uppercase(s: Seq<char>) -> Seq<char>;

/// Wraps `str::to_uppercase`: the result is named by [`unicode_uppercase`];
/// how Unicode case mapping works is not stated here.
#[verifier::external_body]
fn to_uppercase(s: &str) -> (r: String)
    ensures
        r@ == unicode_uppercase(s@),
{
    s.to_uppercase()
}

/// String slices as character sequences.
pub open spec fn strs_view(s: Seq<&str>) -> Seq<Seq<char>> {
    s.map_values(|x: &str| x@)
}

/// Metadata of a predefined calendar: the field it sorts by and the fields a
/// request includes, in the order the reply's columns come back.
pub struct Predef {
    pub sort_field: &'static str,
    pub include_fields: Vec<&'static str>,
}

/// The fields of the earnings calendar.
pub open spec fn earnings_fields() -> Seq<Seq<char>> {
    seq![
        "ticker"@,
        "companyshortname"@,
        "intradaymarketcap"@,
        "eventname"@,
        "startdatetime"@,
        "startdatetimetype"@,
        "epsestimate"@,
        "epsactual"@,
        "epssurprisepct"@,
    ]
}

/// The fields of the IPO calendar.
pub open spec fn ipo_fields() -> Seq<Seq<char>> {
    seq![
        "ticker"@,
        "companyshortname"@,
        "exchange_short_name"@,
        "filingdate"@,
        "startdatetime"@,
        "amendeddate"@,
        "pricefrom"@,
        "priceto"@,
        "offerprice"@,
        "currencyname"@,
        "shares"@,
        "dealtype"@,
    ]
}

/// The fields of the economic-events calendar.
pub open spec fn economic_fields() -> Seq<Seq<char>> {
    seq![
        "econ_release"@,
        "country_code"@,
        "startdatetime"@,
        "period"@,
        "after_release_actual"@,
        "consensus_estimate"@,
        "prior_release_actual"@,
        "originally_reported_actual"@,
    ]
}

/// The fields of the splits calendar.
pub open spec fn splits_fields() -> Seq<Seq<char>> {
    seq![
        "ticker"@,
        "companyshortname"@,
        "startdatetime"@,
        "optionable"@,
        "old_share_worth"@,
        "share_worth"@,
    ]
}

/// The predefined calendars, by `entityIdType`: sort field and fields.
pub open spec fn predef_spec(cal: Seq<char>) -> Option<(Seq<char>, Seq<Seq<char>>)> {
    if cal == "sp_earnings"@ {
        Some(("intradaymarketcap"@, earnings_fields()))
    } else if cal == "ipo_info"@ {
        Some(("startdatetime"@, ipo_fields()))
    } else if cal == "economic_event"@ {
        Some(("startdatetime"@, economic_fields()))
    } else if cal == "splits"@ {
        Some(("startdatetime"@, splits_fields()))
    } else {
        None
    }
}

/// The view of a [`Predef`].
pub open spec fn predef_view(p: Predef) -> (Seq<char>, Seq<Seq<char>>) {
    (p.sort_field@, strs_view(p.include_fields@))
}

/// The earnings calendar's metadata.
pub fn earnings_predef() -> (p: Predef)
    ensures
        predef_view(p) == ("intradaymarketcap"@, earnings_fields()),
{
    let f = vec![
        "ticker",
        "companyshortname",
        "intradaymarketcap",
        "eventname",
        "startdatetime",
        "startdatetimetype",
        "epsestimate",
        "epsactual",
        "epssurprisepct",
    ];
    assert(strs_view(f@) =~= earnings_fields());
    Predef { sort_field: "intradaymarketcap", include_fields: f }
}

/// The IPO calendar's metadata.
pub fn ipo_predef() -> (p: Predef)
    ensures
        predef_view(p) == ("startdatetime"@, ipo_fields()),
{
    let f = vec![
        "ticker",
        "companyshortname",
        "exchange_short_name",
        "filingdate",
        "startdatetime",
        "amendeddate",
        "pricefrom",
        "priceto",
        "offerprice",
        "currencyname",
        "shares",
        "dealtype",
    ];
    assert(strs_view(f@) =~= ipo_fields());
    Predef { sort_field: "startdatetime", include_fields: f }
}

/// The economic-events calendar's metadata.
pub fn economic_predef() -> (p: Predef)
    ensures
        predef_view(p) == ("startdatetime"@, economic_fields()),
{
    let f = vec![
        "econ_release",
        "country_code",
        "startdatetime",
        "period",
        "after_release_actual",
        "consensus_estimate",
        "prior_release_actual",
        "originally_reported_actual",
    ];
    assert(strs_view(f@) =~= economic_fields());
    Predef { sort_field: "startdatetime", include_fields: f }
}

/// The splits calendar's metadata.
pub fn splits_predef() -> (p: Predef)
    ensures
        predef_view(p) == ("startdatetime"@, splits_fields()),
{
    let f = vec![
        "ticker",
        "companyshortname",
        "startdatetime",
        "optionable",
        "old_share_worth",
        "share_worth",
    ];
    assert(strs_view(f@) =~= splits_fields());
    Predef { sort_field: "startdatetime", include_fields: f }
}

/// The message of the error for an unknown calendar type.
pub open spec fn unknown_calendar_message(cal: Seq<char>) -> Seq<char> {
    "unknown calendar type '"@ + cal + "'"@
}

/// The metadata of a predefined calendar; `NotSupported` for an unknown one.
pub fn predef(cal_type: &str) -> (r: Result<Predef, YfError>)
    ensures
        r matches Ok(p) ==> predef_spec(cal_type@) == Some(predef_view(p)),
        r is Err <==> predef_spec(cal_type@) is None,
        r matches Err(e) ==> (e matches YfError::NotSupported(m) && m@ == unknown_calendar_message(
            cal_type@,
        )),
{
    if str_eq(cal_type, "sp_earnings") {
        Ok(earnings_predef())
    } else if str_eq(cal_type, "ipo_info") {
        Ok(ipo_predef())
    } else if str_eq(cal_type, "economic_event") {
        Ok(economic_predef())
    } else if str_eq(cal_type, "splits") {
        Ok(splits_predef())
    } else {
        Err(YfError::NotSupported(concat3("unknown calendar type '", cal_type, "'")))
    }
}

/// One operand of a [`CalendarQuery`]: a nested sub-query or a literal value
/// (a field name or a comparison value).
#[derive(Debug)]
pub enum CalendarOperand {
    Query(Box<CalendarQuery>),
    Value(Json),
}

/// A calendar query: an operator and its operands.
#[derive(Debug)]
pub struct CalendarQuery {
    pub operator: String,
    pub operands: Vec<CalendarOperand>,
}

/// The `{"operator", "operands"}` JSON shape of a query.
pub open spec fn query_json(q: CalendarQuery) -> JsonV
    decreases q, 0nat,
{
    JsonV::Object(
        seq![
            ("operator"@, JsonV::Str(q.operator@)),
            ("operands"@, JsonV::Array(operands_json(q.operands@))),
        ],
    )
}

/// The JSON of each operand.
pub open spec fn operands_json(s: Seq<CalendarOperand>) -> Seq<JsonV>
    decreases s, 1nat,
{
    if s.len() == 0 {
        seq![]
    } else {
        operands_json(s.drop_last()).push(
            match s.last() {
                CalendarOperand::Query(q) => query_json(*q),
                CalendarOperand::Value(v) => v@,
            },
        )
    }
}

/// The JSON of one operand.
pub open spec fn operand_json(o: CalendarOperand) -> JsonV {
    match o {
        CalendarOperand::Query(q) => query_json(*q),
        CalendarOperand::Value(v) => v@,
    }
}

pub proof fn lemma_operands_json(s: Seq<CalendarOperand>)
    ensures
        operands_json(s).len() == s.len(),
        forall|i: int| 0 <= i < s.len() ==> #[trigger] operands_json(s)[i] == operand_json(s[i]),
    decreases s.len(),
{
    if s.len() > 0 {
        lemma_operands_json(s.drop_last());
    }
}

impl CalendarOperand {
    /// A literal value / field-name operand.
    pub fn value(v: Json) -> (o: CalendarOperand)
        ensures
            o == CalendarOperand::Value(v),
    {
        CalendarOperand::Value(v)
    }

    /// A nested sub-query operand.
    pub fn query(q: CalendarQuery) -> (o: CalendarOperand)
        ensures
            o == CalendarOperand::Query(Box::new(q)),
    {
        CalendarOperand::Query(Box::new(q))
    }
}

impl CalendarQuery {
    /// A query; the operator is upper-cased.
    pub fn new(operator: &str, operands: Vec<CalendarOperand>) -> (q: CalendarQuery)
        ensures
            q.operator@ == unicode_uppercase(operator@),
            q.operands == operands,
    {
        CalendarQuery { operator: to_uppercase(operator), operands }
    }

    /// The query in Yahoo's `{"operator", "operands"}` shape.
    pub fn to_dict(&self) -> (r: Json)
        ensures
            r@ == query_json(*self),
        decreases self,
    {
        let mut ops: Vec<Json> = Vec::new();
        let mut i: usize = 0;
        while i < self.operands.len()
            invariant
                i <= self.operands@.len(),
                items_view(ops@) == operands_json(self.operands@.take(i as int)),
            decreases self.operands@.len() - i,
        {
            proof {
                assert(decreases_to!(*self => self.operands));
                assert(decreases_to!(self.operands => self.operands@));
                assert(decreases_to!(self.operands@ => self.operands@[i as int]));
            }
            let ghost prev = ops@;
            let j = match &self.operands[i] {
                CalendarOperand::Query(q) => {
                    proof {
                        assert(decreases_to!(self.operands@[i as int] => **q));
                    }
                    q.to_dict()
                },
                CalendarOperand::Value(v) => v.clone(),
            };
            ops.push(j);
            i = i + 1;
            assert(self.operands@.take(i as int).drop_last() =~= self.operands@.take(i - 1));
            assert(ops@.drop_last() =~= prev);
        }
        assert(self.operands@.take(self.operands@.len() as int) =~= self.operands@);
        let members = vec![
            ("operator".to_owned(), Json::Str(self.operator.clone())),
            ("operands".to_owned(), Json::Array(ops)),
        ];
        let ghost mv = members@;
        let r = Json::Object(members);
        proof {
            crate::json::lemma_members_view(mv);
            assert(mv[1].1@ == JsonV::Array(operands_json(self.operands@)));
            assert(crate::json::members_view(mv) =~= seq![
                ("operator"@, JsonV::Str(self.operator@)),
                ("operands"@, JsonV::Array(operands_json(self.operands@))),
            ]);
        }
        r
    }
}

/// The JSON of a query node: operator `op` (upper-cased) over the given
/// operand values.
pub open spec fn op_node(op: Seq<char>, operands: Seq<JsonV>) -> JsonV {
    JsonV::Object(
        seq![
            ("operator"@, JsonV::Str(unicode_uppercase(op))),
            ("operands"@, JsonV::Array(operands)),
        ],
    )
}

/// String values as JSON strings.
pub open spec fn texts(s: Seq<Seq<char>>) -> Seq<JsonV> {
    s.map_values(|x: Seq<char>| JsonV::Str(x))
}

fn text_operand(s: &str) -> (o: CalendarOperand)
    ensures
        operand_json(o) == JsonV::Str(s@),
{
    CalendarOperand::value(Json::Str(s.to_owned()))
}

fn leaf2(op: &str, a: &str, b: &str) -> (q: CalendarQuery)
    ensures
        query_json(q) == op_node(op@, seq![JsonV::Str(a@), JsonV::Str(b@)]),
{
    let q = CalendarQuery::new(op, vec![text_operand(a), text_operand(b)]);
    proof {
        lemma_operands_json(q.operands@);
        assert(operands_json(q.operands@) =~= seq![JsonV::Str(a@), JsonV::Str(b@)]);
    }
    q
}

fn leaf3(op: &str, a: &str, b: &str, c: &str) -> (q: CalendarQuery)
    ensures
        query_json(q) == op_node(op@, seq![JsonV::Str(a@), JsonV::Str(b@), JsonV::Str(c@)]),
{
    let q = CalendarQuery::new(op, vec![text_operand(a), text_operand(b), text_operand(c)]);
    proof {
        lemma_operands_json(q.operands@);
        assert(operands_json(q.operands@) =~= seq![
            JsonV::Str(a@),
            JsonV::Str(b@),
            JsonV::Str(c@),
        ]);
    }
    q
}

fn node2(op: &str, a: CalendarQuery, b: CalendarQuery) -> (q: CalendarQuery)
    ensures
        query_json(q) == op_node(op@, seq![query_json(a), query_json(b)]),
{
    let ghost (ja, jb) = (query_json(a), query_json(b));
    let q = CalendarQuery::new(op, vec![CalendarOperand::query(a), CalendarOperand::query(b)]);
    proof {
        lemma_operands_json(q.operands@);
        assert(operands_json(q.operands@) =~= seq![ja, jb]);
    }
    q
}

fn node3(op: &str, a: CalendarQuery, b: CalendarQuery, c: CalendarQuery) -> (q: CalendarQuery)
    ensures
        query_json(q) == op_node(op@, seq![query_json(a), query_json(b), query_json(c)]),
{
    let ghost (ja, jb, jc) = (query_json(a), query_json(b), query_json(c));
    let q = CalendarQuery::new(
        op,
        vec![CalendarOperand::query(a), CalendarOperand::query(b), CalendarOperand::query(c)],
    );
    proof {
        lemma_operands_json(q.operands@);
        assert(operands_json(q.operands@) =~= seq![ja, jb, jc]);
    }
    q
}

/// The earnings-calendar query: US region, earnings-announcement events
/// (`EAD` or `ERA`), starting between `start` and `end` inclusive.
pub open spec fn earnings_query_json(start: Seq<char>, end: Seq<char>) -> JsonV {
    op_node(
        "and"@,
        seq![
            op_node("eq"@, seq![JsonV::Str("region"@), JsonV::Str("us"@)]),
            op_node(
                "or"@,
                seq![
                    op_node("eq"@, seq![JsonV::Str("eventtype"@), JsonV::Str("EAD"@)]),
                    op_node("eq"@, seq![JsonV::Str("eventtype"@), JsonV::Str("ERA"@)]),
                ],
            ),
            op_node("gte"@, seq![JsonV::Str("startdatetime"@), JsonV::Str(start)]),
            op_node("lte"@, seq![JsonV::Str("startdatetime"@), JsonV::Str(end)]),
        ],
    )
}

/// The IPO-calendar query: a start, filing or amendment date in
/// `[start, end)`.
pub open spec fn ipo_query_json(start: Seq<char>, end: Seq<char>) -> JsonV {
    op_node(
        "or"@,
        seq![
            op_node(
                "gtelt"@,
                seq![JsonV::Str("startdatetime"@), JsonV::Str(start), JsonV::Str(end)],
            ),
            op_node("gtelt"@, seq![JsonV::Str("filingdate"@), JsonV::Str(start), JsonV::Str(end)]),
            op_node(
                "gtelt"@,
                seq![JsonV::Str("amendeddate"@), JsonV::Str(start), JsonV::Str(end)],
            ),
        ],
    )
}

/// The query of the economic and splits calendars: starting between
/// `start` and `end` inclusive.
pub open spec fn range_query_json(start: Seq<char>, end: Seq<char>) -> JsonV {
    op_node(
        "and"@,
        seq![
            op_node("gte"@, seq![JsonV::Str("startdatetime"@), JsonV::Str(start)]),
            op_node("lte"@, seq![JsonV::Str("startdatetime"@), JsonV::Str(end)]),
        ],
    )
}

/// The query of the earnings calendar between two `YYYY-MM-DD` dates.
pub fn earnings_calendar_query(start: &str, end: &str) -> (q: CalendarQuery)
    ensures
        query_json(q) == earnings_query_json(start@, end@),
{
    let region = leaf2("eq", "region", "us");
    let ead = leaf2("eq", "eventtype", "EAD");
    let era = leaf2("eq", "eventtype", "ERA");
    let kind = node2("or", ead, era);
    let from = leaf2("gte", "startdatetime", start);
    let to = leaf2("lte", "startdatetime", end);
    let ghost parts = seq![query_json(region), query_json(kind), query_json(from), query_json(to)];
    let q = CalendarQuery::new(
        "and",
        vec![
            CalendarOperand::query(region),
            CalendarOperand::query(kind),
            CalendarOperand::query(from),
            CalendarOperand::query(to),
        ],
    );
    proof {
        lemma_operands_json(q.operands@);
        assert(operands_json(q.operands@) =~= parts);
    }
    q
}

/// The query of the IPO calendar between two `YYYY-MM-DD` dates.
pub fn ipo_calendar_query(start: &str, end: &str) -> (q: CalendarQuery)
    ensures
        query_json(q) == ipo_query_json(start@, end@),
{
    node3(
        "or",
        leaf3("gtelt", "startdatetime", start, end),
        leaf3("gtelt", "filingdate", start, end),
        leaf3("gtelt", "amendeddate", start, end),
    )
}

/// The query of the economic-events calendar between two `YYYY-MM-DD` dates.
pub fn economic_calendar_query(start: &str, end: &str) -> (q: CalendarQuery)
    ensures
        query_json(q) == range_query_json(start@, end@),
{
    node2("and", leaf2("gte", "startdatetime", start), leaf2("lte", "startdatetime", end))
}

/// The query of the splits calendar between two `YYYY-MM-DD` dates.
pub fn splits_calendar_query(start: &str, end: &str) -> (q: CalendarQuery)
    ensures
        query_json(q) == range_query_json(start@, end@),
{
    node2("and", leaf2("gte", "startdatetime", start), leaf2("lte", "startdatetime", end))
}

/// Rows per page: the requested limit, capped at 100 by Yahoo.
pub open spec fn page_size(limit: usize) -> u64 {
    if limit < 100 {
        limit as u64
    } else {
        100
    }
}

/// The POST body of a calendar request.
pub open spec fn calendar_body_json(
    cal: Seq<char>,
    sort: Seq<char>,
    fields: Seq<Seq<char>>,
    query: JsonV,
    limit: usize,
    offset: usize,
) -> JsonV {
    JsonV::Object(
        seq![
            ("sortType"@, JsonV::Str("DESC"@)),
            ("entityIdType"@, JsonV::Str(cal)),
            ("sortField"@, JsonV::Str(sort)),
            ("includeFields"@, JsonV::Array(texts(fields))),
            ("size"@, JsonV::Number(JsonNumber::PosInt(page_size(limit)))),
            ("offset"@, JsonV::Number(JsonNumber::PosInt(offset as u64))),
            ("query"@, query),
        ],
    )
}

fn text_array(v: &Vec<&str>) -> (r: Vec<Json>)
    ensures
        items_view(r@) == texts(strs_view(v@)),
{
    let mut out: Vec<Json> = Vec::new();
    let mut i: usize = 0;
    while i < v.len()
        invariant
            i <= v@.len(),
            items_view(out@) == texts(strs_view(v@.take(i as int))),
        decreases v@.len() - i,
    {
        let ghost prev = out@;
        let item = Json::Str(v[i].to_owned());
        assert(item@ == JsonV::Str(v@[i as int]@));
        out.push(item);
        i = i + 1;
        assert(out@.drop_last() =~= prev);
        assert(items_view(out@) == items_view(prev).push(JsonV::Str(v@[i - 1]@)));
        assert(texts(strs_view(v@.take(i as int))) =~= texts(strs_view(v@.take(i - 1))).push(
            JsonV::Str(v@[i - 1]@),
        ));
    }
    assert(v@.take(v@.len() as int) =~= v@);
    out
}

/// The POST body of a calendar request (`limit` is capped at 100);
/// `NotSupported` for an unknown calendar type.
pub fn calendar_body(cal_type: &str, query: &CalendarQuery, limit: usize, offset: usize) -> (r:
    Result<Json, YfError>)
    ensures
        r matches Ok(b) ==> (predef_spec(cal_type@) matches Some(p) && b@ == calendar_body_json(
            cal_type@,
            p.0,
            p.1,
            query_json(*query),
            limit,
            offset,
        )),
        r is Err <==> predef_spec(cal_type@) is None,
        r matches Err(e) ==> (e matches YfError::NotSupported(m) && m@ == unknown_calendar_message(
            cal_type@,
        )),
{
    let p = predef(cal_type)?;
    let size: u64 = if limit < 100 {
        limit as u64
    } else {
        100
    };
    let fields = text_array(&p.include_fields);
    let q = query.to_dict();
    let members = vec![
        ("sortType".to_owned(), Json::Str("DESC".to_owned())),
        ("entityIdType".to_owned(), Json::Str(cal_type.to_owned())),
        ("sortField".to_owned(), Json::Str(p.sort_field.to_owned())),
        ("includeFields".to_owned(), Json::Array(fields)),
        ("size".to_owned(), Json::Number(JsonNumber::PosInt(size))),
        ("offset".to_owned(), Json::Number(JsonNumber::PosInt(offset as u64))),
        ("query".to_owned(), q),
    ];
    let ghost mv = members@;
    let b = Json::Object(members);
    proof {
        crate::json::lemma_members_view(mv);
        let p2 = predef_view(p);
        assert(crate::json::members_view(mv) =~= seq![
            ("sortType"@, JsonV::Str("DESC"@)),
            ("entityIdType"@, JsonV::Str(cal_type@)),
            ("sortField"@, JsonV::Str(p2.0)),
            ("includeFields"@, JsonV::Array(texts(p2.1))),
            ("size"@, JsonV::Number(JsonNumber::PosInt(page_size(limit)))),
            ("offset"@, JsonV::Number(JsonNumber::PosInt(offset as u64))),
            ("query"@, query_json(*query)),
        ]);
    }
    Ok(b)
}

/// The query parameters of a calendar request.
pub fn calendar_params() -> (p: Vec<(String, String)>)
    ensures
        crate::http::pairs_view(p@) == seq![("lang"@, "en-US"@), ("region"@, "US"@)],
{
    let p = vec![("lang".to_owned(), "en-US".to_owned()), ("region".to_owned(), "US".to_owned())];
    assert(crate::http::pairs_view(p@) =~= seq![("lang"@, "en-US"@), ("region"@, "US"@)]);
    p
}

/// A calendar column descriptor.
#[derive(Debug)]
pub struct CalendarColumn {
    pub name: String,
    pub label: String,
    pub col_type: Option<String>,
}

/// A parsed calendar reply: parallel `columns` and `rows`.
#[derive(Debug)]
pub struct CalendarResult {
    pub calendar_type: String,
    pub columns: Vec<CalendarColumn>,
    pub rows: Vec<Vec<Json>>,
}

/// `finance.result[0].documents[0]` of a calendar reply.
pub open spec fn calendar_doc(v: JsonV) -> Option<JsonV> {
    match first_result(v, "finance"@) {
        Some(r) => match member(r, "documents"@) {
            Some(JsonV::Array(ds)) => if ds.len() > 0 {
                Some(ds[0])
            } else {
                None
            },
            _ => None,
        },
        None => None,
    }
}

/// The label of a column: its `label` (empty when absent), except that an
/// "Event Start Date" column of type `STRING` is labelled "Timing".
pub open spec fn column_label(c: JsonV) -> Seq<char> {
    let raw = match member_str(c, "label"@) {
        Some(l) => l,
        None => ""@,
    };
    if raw == "Event Start Date"@ && member_str(c, "type"@) == Some("STRING"@) {
        "Timing"@
    } else {
        raw
    }
}

/// A column descriptor read from a column node: its `name` (the label when
/// absent), label and `type`.
pub open spec fn column_of(c: JsonV) -> (Seq<char>, Seq<char>, Option<Seq<char>>) {
    (
        match member_str(c, "name"@) {
            Some(n) => n,
            None => column_label(c),
        },
        column_label(c),
        member_str(c, "type"@),
    )
}

/// The view of a column descriptor.
pub open spec fn column_view(col: CalendarColumn) -> (Seq<char>, Seq<char>, Option<Seq<char>>) {
    (col.name@, col.label@, opt_string_view(col.col_type))
}

/// The views of column descriptors.
pub open spec fn columns_view(cols: Seq<CalendarColumn>) -> Seq<
    (Seq<char>, Seq<char>, Option<Seq<char>>),
> {
    cols.map_values(|c: CalendarColumn| column_view(c))
}

/// The columns of a document: one descriptor per item of its `columns`
/// array, none when there is no such array.
pub open spec fn doc_columns(d: JsonV) -> Seq<(Seq<char>, Seq<char>, Option<Seq<char>>)> {
    match member(d, "columns"@) {
        Some(JsonV::Array(cs)) => cs.map_values(|c: JsonV| column_of(c)),
        _ => seq![],
    }
}

/// The items of `items` that are arrays, in order.
pub open spec fn array_rows(items: Seq<JsonV>) -> Seq<Seq<JsonV>>
    decreases items.len(),
{
    if items.len() == 0 {
        seq![]
    } else {
        let rest = array_rows(items.drop_last());
        match items.last() {
            JsonV::Array(a) => rest.push(a),
            _ => rest,
        }
    }
}

/// The rows of a document: the array items of its `rows` array.
pub open spec fn doc_rows(d: JsonV) -> Seq<Seq<JsonV>> {
    match member(d, "rows"@) {
        Some(JsonV::Array(rs)) => array_rows(rs),
        _ => seq![],
    }
}

/// The views of rows.
pub open spec fn rows_view(rows: Seq<Vec<Json>>) -> Seq<Seq<JsonV>> {
    rows.map_values(|r: Vec<Json>| items_view(r@))
}

fn parse_column(c: &Json) -> (col: CalendarColumn)
    ensures
        column_view(col) == column_of(c@),
{
    let raw: &str = match get_member_str(c, "label") {
        Some(l) => l,
        None => "",
    };
    let ty = get_member_str(c, "type");
    let is_string = match ty {
        Some(t) => str_eq(t, "STRING"),
        None => false,
    };
    let label: &str = if str_eq(raw, "Event Start Date") && is_string {
        "Timing"
    } else {
        raw
    };
    let name = match get_member_str(c, "name") {
        Some(n) => n.to_owned(),
        None => label.to_owned(),
    };
    let col_type = match ty {
        Some(t) => Some(t.to_owned()),
        None => None,
    };
    CalendarColumn { name, label: label.to_owned(), col_type }
}

fn parse_columns(d: &Json) -> (cols: Vec<CalendarColumn>)
    ensures
        columns_view(cols@) == doc_columns(d@),
{
    let mut out: Vec<CalendarColumn> = Vec::new();
    match d.get_key("columns") {
        Some(cn) => match cn.as_array() {
            Some(arr) => {
                let ghost cs = items_view(arr@);
                proof {
                    lemma_items_view(arr@);
                }
                let mut i: usize = 0;
                while i < arr.len()
                    invariant
                        i <= arr@.len(),
                        cs == items_view(arr@),
                        cs.len() == arr@.len(),
                        forall|j: int| 0 <= j < arr@.len() ==> #[trigger] cs[j] == arr@[j]@,
                        columns_view(out@) == cs.take(i as int).map_values(
                            |c: JsonV| column_of(c),
                        ),
                    decreases arr@.len() - i,
                {
                    let ghost prev = out@;
                    let col = parse_column(&arr[i]);
                    out.push(col);
                    i = i + 1;
                    assert(columns_view(out@) =~= columns_view(prev).push(column_view(col)));
                    assert(cs.take(i as int).map_values(|c: JsonV| column_of(c)) =~= cs.take(
                        i - 1,
                    ).map_values(|c: JsonV| column_of(c)).push(column_of(cs[i - 1])));
                }
                assert(cs.take(arr@.len() as int) =~= cs);
            },
            None => {
                assert(columns_view(out@) =~= seq![]);
            },
        },
        None => {
            assert(columns_view(out@) =~= seq![]);
        },
    }
    out
}

fn parse_rows(d: &Json) -> (rows: Vec<Vec<Json>>)
    ensures
        rows_view(rows@) == doc_rows(d@),
{
    let mut out: Vec<Vec<Json>> = Vec::new();
    match d.get_key("rows") {
        Some(rn) => match rn.as_array() {
            Some(arr) => {
                let mut i: usize = 0;
                while i < arr.len()
                    invariant
                        i <= arr@.len(),
                        rows_view(out@) == array_rows(items_view(arr@.take(i as int))),
                    decreases arr@.len() - i,
                {
                    let ghost prev = out@;
                    proof {
                        assert(arr@.take(i + 1).drop_last() =~= arr@.take(i as int));
                        assert(items_view(arr@.take(i + 1)).drop_last() =~= items_view(
                            arr@.take(i as int),
                        ));
                        assert(items_view(arr@.take(i + 1)).last() == arr@[i as int]@);
                    }
                    match arr[i].as_array() {
                        Some(a) => {
                            let row = clone_items(a);
                            out.push(row);
                            assert(rows_view(out@) =~= rows_view(prev).push(items_view(a@)));
                        },
                        None => {},
                    }
                    i = i + 1;
                }
                assert(arr@.take(arr@.len() as int) =~= arr@);
            },
            None => {
                assert(rows_view(out@) =~= seq![]);
            },
        },
        None => {
            assert(rows_view(out@) =~= seq![]);
        },
    }
    out
}

/// The message of the error for a calendar reply without a document.
pub open spec fn calendar_missing_message(cal: Seq<char>) -> Seq<char> {
    "calendar "@ + cal
}

/// Parses a calendar reply: the columns and the array rows of
/// `finance.result[0].documents[0]`; `DataMissing` when there is no such
/// document.
pub fn parse_documents(cal_type: &str, v: &Json) -> (r: Result<CalendarResult, YfError>)
    ensures
        r is Err <==> calendar_doc(v@) is None,
        r matches Err(e) ==> (e matches YfError::DataMissing(m) && m@ == calendar_missing_message(
            cal_type@,
        )),
        r matches Ok(res) ==> (calendar_doc(v@) matches Some(d) && res.calendar_type@ == cal_type@
            && columns_view(res.columns@) == doc_columns(d) && rows_view(res.rows@) == doc_rows(
            d,
        )),
{
    let doc: &Json = match yf_result_first(v, "finance") {
        Ok(first) => match first.get_key("documents") {
            Some(dn) => match dn.as_array() {
                Some(a) => {
                    proof {
                        lemma_items_view(a@);
                    }
                    if a.len() > 0 {
                        &a[0]
                    } else {
                        return Err(YfError::DataMissing(concat2("calendar ", cal_type)));
                    }
                },
                None => {
                    return Err(YfError::DataMissing(concat2("calendar ", cal_type)));
                },
            },
            None => {
                return Err(YfError::DataMissing(concat2("calendar ", cal_type)));
            },
        },
        Err(_) => {
            return Err(YfError::DataMissing(concat2("calendar ", cal_type)));
        },
    };
    let columns = parse_columns(doc);
    let rows = parse_rows(doc);
    Ok(CalendarResult { calendar_type: cal_type.to_owned(), columns, rows })
}

/// The map built by inserting `keys[i] => vals[i]` for `i < n` in order (a
/// later key replaces an earlier equal one).
pub open spec fn zip_map(keys: Seq<Seq<char>>, vals: Seq<JsonV>, n: nat) -> Map<Seq<char>, JsonV>
    decreases n,
{
    if n == 0 {
        Map::empty()
    } else {
        zip_map(keys, vals, (n - 1) as nat).insert(keys[n - 1], vals[n - 1])
    }
}

/// The number of key/value pairs zipped: the shorter of the two.
pub open spec fn zip_len<A, B>(keys: Seq<A>, vals: Seq<B>) -> nat {
    if keys.len() < vals.len() {
        keys.len()
    } else {
        vals.len()
    }
}

/// The map held by an association list: inserting its pairs in order.
pub open spec fn assoc_map(s: Seq<(Seq<char>, JsonV)>) -> Map<Seq<char>, JsonV>
    decreases s.len(),
{
    if s.len() == 0 {
        Map::empty()
    } else {
        assoc_map(s.drop_last()).insert(s.last().0, s.last().1)
    }
}

/// No key occurs twice.
pub open spec fn keys_unique(s: Seq<(Seq<char>, JsonV)>) -> bool {
    forall|i: int, j: int| 0 <= i < j < s.len() ==> #[trigger] s[i].0 != #[trigger] s[j].0
}

/// In a list without repeated keys, the map holds each listed pair, and no
/// other key.
pub proof fn lemma_assoc_lookup(s: Seq<(Seq<char>, JsonV)>, k: Seq<char>)
    requires
        keys_unique(s),
    ensures
        forall|j: int| 0 <= j < s.len() && s[j].0 == k ==> assoc_map(s).contains_key(k) && assoc_map(
            s,
        )[k] == s[j].1,
        (forall|j: int| 0 <= j < s.len() ==> s[j].0 != k) ==> !assoc_map(s).contains_key(k),
    decreases s.len(),
{
    if s.len() > 0 {
        let t = s.drop_last();
        assert(keys_unique(t));
        lemma_assoc_lookup(t, k);
        assert forall|j: int| 0 <= j < s.len() && s[j].0 == k implies assoc_map(s).contains_key(k)
            && assoc_map(s)[k] == s[j].1 by {
            if j < s.len() - 1 {
                assert(t[j] == s[j]);
            }
        }
        if forall|j: int| 0 <= j < s.len() ==> s[j].0 != k {
            assert forall|j: int| 0 <= j < t.len() implies t[j].0 != k by {
                assert(t[j] == s[j]);
            }
        }
    }
}

/// Replacing the value of a listed key updates the map at that key.
pub proof fn lemma_assoc_update(s: Seq<(Seq<char>, JsonV)>, j: int, v: JsonV)
    requires
        keys_unique(s),
        0 <= j < s.len(),
    ensures
        keys_unique(s.update(j, (s[j].0, v))),
        assoc_map(s.update(j, (s[j].0, v))) == assoc_map(s).insert(s[j].0, v),
    decreases s.len(),
{
    let k = s[j].0;
    let u = s.update(j, (k, v));
    assert forall|a: int, b: int| 0 <= a < b < u.len() implies #[trigger] u[a].0 != #[trigger] u[b].0 by {
        assert(u[a].0 == s[a].0 && u[b].0 == s[b].0);
    }
    let t = s.drop_last();
    if j == s.len() - 1 {
        assert(u.drop_last() =~= t);
        assert(assoc_map(u) =~= assoc_map(s).insert(k, v));
    } else {
        assert(keys_unique(t));
        lemma_assoc_update(t, j, v);
        assert(u.drop_last() =~= t.update(j, (k, v)));
        assert(s.last().0 != k);
        assert(assoc_map(u) =~= assoc_map(s).insert(k, v));
    }
}

/// A record: an association list of field names and values without
/// repeated names.
pub open spec fn record_map(r: Seq<(String, Json)>) -> Map<Seq<char>, JsonV> {
    assoc_map(crate::json::members_view(r))
}

/// Sets `key` to `value` in a record, replacing an existing entry.
fn record_insert(rec: &mut Vec<(String, Json)>, key: String, value: Json)
    requires
        keys_unique(crate::json::members_view(old(rec)@)),
    ensures
        keys_unique(crate::json::members_view(final(rec)@)),
        record_map(final(rec)@) == record_map(old(rec)@).insert(key@, value@),
{
    let ghost s = crate::json::members_view(rec@);
    proof {
        crate::json::lemma_members_view(rec@);
    }
    let mut i: usize = 0;
    while i < rec.len()
        invariant
            i <= rec@.len(),
            s == crate::json::members_view(rec@),
            s.len() == rec@.len(),
            forall|j: int| 0 <= j < rec@.len() ==> #[trigger] s[j] == (rec@[j].0@, rec@[j].1@),
            forall|j: int| 0 <= j < i ==> s[j].0 != key@,
            keys_unique(s),
            s == crate::json::members_view(old(rec)@),
        decreases rec@.len() - i,
    {
        if str_eq(rec[i].0.as_str(), key.as_str()) {
            let ghost vv = value@;
            rec.set(i, (key, value));
            proof {
                crate::json::lemma_members_view(rec@);
                assert(crate::json::members_view(rec@) =~= s.update(i as int, (s[i as int].0, vv)));
                lemma_assoc_update(s, i as int, vv);
            }
            return;
        }
        i = i + 1;
    }
    let ghost kv = (key@, value@);
    rec.push((key, value));
    proof {
        crate::json::lemma_members_view(rec@);
        assert(crate::json::members_view(rec@) =~= s.push(kv));
        assert(crate::json::members_view(rec@).drop_last() =~= s);
    }
}

/// The record pairing `keys[i]` with `vals[i]` for every index both have.
fn zip_record(keys: &Vec<String>, vals: &Vec<Json>) -> (rec: Vec<(String, Json)>)
    ensures
        keys_unique(crate::json::members_view(rec@)),
        record_map(rec@) == zip_map(
            keys@.map_values(|k: String| k@),
            items_view(vals@),
            zip_len(keys@, vals@),
        ),
{
    let ghost ks = keys@.map_values(|k: String| k@);
    let ghost vs = items_view(vals@);
    proof {
        lemma_items_view(vals@);
    }
    let mut rec: Vec<(String, Json)> = Vec::new();
    let mut i: usize = 0;
    let n: usize = if keys.len() < vals.len() {
        keys.len()
    } else {
        vals.len()
    };
    assert(crate::json::members_view(rec@) =~= seq![]);
    while i < n
        invariant
            i <= n,
            n == zip_len(keys@, vals@),
            ks == keys@.map_values(|k: String| k@),
            vs == items_view(vals@),
            vs.len() == vals@.len(),
            forall|j: int| 0 <= j < vals@.len() ==> #[trigger] vs[j] == vals@[j]@,
            keys_unique(crate::json::members_view(rec@)),
            record_map(rec@) == zip_map(ks, vs, i as nat),
        decreases n - i,
    {
        let k = keys[i].clone();
        let v = vals[i].clone();
        record_insert(&mut rec, k, v);
        i = i + 1;
    }
    rec
}

impl CalendarResult {
    /// The column labels.
    pub open spec fn labels(self) -> Seq<Seq<char>> {
        self.columns@.map_values(|c: CalendarColumn| c.label@)
    }

    /// Each row as a record keyed by column label (a later column with the
    /// same label replaces an earlier one).
    pub fn records(&self) -> (r: Vec<Vec<(String, Json)>>)
        ensures
            r@.len() == self.rows@.len(),
            forall|i: int|
                0 <= i < r@.len() ==> keys_unique(crate::json::members_view(#[trigger] r@[i]@))
                    && record_map(r@[i]@) == zip_map(
                    self.labels(),
                    items_view(self.rows@[i]@),
                    zip_len(self.columns@, self.rows@[i]@),
                ),
    {
        let mut labels: Vec<String> = Vec::new();
        let mut c: usize = 0;
        while c < self.columns.len()
            invariant
                c <= self.columns@.len(),
                labels@.map_values(|k: String| k@) == self.columns@.take(c as int).map_values(
                    |col: CalendarColumn| col.label@,
                ),
            decreases self.columns@.len() - c,
        {
            let ghost prev = labels@;
            let l = self.columns[c].label.clone();
            assert(l@ == self.columns@[c as int].label@);
            labels.push(l);
            c = c + 1;
            assert(labels@.map_values(|k: String| k@) =~= prev.map_values(|k: String| k@).push(
                self.columns@[c - 1].label@,
            ));
            assert(self.columns@.take(c as int).map_values(|col: CalendarColumn| col.label@)
                =~= self.columns@.take(c - 1).map_values(|col: CalendarColumn| col.label@).push(
                self.columns@[c - 1].label@,
            ));
        }
        assert(self.columns@.take(self.columns@.len() as int) =~= self.columns@);
        let mut out: Vec<Vec<(String, Json)>> = Vec::new();
        let mut i: usize = 0;
        while i < self.rows.len()
            invariant
                i <= self.rows@.len(),
                out@.len() == i,
                labels@.map_values(|k: String| k@) == self.labels(),
                labels@.len() == self.columns@.len(),
                forall|j: int|
                    0 <= j < i ==> keys_unique(crate::json::members_view(#[trigger] out@[j]@))
                        && record_map(out@[j]@) == zip_map(
                        self.labels(),
                        items_view(self.rows@[j]@),
                        zip_len(self.columns@, self.rows@[j]@),
                    ),
            decreases self.rows@.len() - i,
        {
            let rec = zip_record(&labels, &self.rows[i]);
            out.push(rec);
            i = i + 1;
        }
        out
    }
}

/// Pairs a row with the calendar's requested fields (the reply's columns
/// come back in request order), keyed by field name.
pub fn zip_fields(row: &Vec<Json>, fields: &Vec<&str>) -> (rec: Vec<(String, Json)>)
    ensures
        keys_unique(crate::json::members_view(rec@)),
        record_map(rec@) == zip_map(strs_view(fields@), items_view(row@), zip_len(fields@, row@)),
{
    let mut keys: Vec<String> = Vec::new();
    let mut i: usize = 0;
    while i < fields.len()
        invariant
            i <= fields@.len(),
            keys@.map_values(|k: String| k@) == strs_view(fields@.take(i as int)),
        decreases fields@.len() - i,
    {
        let ghost prev = keys@;
        keys.push(fields[i].to_owned());
        i = i + 1;
        assert(keys@.map_values(|k: String| k@) =~= prev.map_values(|k: String| k@).push(
            fields@[i - 1]@,
        ));
        assert(strs_view(fields@.take(i as int)) =~= strs_view(fields@.take(i - 1)).push(
            fields@[i - 1]@,
        ));
    }
    assert(fields@.take(fields@.len() as int) =~= fields@);
    zip_record(&keys, row)
}

/// The string a map holds at `key`.
pub open spec fn field_str(m: Map<Seq<char>, JsonV>, key: Seq<char>) -> Option<Seq<char>> {
    if m.contains_key(key) {
        str_of(m[key])
    } else {
        None
    }
}

/// The string a record holds at `key`.
pub fn str_field(rec: &Vec<(String, Json)>, key: &str) -> (r: Option<String>)
    requires
        keys_unique(crate::json::members_view(rec@)),
    ensures
        opt_string_view(r) == field_str(record_map(rec@), key@),
{
    let ghost s = crate::json::members_view(rec@);
    proof {
        crate::json::lemma_members_view(rec@);
        lemma_assoc_lookup(s, key@);
    }
    let mut i: usize = 0;
    while i < rec.len()
        invariant
            i <= rec@.len(),
            s == crate::json::members_view(rec@),
            s.len() == rec@.len(),
            forall|j: int| 0 <= j < rec@.len() ==> #[trigger] s[j] == (rec@[j].0@, rec@[j].1@),
            forall|j: int| 0 <= j < i ==> s[j].0 != key@,
            keys_unique(s),
        decreases rec@.len() - i,
    {
        if str_eq(rec[i].0.as_str(), key) {
            assert(s[i as int].0 == key@);
            proof {
                lemma_assoc_lookup(s, key@);
            }
            return match rec[i].1.as_str() {
                Some(t) => Some(t.to_owned()),
                None => None,
            };
        }
        i = i + 1;
    }
    None
}

/// An economic-calendar event.
#[derive(Debug)]
pub struct EconomicEvent {
    pub ticker: Option<String>,
    pub companies: Option<String>,
    pub start_date: Option<String>,
    pub time: Option<String>,
}

/// A splits-calendar event.
#[derive(Debug)]
pub struct SplitEvent {
    pub ticker: Option<String>,
    pub companies: Option<String>,
    pub start_date: Option<String>,
    pub time: Option<String>,
}

/// A row of a calendar keyed by the calendar's fields.
pub open spec fn row_fields(fields: Seq<Seq<char>>, row: Seq<JsonV>) -> Map<Seq<char>, JsonV> {
    zip_map(fields, row, zip_len(fields, row))
}

/// The economic events of a calendar reply: release name, country code,
/// start date and period of each row.
pub fn economic_events(res: &CalendarResult) -> (evs: Vec<EconomicEvent>)
    ensures
        evs@.len() == res.rows@.len(),
        forall|i: int|
            0 <= i < evs@.len() ==> {
                let m = row_fields(economic_fields(), items_view(res.rows@[i]@));
                &&& opt_string_view(#[trigger] evs@[i].ticker) == field_str(m, "econ_release"@)
                &&& opt_string_view(evs@[i].companies) == field_str(m, "country_code"@)
                &&& opt_string_view(evs@[i].start_date) == field_str(m, "startdatetime"@)
                &&& opt_string_view(evs@[i].time) == field_str(m, "period"@)
            },
{
    let p = economic_predef();
    let mut out: Vec<EconomicEvent> = Vec::new();
    let mut i: usize = 0;
    while i < res.rows.len()
        invariant
            i <= res.rows@.len(),
            out@.len() == i,
            strs_view(p.include_fields@) == economic_fields(),
            forall|j: int|
                0 <= j < i ==> {
                    let m = row_fields(economic_fields(), items_view(res.rows@[j]@));
                    &&& opt_string_view(#[trigger] out@[j].ticker) == field_str(m, "econ_release"@)
                    &&& opt_string_view(out@[j].companies) == field_str(m, "country_code"@)
                    &&& opt_string_view(out@[j].start_date) == field_str(m, "startdatetime"@)
                    &&& opt_string_view(out@[j].time) == field_str(m, "period"@)
                },
        decreases res.rows@.len() - i,
    {
        let r = zip_fields(&res.rows[i], &p.include_fields);
        assert(zip_len(p.include_fields@, res.rows@[i as int]@) == zip_len(
            economic_fields(),
            items_view(res.rows@[i as int]@),
        )) by {
            lemma_items_view(res.rows@[i as int]@);
        }
        out.push(
            EconomicEvent {
                ticker: str_field(&r, "econ_release"),
                companies: str_field(&r, "country_code"),
                start_date: str_field(&r, "startdatetime"),
                time: str_field(&r, "period"),
            },
        );
        i = i + 1;
    }
    out
}

/// The split events of a calendar reply: ticker, company name and start
/// date of each row.
pub fn split_events(res: &CalendarResult) -> (evs: Vec<SplitEvent>)
    ensures
        evs@.len() == res.rows@.len(),
        forall|i: int|
            0 <= i < evs@.len() ==> {
                let m = row_fields(splits_fields(), items_view(res.rows@[i]@));
                &&& opt_string_view(#[trigger] evs@[i].ticker) == field_str(m, "ticker"@)
                &&& opt_string_view(evs@[i].companies) == field_str(m, "companyshortname"@)
                &&& opt_string_view(evs@[i].start_date) == field_str(m, "startdatetime"@)
                &&& evs@[i].time is None
            },
{
    let p = splits_predef();
    let mut out: Vec<SplitEvent> = Vec::new();
    let mut i: usize = 0;
    while i < res.rows.len()
        invariant
            i <= res.rows@.len(),
            out@.len() == i,
            strs_view(p.include_fields@) == splits_fields(),
            forall|j: int|
                0 <= j < i ==> {
                    let m = row_fields(splits_fields(), items_view(res.rows@[j]@));
                    &&& opt_string_view(#[trigger] out@[j].ticker) == field_str(m, "ticker"@)
                    &&& opt_string_view(out@[j].companies) == field_str(m, "companyshortname"@)
                    &&& opt_string_view(out@[j].start_date) == field_str(m, "startdatetime"@)
                    &&& out@[j].time is None
                },
        decreases res.rows@.len() - i,
    {
        let r = zip_fields(&res.rows[i], &p.include_fields);
        assert(zip_len(p.include_fields@, res.rows@[i as int]@) == zip_len(
            splits_fields(),
            items_view(res.rows@[i as int]@),
        )) by {
            lemma_items_view(res.rows@[i as int]@);
        }
        out.push(
            SplitEvent {
                ticker: str_field(&r, "ticker"),
                companies: str_field(&r, "companyshortname"),
                start_date: str_field(&r, "startdatetime"),
                time: None,
            },
        );
        i = i + 1;
    }
    out
}

/// The number a map holds at `key`.
pub open spec fn field_number(m: Map<Seq<char>, JsonV>, key: Seq<char>) -> Option<JsonNumber> {
    if m.contains_key(key) {
        match m[key] {
            JsonV::Number(n) => Some(n),
            _ => None,
        }
    } else {
        None
    }
}

/// The number a record holds at `key` (before conversion to floating
/// point).
pub fn num_field(rec: &Vec<(String, Json)>, key: &str) -> (r: Option<JsonNumber>)
    requires
        keys_unique(crate::json::members_view(rec@)),
    ensures
        r == field_number(record_map(rec@), key@),
{
    let ghost s = crate::json::members_view(rec@);
    proof {
        crate::json::lemma_members_view(rec@);
        lemma_assoc_lookup(s, key@);
    }
    let mut i: usize = 0;
    while i < rec.len()
        invariant
            i <= rec@.len(),
            s == crate::json::members_view(rec@),
            s.len() == rec@.len(),
            forall|j: int| 0 <= j < rec@.len() ==> #[trigger] s[j] == (rec@[j].0@, rec@[j].1@),
            forall|j: int| 0 <= j < i ==> s[j].0 != key@,
            keys_unique(s),
        decreases rec@.len() - i,
    {
        if str_eq(rec[i].0.as_str(), key) {
            assert(s[i as int].0 == key@);
            proof {
                lemma_assoc_lookup(s, key@);
            }
            return match &rec[i].1 {
                Json::Number(n) => Some(n.clone()),
                _ => None,
            };
        }
        i = i + 1;
    }
    None
}

/// An earnings-calendar event, its numbers as sent.
#[derive(Debug, Clone)]
pub struct EarningsEventFields {
    pub ticker: Option<String>,
    pub companies: Option<String>,
    pub start_date: Option<String>,
    pub time: Option<String>,
    pub eps_estimate: Option<JsonNumber>,
    pub eps_actual: Option<JsonNumber>,
}

/// An IPO-calendar event, its price as sent.
#[derive(Debug, Clone)]
pub struct IpoEventFields {
    pub ticker: Option<String>,
    pub companies: Option<String>,
    pub start_date: Option<String>,
    pub ipo_price: Option<JsonNumber>,
    pub currency: Option<String>,
}

/// The earnings events of a calendar reply, one per row.
pub fn earnings_events(res: &CalendarResult) -> (evs: Vec<EarningsEventFields>)
    ensures
        evs@.len() == res.rows@.len(),
        forall|i: int|
            0 <= i < evs@.len() ==> {
                let m = row_fields(earnings_fields(), items_view(res.rows@[i]@));
                &&& opt_string_view(#[trigger] evs@[i].ticker) == field_str(m, "ticker"@)
                &&& opt_string_view(evs@[i].companies) == field_str(m, "companyshortname"@)
                &&& opt_string_view(evs@[i].start_date) == field_str(m, "startdatetime"@)
                &&& opt_string_view(evs@[i].time) == field_str(m, "startdatetimetype"@)
                &&& evs@[i].eps_estimate == field_number(m, "epsestimate"@)
                &&& evs@[i].eps_actual == field_number(m, "epsactual"@)
            },
{
    let p = earnings_predef();
    let mut out: Vec<EarningsEventFields> = Vec::new();
    let mut i: usize = 0;
    while i < res.rows.len()
        invariant
            i <= res.rows@.len(),
            out@.len() == i,
            strs_view(p.include_fields@) == earnings_fields(),
            forall|j: int|
                0 <= j < i ==> {
                    let m = row_fields(earnings_fields(), items_view(res.rows@[j]@));
                    &&& opt_string_view(#[trigger] out@[j].ticker) == field_str(m, "ticker"@)
                    &&& opt_string_view(out@[j].companies) == field_str(m, "companyshortname"@)
                    &&& opt_string_view(out@[j].start_date) == field_str(m, "startdatetime"@)
                    &&& opt_string_view(out@[j].time) == field_str(m, "startdatetimetype"@)
                    &&& out@[j].eps_estimate == field_number(m, "epsestimate"@)
                    &&& out@[j].eps_actual == field_number(m, "epsactual"@)
                },
        decreases res.rows@.len() - i,
    {
        let r = zip_fields(&res.rows[i], &p.include_fields);
        assert(zip_len(p.include_fields@, res.rows@[i as int]@) == zip_len(
            earnings_fields(),
            items_view(res.rows@[i as int]@),
        )) by {
            lemma_items_view(res.rows@[i as int]@);
        }
        out.push(
            EarningsEventFields {
                ticker: str_field(&r, "ticker"),
                companies: str_field(&r, "companyshortname"),
                start_date: str_field(&r, "startdatetime"),
                time: str_field(&r, "startdatetimetype"),
                eps_estimate: num_field(&r, "epsestimate"),
                eps_actual: num_field(&r, "epsactual"),
            },
        );
        i = i + 1;
    }
    out
}

/// The IPO events of a calendar reply, one per row.
pub fn ipo_events(res: &CalendarResult) -> (evs: Vec<IpoEventFields>)
    ensures
        evs@.len() == res.rows@.len(),
        forall|i: int|
            0 <= i < evs@.len() ==> {
                let m = row_fields(ipo_fields(), items_view(res.rows@[i]@));
                &&& opt_string_view(#[trigger] evs@[i].ticker) == field_str(m, "ticker"@)
                &&& opt_string_view(evs@[i].companies) == field_str(m, "companyshortname"@)
                &&& opt_string_view(evs@[i].start_date) == field_str(m, "startdatetime"@)
                &&& evs@[i].ipo_price == field_number(m, "offerprice"@)
                &&& opt_string_view(evs@[i].currency) == field_str(m, "currencyname"@)
            },
{
    let p = ipo_predef();
    let mut out: Vec<IpoEventFields> = Vec::new();
    let mut i: usize = 0;
    while i < res.rows.len()
        invariant
            i <= res.rows@.len(),
            out@.len() == i,
            strs_view(p.include_fields@) == ipo_fields(),
            forall|j: int|
                0 <= j < i ==> {
                    let m = row_fields(ipo_fields(), items_view(res.rows@[j]@));
                    &&& opt_string_view(#[trigger] out@[j].ticker) == field_str(m, "ticker"@)
                    &&& opt_string_view(out@[j].companies) == field_str(m, "companyshortname"@)
                    &&& opt_string_view(out@[j].start_date) == field_str(m, "startdatetime"@)
                    &&& out@[j].ipo_price == field_number(m, "offerprice"@)
                    &&& opt_string_view(out@[j].currency) == field_str(m, "currencyname"@)
                },
        decreases res.rows@.len() - i,
    {
        let r = zip_fields(&res.rows[i], &p.include_fields);
        assert(zip_len(p.include_fields@, res.rows@[i as int]@) == zip_len(
            ipo_fields(),
            items_view(res.rows@[i as int]@),
        )) by {
            lemma_items_view(res.rows@[i as int]@);
        }
        out.push(
            IpoEventFields {
                ticker: str_field(&r, "ticker"),
                companies: str_field(&r, "companyshortname"),
                start_date: str_field(&r, "startdatetime"),
                ipo_price: num_field(&r, "offerprice"),
                currency: str_field(&r, "currencyname"),
            },
        );
        i = i + 1;
    }
    out
}

} // verus!
