//! Security lookup by query text.

use vstd::prelude::*;

use crate::http::pairs_view;
use crate::json::{items_view, member, opt_string_view, Json, JsonV};
use crate::records::{decode_text_record, field_at, keys_view, opt_strings_view, text_record_of};
use crate::text::decimal;

verus! {

/// The lookup endpoint.
pub const LOOKUP_URL: &'static str = "https://query1.finance.yahoo.com/v1/finance/lookup";

/// One lookup result row.
#[derive(Debug, Clone)]
pub struct LookupRow {
    pub symbol: Option<String>,
    pub name: Option<String>,
    pub exchange: Option<String>,
    pub type_disp: Option<String>,
    pub industry: Option<String>,
}

/// Lookup results for a query.
#[derive(Debug, Clone)]
pub struct LookupResult {
    pub query: String,
    pub results: Vec<LookupRow>,
}

/// The field names of a lookup row: symbol, name, exchange, type and
/// industry.
pub open spec fn lookup_keys() -> Seq<Seq<char>> {
    seq!["symbol"@, "name"@, "exch"@, "typeDisp"@, "industryDisp"@]
}

/// The view of a lookup row, in the order of [`lookup_keys`].
pub open spec fn lookup_row_view(r: LookupRow) -> Seq<Option<Seq<char>>> {
    seq![
        opt_string_view(r.symbol),
        opt_string_view(r.name),
        opt_string_view(r.exchange),
        opt_string_view(r.type_disp),
        opt_string_view(r.industry),
    ]
}

/// The rows among `items`, in order; items that are not lookup rows are
/// skipped.
pub open spec fn lookup_rows_of(items: Seq<JsonV>) -> Seq<Seq<Option<Seq<char>>>>
    decreases items.len(),
{
    if items.len() == 0 {
        seq![]
    } else {
        let rest = lookup_rows_of(items.drop_last());
        match text_record_of(items.last(), lookup_keys()) {
            Some(r) => rest.push(r),
            None => rest,
        }
    }
}

/// The rows of a lookup reply: those of the `finance.result` array.
pub open spec fn lookup_reply_rows(v: JsonV) -> Seq<Seq<Option<Seq<char>>>> {
    match member(v, "finance"@) {
        Some(f) => match member(f, "result"@) {
            Some(JsonV::Array(items)) => lookup_rows_of(items),
            _ => seq![],
        },
        None => seq![],
    }
}

/// The views of lookup rows.
pub open spec fn lookup_rows_view(rs: Seq<LookupRow>) -> Seq<Seq<Option<Seq<char>>>> {
    rs.map_values(|r: LookupRow| lookup_row_view(r))
}

/// A lookup row read from a node.
pub fn lookup_row(q: &Json) -> (r: Option<LookupRow>)
    ensures
        r matches Some(row) ==> text_record_of(q@, lookup_keys()) == Some(lookup_row_view(row)),
        r is None <==> text_record_of(q@, lookup_keys()) is None,
{
    let keys = ["symbol", "name", "exch", "typeDisp", "industryDisp"];
    assert(keys_view(keys@) =~= lookup_keys());
    match decode_text_record(q, &keys) {
        Some(v) => {
            let row = LookupRow {
                symbol: field_at(&v, 0),
                name: field_at(&v, 1),
                exchange: field_at(&v, 2),
                type_disp: field_at(&v, 3),
                industry: field_at(&v, 4),
            };
            assert(opt_strings_view(v@) =~= lookup_row_view(row));
            Some(row)
        },
        None => None,
    }
}

/// The query parameters of a lookup.
pub fn lookup_params(query: &str, limit: usize, lookup_type: &str) -> (p: Vec<(String, String)>)
    ensures
        pairs_view(p@) == seq![
            ("query"@, query@),
            ("count"@, decimal(limit as nat)),
            ("type"@, lookup_type@),
        ],
{
    let p = vec![
        ("query".to_owned(), query.to_owned()),
        ("count".to_owned(), crate::text::decimal_string(limit as u64)),
        ("type".to_owned(), lookup_type.to_owned()),
    ];
    assert(pairs_view(p@) =~= seq![
        ("query"@, query@),
        ("count"@, decimal(limit as nat)),
        ("type"@, lookup_type@),
    ]);
    p
}

/// Reads a lookup reply: the rows of `finance.result` (items that are not
/// rows are skipped; no rows when there is no such array).
pub fn parse_lookup(query: &str, v: &Json) -> (r: LookupResult)
    ensures
        r.query@ == query@,
        lookup_rows_view(r.results@) == lookup_reply_rows(v@),
{
    let mut out: Vec<LookupRow> = Vec::new();
    let arr: Option<&Vec<Json>> = match v.get_key("finance") {
        Some(f) => match f.get_key("result") {
            Some(r) => r.as_array(),
            None => None,
        },
        None => None,
    };
    match arr {
        Some(arr) => {
            let mut i: usize = 0;
            while i < arr.len()
                invariant
                    i <= arr@.len(),
                    lookup_rows_view(out@) == lookup_rows_of(items_view(arr@.take(i as int))),
                decreases arr@.len() - i,
            {
                let ghost prev = out@;
                proof {
                    assert(arr@.take(i + 1).drop_last() =~= arr@.take(i as int));
                    assert(items_view(arr@.take(i + 1)).drop_last() =~= items_view(
                        arr@.take(i as int),
                    ));
                    assert(items_view(arr@.take(i + 1)).last() == arr@[i as int]@);
                }
                match lookup_row(&arr[i]) {
                    Some(row) => {
                        out.push(row);
                        assert(lookup_rows_view(out@) =~= lookup_rows_view(prev).push(
                            lookup_row_view(row),
                        ));
                    },
                    None => {},
                }
                i = i + 1;
            }
            assert(arr@.take(arr@.len() as int) =~= arr@);
        },
        None => {
            assert(lookup_rows_view(out@) =~= seq![]);
        },
    }
    LookupResult { query: query.to_owned(), results: out }
}

} // verus!
