//! Search by query text: the request parameters, and the quotes and news
//! of the reply.

use vstd::prelude::*;

use crate::http::pairs_view;
use crate::json::{items_view, member, opt_string_view, Json, JsonNumber, JsonV};
use crate::records::{
    decode_text_record, field_at, field_node, fields_of, is_record, keys_view, opt_number,
    opt_number_field, opt_strings_view, opt_text, opt_text_field, text_record_of,
};
use crate::text::decimal;

verus! {

/// The search endpoint.
pub const SEARCH_URL: &'static str = "https://query1.finance.yahoo.com/v1/finance/search";

/// A news item of a search reply.
#[derive(Debug, Clone)]
pub struct SearchNews {
    pub uuid: Option<String>,
    pub title: Option<String>,
    pub link: Option<String>,
    pub publisher: Option<String>,
}

/// The field names of a search news item.
pub open spec fn search_news_keys() -> Seq<Seq<char>> {
    seq!["uuid"@, "title"@, "link"@, "publisher"@]
}

/// The view of a news item, in the order of [`search_news_keys`].
pub open spec fn search_news_view(n: SearchNews) -> Seq<Option<Seq<char>>> {
    seq![
        opt_string_view(n.uuid),
        opt_string_view(n.title),
        opt_string_view(n.link),
        opt_string_view(n.publisher),
    ]
}

/// The views of news items.
pub open spec fn search_news_views(ns: Seq<SearchNews>) -> Seq<Seq<Option<Seq<char>>>> {
    ns.map_values(|n: SearchNews| search_news_view(n))
}

/// The news items among `items`, in order; other items are skipped.
pub open spec fn search_news_of(items: Seq<JsonV>) -> Seq<Seq<Option<Seq<char>>>>
    decreases items.len(),
{
    if items.len() == 0 {
        seq![]
    } else {
        let rest = search_news_of(items.drop_last());
        match text_record_of(items.last(), search_news_keys()) {
            Some(r) => rest.push(r),
            None => rest,
        }
    }
}

/// The news items of a search reply: those of its `news` array.
pub open spec fn search_reply_news(v: JsonV) -> Seq<Seq<Option<Seq<char>>>> {
    match member(v, "news"@) {
        Some(JsonV::Array(items)) => search_news_of(items),
        _ => seq![],
    }
}

/// A news item read from a node.
pub fn search_news_item(q: &Json) -> (r: Option<SearchNews>)
    ensures
        r matches Some(n) ==> text_record_of(q@, search_news_keys()) == Some(search_news_view(n)),
        r is None <==> text_record_of(q@, search_news_keys()) is None,
{
    let keys = ["uuid", "title", "link", "publisher"];
    assert(keys_view(keys@) =~= search_news_keys());
    match decode_text_record(q, &keys) {
        Some(v) => {
            let n = SearchNews {
                uuid: field_at(&v, 0),
                title: field_at(&v, 1),
                link: field_at(&v, 2),
                publisher: field_at(&v, 3),
            };
            assert(opt_strings_view(v@) =~= search_news_view(n));
            Some(n)
        },
        None => None,
    }
}

/// The query parameters of a search.
pub fn search_params(query: &str, quotes_count: usize, news_count: usize) -> (p: Vec<
    (String, String),
>)
    ensures
        pairs_view(p@) == seq![
            ("q"@, query@),
            ("quotesCount"@, decimal(quotes_count as nat)),
            ("newsCount"@, decimal(news_count as nat)),
            ("enableFuzzyQuery"@, "false"@),
            ("quotesQueryId"@, "tss_match_phrase_query"@),
        ],
{
    let p = vec![
        ("q".to_owned(), query.to_owned()),
        ("quotesCount".to_owned(), crate::text::decimal_string(quotes_count as u64)),
        ("newsCount".to_owned(), crate::text::decimal_string(news_count as u64)),
        ("enableFuzzyQuery".to_owned(), "false".to_owned()),
        ("quotesQueryId".to_owned(), "tss_match_phrase_query".to_owned()),
    ];
    assert(pairs_view(p@) =~= seq![
        ("q"@, query@),
        ("quotesCount"@, decimal(quotes_count as nat)),
        ("newsCount"@, decimal(news_count as nat)),
        ("enableFuzzyQuery"@, "false"@),
        ("quotesQueryId"@, "tss_match_phrase_query"@),
    ]);
    p
}

/// The news items of a search reply (items that are not news records are
/// skipped; none when there is no `news` array).
pub fn search_news(v: &Json) -> (ns: Vec<SearchNews>)
    ensures
        search_news_views(ns@) == search_reply_news(v@),
{
    let mut out: Vec<SearchNews> = Vec::new();
    match v.get_key("news") {
        Some(nn) => match nn.as_array() {
            Some(arr) => {
                let mut i: usize = 0;
                while i < arr.len()
                    invariant
                        i <= arr@.len(),
                        search_news_views(out@) == search_news_of(items_view(arr@.take(i as int))),
                    decreases arr@.len() - i,
                {
                    let ghost prev = out@;
                    proof {
                        assert(arr@.take(i + 1).drop_last() =~= arr@.take(i as int));
                        assert(items_view(arr@.take(i + 1)).drop_last() =~= items_view(
                            arr@.take(i as int),
                        ));
                        assert(items_view(arr@.take(i + 1)).last() == arr@[i as int]@);
                    }
                    match search_news_item(&arr[i]) {
                        Some(n) => {
                            out.push(n);
                            assert(search_news_views(out@) =~= search_news_views(prev).push(
                                search_news_view(n),
                            ));
                        },
                        None => {},
                    }
                    i = i + 1;
                }
                assert(arr@.take(arr@.len() as int) =~= arr@);
            },
            None => {
                assert(search_news_views(out@) =~= seq![]);
            },
        },
        None => {
            assert(search_news_views(out@) =~= seq![]);
        },
    }
    out
}

/// A quote of a search reply: its text fields, and its relevance score as
/// sent.
#[derive(Debug, Clone)]
pub struct SearchQuoteFields {
    pub symbol: Option<String>,
    pub short_name: Option<String>,
    pub long_name: Option<String>,
    pub exchange: Option<String>,
    pub quote_type: Option<String>,
    pub score: Option<JsonNumber>,
}

/// The field names of a search quote: symbol, short and long name,
/// exchange, type, and score.
pub open spec fn search_quote_keys() -> Seq<Seq<char>> {
    seq!["symbol"@, "shortname"@, "longname"@, "exchDisp"@, "typeDisp"@, "score"@]
}

/// A search quote read from a node: the five text fields and the score,
/// `None` when the node is not a record of the keys or a field has the
/// wrong kind.
pub open spec fn search_quote_of(q: JsonV) -> Option<(Seq<Option<Seq<char>>>, Option<JsonNumber>)> {
    match fields_of(q, search_quote_keys()) {
        Some(fs) => match (
            opt_text_field(fs[0]),
            opt_text_field(fs[1]),
            opt_text_field(fs[2]),
            opt_text_field(fs[3]),
            opt_text_field(fs[4]),
            opt_number_field(fs[5]),
        ) {
            (Some(a), Some(b), Some(c), Some(d), Some(e), Some(n)) => Some((seq![a, b, c, d, e], n)),
            _ => None,
        },
        None => None,
    }
}

/// The view of a search quote, as [`search_quote_of`] gives it.
pub open spec fn search_quote_view(q: SearchQuoteFields) -> (Seq<Option<Seq<char>>>, Option<JsonNumber>) {
    (
        seq![
            opt_string_view(q.symbol),
            opt_string_view(q.short_name),
            opt_string_view(q.long_name),
            opt_string_view(q.exchange),
            opt_string_view(q.quote_type),
        ],
        q.score,
    )
}

/// A search quote read from a node.
pub fn search_quote_item(q: &Json) -> (r: Option<SearchQuoteFields>)
    ensures
        r matches Some(s) ==> search_quote_of(q@) == Some(search_quote_view(s)),
        r is None <==> search_quote_of(q@) is None,
{
    let keys = ["symbol", "shortname", "longname", "exchDisp", "typeDisp", "score"];
    assert(keys_view(keys@) =~= search_quote_keys());
    if !is_record(q, &keys) {
        return None;
    }
    let symbol = match opt_text(field_node(q, &keys, 0)) {
        Ok(o) => o,
        Err(()) => return None,
    };
    let short_name = match opt_text(field_node(q, &keys, 1)) {
        Ok(o) => o,
        Err(()) => return None,
    };
    let long_name = match opt_text(field_node(q, &keys, 2)) {
        Ok(o) => o,
        Err(()) => return None,
    };
    let exchange = match opt_text(field_node(q, &keys, 3)) {
        Ok(o) => o,
        Err(()) => return None,
    };
    let quote_type = match opt_text(field_node(q, &keys, 4)) {
        Ok(o) => o,
        Err(()) => return None,
    };
    let score = match opt_number(field_node(q, &keys, 5)) {
        Ok(n) => n,
        Err(()) => return None,
    };
    let r = SearchQuoteFields { symbol, short_name, long_name, exchange, quote_type, score };
    assert(search_quote_view(r).0 =~= seq![
        opt_string_view(r.symbol),
        opt_string_view(r.short_name),
        opt_string_view(r.long_name),
        opt_string_view(r.exchange),
        opt_string_view(r.quote_type),
    ]);
    Some(r)
}

/// The search quotes among `items`, in order; other items are skipped.
pub open spec fn search_quotes_of(items: Seq<JsonV>) -> Seq<(Seq<Option<Seq<char>>>, Option<JsonNumber>)>
    decreases items.len(),
{
    if items.len() == 0 {
        seq![]
    } else {
        let rest = search_quotes_of(items.drop_last());
        match search_quote_of(items.last()) {
            Some(r) => rest.push(r),
            None => rest,
        }
    }
}

/// The search quotes of a search reply: those of its `quotes` array.
pub open spec fn search_reply_quotes(v: JsonV) -> Seq<(Seq<Option<Seq<char>>>, Option<JsonNumber>)> {
    match member(v, "quotes"@) {
        Some(JsonV::Array(items)) => search_quotes_of(items),
        _ => seq![],
    }
}

/// The views of search quotes.
pub open spec fn search_quote_views(qs: Seq<SearchQuoteFields>) -> Seq<(Seq<Option<Seq<char>>>, Option<JsonNumber>)> {
    qs.map_values(|q: SearchQuoteFields| search_quote_view(q))
}

/// The quotes of a search reply (items that are not quote records are
/// skipped; none when there is no `quotes` array).
pub fn search_quotes(v: &Json) -> (qs: Vec<SearchQuoteFields>)
    ensures
        search_quote_views(qs@) == search_reply_quotes(v@),
{
    let mut out: Vec<SearchQuoteFields> = Vec::new();
    match v.get_key("quotes") {
        Some(nn) => match nn.as_array() {
            Some(arr) => {
                let mut i: usize = 0;
                while i < arr.len()
                    invariant
                        i <= arr@.len(),
                        search_quote_views(out@) == search_quotes_of(items_view(arr@.take(i as int))),
                    decreases arr@.len() - i,
                {
                    let ghost prev = out@;
                    proof {
                        assert(arr@.take(i + 1).drop_last() =~= arr@.take(i as int));
                        assert(items_view(arr@.take(i + 1)).drop_last() =~= items_view(
                            arr@.take(i as int),
                        ));
                        assert(items_view(arr@.take(i + 1)).last() == arr@[i as int]@);
                    }
                    match search_quote_item(&arr[i]) {
                        Some(n) => {
                            out.push(n);
                            assert(search_quote_views(out@) =~= search_quote_views(prev).push(
                                search_quote_view(n),
                            ));
                        },
                        None => {},
                    }
                    i = i + 1;
                }
                assert(arr@.take(arr@.len() as int) =~= arr@);
            },
            None => {
                assert(search_quote_views(out@) =~= seq![]);
            },
        },
        None => {
            assert(search_quote_views(out@) =~= seq![]);
        },
    }
    out
}

} // verus!
