//! The per-ticker news feed: the feed request and the reading of its
//! articles. Articles carrying an ad payload are left out.

use vstd::prelude::*;

use crate::error::YfError;
use crate::json::{
    dig, get_raw, items_view, lemma_items_view, lemma_members_view, member, member_str,
    members_view, opt_string_view, path_view, str_of, Json, JsonNumber, JsonV,
};
use crate::records::{fields_of, keys_view, opt_text, opt_text_field};
use crate::text::{ascii_lowercase, concat2, concat3, str_eq, to_ascii_lowercase};

verus! {

/// The news stream endpoint.
pub const NCP_URL: &'static str = "https://finance.yahoo.com/xhr/ncp";

/// A news article of a ticker.
#[derive(Debug, Clone)]
pub struct NewsArticle {
    pub uuid: Option<String>,
    pub title: Option<String>,
    pub link: Option<String>,
    pub publisher: Option<String>,
    pub provider_publish_time: Option<i64>,
    pub related_tickers: Vec<String>,
    /// The thumbnail object as sent (`url` / `originalUrl` / `resolutions`).
    pub thumbnail: Option<Json>,
    pub article_type: Option<String>,
}

/// The feed a tab selects: `all` is every item, `press releases` (or
/// `pressrelease`) the press releases, anything else the latest news; the
/// tab is compared in ASCII lowercase.
pub open spec fn query_ref_spec(tab: Seq<char>) -> Seq<char> {
    let t = ascii_lowercase(tab);
    if t == "all"@ {
        "newsAll"@
    } else if t == "press releases"@ || t == "pressrelease"@ {
        "pressRelease"@
    } else {
        "latestNews"@
    }
}

/// The feed a tab selects.
pub fn news_query_ref(tab: &str) -> (r: &'static str)
    ensures
        r@ == query_ref_spec(tab@),
{
    let t = to_ascii_lowercase(tab);
    if str_eq(t.as_str(), "all") {
        "newsAll"
    } else if str_eq(t.as_str(), "press releases") || str_eq(t.as_str(), "pressrelease") {
        "pressRelease"
    } else {
        "latestNews"
    }
}

/// The URL of a news feed request.
pub fn news_url(tab: &str) -> (u: String)
    ensures
        u@ == NCP_URL@ + "?queryRef="@ + query_ref_spec(tab@) + "&serviceKey=ncp_fin"@,
{
    let q = news_query_ref(tab);
    let head = concat3(NCP_URL, "?queryRef=", q);
    concat2(head.as_str(), "&serviceKey=ncp_fin")
}

/// The POST body of a news feed request: the ticker and the number of
/// articles wanted.
pub open spec fn news_body_json(ticker: Seq<char>, count: usize) -> JsonV {
    JsonV::Object(
        seq![
            ("serviceConfig"@, JsonV::Object(
                seq![
                    ("snippetCount"@, JsonV::Number(JsonNumber::PosInt(count as u64))),
                    ("s"@, JsonV::Array(seq![JsonV::Str(ticker)])),
                ],
            )),
        ],
    )
}

/// The POST body of a news feed request.
pub fn news_body(ticker: &str, count: usize) -> (b: Json)
    ensures
        b@ == news_body_json(ticker@, count),
{
    let tickers = vec![Json::Str(ticker.to_owned())];
    let ghost tv = tickers@;
    let inner = vec![
        ("snippetCount".to_owned(), Json::Number(JsonNumber::PosInt(count as u64))),
        ("s".to_owned(), Json::Array(tickers)),
    ];
    let ghost iv = inner@;
    let outer = vec![("serviceConfig".to_owned(), Json::Object(inner))];
    let ghost ov = outer@;
    proof {
        lemma_items_view(tv);
        assert(items_view(tv) =~= seq![JsonV::Str(ticker@)]);
        lemma_members_view(iv);
        lemma_members_view(ov);
        assert(members_view(iv) =~= seq![
            ("snippetCount"@, JsonV::Number(JsonNumber::PosInt(count as u64))),
            ("s"@, JsonV::Array(seq![JsonV::Str(ticker@)])),
        ]);
        assert(members_view(ov) =~= news_body_json(ticker@, count)->Object_0);
    }
    Json::Object(outer)
}

/// An optional integer field: absent or `null` is `None`, an integer that
/// fits in `i64` is itself, anything else makes the record invalid.
pub open spec fn opt_i64_field(v: Option<JsonV>) -> Option<Option<i64>> {
    match v {
        None => Some(None),
        Some(JsonV::Null) => Some(None),
        Some(JsonV::Number(JsonNumber::PosInt(u))) => if u <= i64::MAX {
            Some(Some(u as i64))
        } else {
            None
        },
        Some(JsonV::Number(JsonNumber::NegInt(i))) => Some(Some(i)),
        _ => None,
    }
}

/// A required list of strings: an array of strings; anything else
/// (absent included) makes the record invalid.
pub open spec fn strings_field(v: Option<JsonV>) -> Option<Seq<Seq<char>>> {
    match v {
        Some(JsonV::Array(items)) => if forall|i: int|
            0 <= i < items.len() ==> (#[trigger] str_of(items[i])) is Some {
            Some(items.map_values(|x: JsonV| str_of(x)->0))
        } else {
            None
        },
        _ => None,
    }
}

/// An optional node: absent or `null` is `None`, anything else itself.
pub open spec fn opt_node_field(v: Option<JsonV>) -> Option<JsonV> {
    match v {
        Some(JsonV::Null) => None,
        other => other,
    }
}

/// The field names of an article.
pub open spec fn article_keys() -> Seq<Seq<char>> {
    seq![
        "uuid"@,
        "title"@,
        "link"@,
        "publisher"@,
        "providerPublishTime"@,
        "relatedTickers"@,
        "thumbnail"@,
        "type"@,
    ]
}

/// The view of an article: uuid, title, link, publisher, publish time,
/// related tickers, thumbnail, type.
pub type ArticleV = (
    Option<Seq<char>>,
    Option<Seq<char>>,
    Option<Seq<char>>,
    Option<Seq<char>>,
    Option<i64>,
    Seq<Seq<char>>,
    Option<JsonV>,
    Option<Seq<char>>,
);

/// An article read from a node; `None` when the node is not an article
/// record (see [`fields_of`]) or a field has the wrong kind, or the related
/// tickers are missing.
pub open spec fn article_of(q: JsonV) -> Option<ArticleV> {
    match fields_of(q, article_keys()) {
        Some(fs) => match (
            opt_text_field(fs[0]),
            opt_text_field(fs[1]),
            opt_text_field(fs[2]),
            opt_text_field(fs[3]),
            opt_i64_field(fs[4]),
            strings_field(fs[5]),
            opt_text_field(fs[7]),
        ) {
            (Some(a), Some(b), Some(c), Some(d), Some(t), Some(r), Some(k)) => Some(
                (a, b, c, d, t, r, opt_node_field(fs[6]), k),
            ),
            _ => None,
        },
        None => None,
    }
}

/// Strings as character sequences.
pub open spec fn strings_view(v: Seq<String>) -> Seq<Seq<char>> {
    v.map_values(|s: String| s@)
}

/// The view of an article.
pub open spec fn article_view(a: NewsArticle) -> ArticleV {
    (
        opt_string_view(a.uuid),
        opt_string_view(a.title),
        opt_string_view(a.link),
        opt_string_view(a.publisher),
        a.provider_publish_time,
        strings_view(a.related_tickers@),
        match a.thumbnail {
            Some(t) => Some(t@),
            None => None,
        },
        opt_string_view(a.article_type),
    )
}

/// The views of articles.
pub open spec fn articles_view(s: Seq<NewsArticle>) -> Seq<ArticleV> {
    s.map_values(|a: NewsArticle| article_view(a))
}

/// Does the item carry an ad payload (a non-empty `ad` array)?
pub open spec fn is_ad(a: JsonV) -> bool {
    match member(a, "ad"@) {
        Some(JsonV::Array(x)) => x.len() > 0,
        _ => false,
    }
}

/// The articles among stream items, in order: items with an ad payload
/// and items that are not articles are skipped.
pub open spec fn articles_of(items: Seq<JsonV>) -> Seq<ArticleV>
    decreases items.len(),
{
    if items.len() == 0 {
        seq![]
    } else {
        let rest = articles_of(items.drop_last());
        let a = items.last();
        if is_ad(a) {
            rest
        } else {
            match article_of(a) {
                Some(x) => rest.push(x),
                None => rest,
            }
        }
    }
}

/// The stream of a news reply: `data.tickerStream.stream`, when an array.
pub open spec fn news_stream(v: JsonV) -> Option<Seq<JsonV>> {
    match dig(v, seq!["data"@, "tickerStream"@, "stream"@]) {
        Some(JsonV::Array(items)) => Some(items),
        _ => None,
    }
}

fn opt_i64(v: Option<&Json>) -> (r: Result<Option<i64>, ()>)
    ensures
        r matches Ok(o) ==> opt_i64_field(crate::json::deref_opt(v)) == Some(o),
        r is Err <==> opt_i64_field(crate::json::deref_opt(v)) is None,
{
    match v {
        None => Ok(None),
        Some(Json::Null) => Ok(None),
        Some(Json::Number(JsonNumber::PosInt(u))) => {
            if *u <= 0x7fff_ffff_ffff_ffffu64 {
                Ok(Some(*u as i64))
            } else {
                Err(())
            }
        },
        Some(Json::Number(JsonNumber::NegInt(i))) => Ok(Some(*i)),
        Some(_) => Err(()),
    }
}

fn strings(v: Option<&Json>) -> (r: Result<Vec<String>, ()>)
    ensures
        r matches Ok(s) ==> strings_field(crate::json::deref_opt(v)) == Some(strings_view(s@)),
        r is Err <==> strings_field(crate::json::deref_opt(v)) is None,
{
    match v {
        Some(Json::Array(items)) => {
            let ghost iv = items_view(items@);
            proof {
                lemma_items_view(items@);
            }
            let mut out: Vec<String> = Vec::new();
            let mut i: usize = 0;
            while i < items.len()
                invariant
                    i <= items@.len(),
                    iv == items_view(items@),
                    crate::json::deref_opt(v) == Some(JsonV::Array(iv)),
                    iv.len() == items@.len(),
                    forall|j: int| 0 <= j < items@.len() ==> #[trigger] iv[j] == items@[j]@,
                    forall|j: int| 0 <= j < i ==> (#[trigger] str_of(iv[j])) is Some,
                    strings_view(out@) == iv.take(i as int).map_values(|x: JsonV| str_of(x)->0),
                decreases items@.len() - i,
            {
                match items[i].as_str() {
                    Some(s) => {
                        let ghost prev = out@;
                        out.push(s.to_owned());
                        assert(strings_view(out@) =~= strings_view(prev).push(s@));
                        assert(iv.take(i + 1).map_values(|x: JsonV| str_of(x)->0) =~= iv.take(
                            i as int,
                        ).map_values(|x: JsonV| str_of(x)->0).push(str_of(iv[i as int])->0));
                    },
                    None => {
                        assert(str_of(iv[i as int]) is None);
                        return Err(());
                    },
                }
                i = i + 1;
            }
            assert(iv.take(items@.len() as int) =~= iv);
            Ok(out)
        },
        _ => Err(()),
    }
}

fn opt_node(v: Option<&Json>) -> (r: Option<Json>)
    ensures
        (match r {
            Some(t) => Some(t@),
            None => None,
        }) == opt_node_field(crate::json::deref_opt(v)),
{
    match v {
        None => None,
        Some(Json::Null) => None,
        Some(t) => Some(t.clone()),
    }
}

/// An article read from a node.
pub fn article_from(q: &Json) -> (r: Option<NewsArticle>)
    ensures
        r matches Some(a) ==> article_of(q@) == Some(article_view(a)),
        r is None <==> article_of(q@) is None,
{
    let ghost ks = article_keys();
    let fields: [Option<&Json>; 8] = match q {
        Json::Object(_) => [
            q.get_key("uuid"),
            q.get_key("title"),
            q.get_key("link"),
            q.get_key("publisher"),
            q.get_key("providerPublishTime"),
            q.get_key("relatedTickers"),
            q.get_key("thumbnail"),
            q.get_key("type"),
        ],
        Json::Array(items) => {
            proof {
                lemma_items_view(items@);
            }
            if items.len() == 8 {
                [
                    Some(&items[0]),
                    Some(&items[1]),
                    Some(&items[2]),
                    Some(&items[3]),
                    Some(&items[4]),
                    Some(&items[5]),
                    Some(&items[6]),
                    Some(&items[7]),
                ]
            } else {
                return None;
            }
        },
        _ => {
            return None;
        },
    };
    let ghost fs = fields_of(q@, ks)->0;
    assert(fields_of(q@, ks) is Some);
    assert(forall|i: int| 0 <= i < 8 ==> #[trigger] fs[i] == crate::json::deref_opt(fields@[i]));
    match (
        opt_text(fields[0]),
        opt_text(fields[1]),
        opt_text(fields[2]),
        opt_text(fields[3]),
        opt_i64(fields[4]),
        strings(fields[5]),
        opt_text(fields[7]),
    ) {
        (Ok(uuid), Ok(title), Ok(link), Ok(publisher), Ok(t), Ok(related), Ok(kind)) => Some(
            NewsArticle {
                uuid,
                title,
                link,
                publisher,
                provider_publish_time: t,
                related_tickers: related,
                thumbnail: opt_node(fields[6]),
                article_type: kind,
            },
        ),
        _ => None,
    }
}

/// Does the item carry an ad payload?
pub fn has_ad(a: &Json) -> (r: bool)
    ensures
        r == is_ad(a@),
{
    match a.get_key("ad") {
        Some(ad) => match ad.as_array() {
            Some(x) => x.len() > 0,
            None => false,
        },
        None => false,
    }
}

/// The message of the error for a reply without a stream.
pub open spec fn stream_missing_message(ticker: Seq<char>) -> Seq<char> {
    "news stream missing for "@ + ticker
}

/// Reads a news reply: the articles of `data.tickerStream.stream`, ads and
/// non-articles left out; `DataMissing` when there is no stream array.
pub fn parse_news(v: &Json, ticker: &str) -> (r: Result<Vec<NewsArticle>, YfError>)
    ensures
        r is Err <==> news_stream(v@) is None,
        r matches Err(e) ==> (e matches YfError::DataMissing(m) && m@ == stream_missing_message(
            ticker@,
        )),
        r matches Ok(arts) ==> (news_stream(v@) matches Some(items) && articles_view(arts@)
            == articles_of(items)),
{
    let path = ["data", "tickerStream", "stream"];
    assert(path_view(path@) =~= seq!["data"@, "tickerStream"@, "stream"@]);
    let arr = match get_raw(v, &path) {
        Some(s) => match s.as_array() {
            Some(a) => a,
            None => {
                return Err(YfError::DataMissing(concat2("news stream missing for ", ticker)));
            },
        },
        None => {
            return Err(YfError::DataMissing(concat2("news stream missing for ", ticker)));
        },
    };
    let mut out: Vec<NewsArticle> = Vec::new();
    let mut i: usize = 0;
    while i < arr.len()
        invariant
            i <= arr@.len(),
            articles_view(out@) == articles_of(items_view(arr@.take(i as int))),
        decreases arr@.len() - i,
    {
        let ghost prev = out@;
        proof {
            assert(arr@.take(i + 1).drop_last() =~= arr@.take(i as int));
            assert(items_view(arr@.take(i + 1)).drop_last() =~= items_view(arr@.take(i as int)));
            assert(items_view(arr@.take(i + 1)).last() == arr@[i as int]@);
        }
        if !has_ad(&arr[i]) {
            match article_from(&arr[i]) {
                Some(a) => {
                    out.push(a);
                    assert(articles_view(out@) =~= articles_view(prev).push(article_view(a)));
                },
                None => {},
            }
        }
        i = i + 1;
    }
    assert(arr@.take(arr@.len() as int) =~= arr@);
    Ok(out)
}

/// The URL of a thumbnail object: its `originalUrl`, else its `url`.
pub open spec fn thumbnail_url_spec(t: JsonV) -> Option<Seq<char>> {
    match member_str(t, "originalUrl"@) {
        Some(u) => Some(u),
        None => member_str(t, "url"@),
    }
}

impl NewsArticle {
    /// The thumbnail URL: `originalUrl`, falling back to `url`.
    pub fn thumbnail_url(&self) -> (r: Option<String>)
        ensures
            opt_string_view(r) == (match self.thumbnail {
                Some(t) => thumbnail_url_spec(t@),
                None => None,
            }),
    {
        match &self.thumbnail {
            Some(t) => match crate::json::get_member_str(t, "originalUrl") {
                Some(u) => Some(u.to_owned()),
                None => crate::json::get_member_string(t, "url"),
            },
            None => None,
        }
    }
}

} // verus!
