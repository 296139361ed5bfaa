//! Sectors, industries and market snapshots.

use vstd::prelude::*;

use crate::error::YfError;
use crate::http::{pairs_view, QUERY1};
use crate::json::{
    get_at, get_str, items_view, lemma_items_view, member, member_str, opt_string_view,
    path_view, result_node, str_of, yf_result, Json, JsonV,
};
use crate::records::{opt_text, opt_text_field};
use crate::text::{concat2, concat3};

verus! {

/// Market region of a market snapshot.
#[derive(Debug, Clone, Copy, PartialEq, Eq, Structural)]
pub enum MarketRegion {
    Us,
    Gb,
    Asia,
    Europe,
    Rates,
    Commodities,
    Currencies,
    Cryptocurrencies,
}

impl Default for MarketRegion {
    /// The US market.
    fn default() -> (r: MarketRegion)
        ensures
            r == MarketRegion::Us,
    {
        MarketRegion::Us
    }
}

/// The wire name of a region.
pub open spec fn region_text(r: MarketRegion) -> Seq<char> {
    match r {
        MarketRegion::Us => "us"@,
        MarketRegion::Gb => "gb"@,
        MarketRegion::Asia => "asia"@,
        MarketRegion::Europe => "eu"@,
        MarketRegion::Rates => "rates"@,
        MarketRegion::Commodities => "commodities"@,
        MarketRegion::Currencies => "currencies"@,
        MarketRegion::Cryptocurrencies => "crypto"@,
    }
}

impl MarketRegion {
    /// The wire name of this region.
    pub fn as_str(&self) -> (s: &'static str)
        ensures
            s@ == region_text(*self),
    {
        match self {
            MarketRegion::Us => "us",
            MarketRegion::Gb => "gb",
            MarketRegion::Asia => "asia",
            MarketRegion::Europe => "eu",
            MarketRegion::Rates => "rates",
            MarketRegion::Commodities => "commodities",
            MarketRegion::Currencies => "currencies",
            MarketRegion::Cryptocurrencies => "crypto",
        }
    }
}

/// A company referenced by a sector or an industry.
#[derive(Debug, Clone)]
pub struct Company {
    pub name: Option<String>,
    pub symbol: Option<String>,
    pub quote_type: Option<String>,
}

/// A market sector.
#[derive(Debug, Clone)]
pub struct Sector {
    pub name: Option<String>,
    pub symbol: Option<String>,
    pub ticker: Option<String>,
    pub overview: Option<String>,
    pub top_companies: Vec<Company>,
}

/// A market industry.
#[derive(Debug, Clone)]
pub struct Industry {
    pub name: Option<String>,
    pub symbol: Option<String>,
    pub ticker: Option<String>,
    pub sector_key: Option<String>,
    pub sector_name: Option<String>,
    pub overview: Option<String>,
    pub top_companies: Vec<Company>,
    pub top_performing_companies: Vec<Company>,
    pub top_growth_companies: Vec<Company>,
}

/// The view of a company: name, symbol, quote type.
pub type CompanyV = (Option<Seq<char>>, Option<Seq<char>>, Option<Seq<char>>);

/// A company record read from a node: an object with optional string
/// members `name`, `symbol` and `quoteType`, or an array of exactly those
/// three fields in order; anything else is not a company.
pub open spec fn company_of(q: JsonV) -> Option<CompanyV> {
    let fields = match q {
        JsonV::Object(_) => Some(
            (
                opt_text_field(member(q, "name"@)),
                opt_text_field(member(q, "symbol"@)),
                opt_text_field(member(q, "quoteType"@)),
            ),
        ),
        JsonV::Array(items) => if items.len() == 3 {
            Some(
                (
                    opt_text_field(Some(items[0])),
                    opt_text_field(Some(items[1])),
                    opt_text_field(Some(items[2])),
                ),
            )
        } else {
            None
        },
        _ => None,
    };
    match fields {
        Some((Some(a), Some(b), Some(c))) => Some((a, b, c)),
        _ => None,
    }
}

/// The view of a company.
pub open spec fn company_view(c: Company) -> CompanyV {
    (opt_string_view(c.name), opt_string_view(c.symbol), opt_string_view(c.quote_type))
}

/// The views of companies.
pub open spec fn companies_view(cs: Seq<Company>) -> Seq<CompanyV> {
    cs.map_values(|c: Company| company_view(c))
}

/// The companies among `items`, in order; items that are not company
/// records are skipped.
pub open spec fn companies_of_items(items: Seq<JsonV>) -> Seq<CompanyV>
    decreases items.len(),
{
    if items.len() == 0 {
        seq![]
    } else {
        let rest = companies_of_items(items.drop_last());
        match company_of(items.last()) {
            Some(c) => rest.push(c),
            None => rest,
        }
    }
}

/// The companies listed under `v.companies`.
pub open spec fn companies_of(v: JsonV) -> Seq<CompanyV> {
    match member(v, "companies"@) {
        Some(JsonV::Array(items)) => companies_of_items(items),
        _ => seq![],
    }
}

/// A company record read from a node.
pub fn company_from(q: &Json) -> (r: Option<Company>)
    ensures
        r matches Some(c) ==> company_of(q@) == Some(company_view(c)),
        r is None <==> company_of(q@) is None,
{
    let (a, b, c) = match q {
        Json::Object(_) => (
            opt_text(q.get_key("name")),
            opt_text(q.get_key("symbol")),
            opt_text(q.get_key("quoteType")),
        ),
        Json::Array(items) => {
            proof {
                lemma_items_view(items@);
            }
            if items.len() == 3 {
                (opt_text(Some(&items[0])), opt_text(Some(&items[1])), opt_text(Some(&items[2])))
            } else {
                return None;
            }
        },
        _ => {
            return None;
        },
    };
    match (a, b, c) {
        (Ok(name), Ok(symbol), Ok(quote_type)) => Some(Company { name, symbol, quote_type }),
        _ => None,
    }
}

/// The companies listed under `v.companies`; entries that are not company
/// records are skipped.
pub fn companies_from(v: &Json) -> (cs: Vec<Company>)
    ensures
        companies_view(cs@) == companies_of(v@),
{
    let mut out: Vec<Company> = Vec::new();
    match v.get_key("companies") {
        Some(cn) => match cn.as_array() {
            Some(arr) => {
                let mut i: usize = 0;
                while i < arr.len()
                    invariant
                        i <= arr@.len(),
                        companies_view(out@) == companies_of_items(items_view(arr@.take(i as int))),
                    decreases arr@.len() - i,
                {
                    let ghost prev = out@;
                    proof {
                        assert(arr@.take(i + 1).drop_last() =~= arr@.take(i as int));
                        assert(items_view(arr@.take(i + 1)).drop_last() =~= items_view(
                            arr@.take(i as int),
                        ));
                        assert(items_view(arr@.take(i + 1)).last() == arr@[i as int]@);
                    }
                    match company_from(&arr[i]) {
                        Some(c) => {
                            out.push(c);
                            assert(companies_view(out@) =~= companies_view(prev).push(
                                company_view(c),
                            ));
                        },
                        None => {},
                    }
                    i = i + 1;
                }
                assert(arr@.take(arr@.len() as int) =~= arr@);
            },
            None => {
                assert(companies_view(out@) =~= seq![]);
            },
        },
        None => {
            assert(companies_view(out@) =~= seq![]);
        },
    }
    out
}

/// The companies under `r[key].companies`; none when `r` has no `key`.
pub open spec fn companies_at(r: JsonV, key: Seq<char>) -> Seq<CompanyV> {
    match member(r, key) {
        Some(n) => companies_of(n),
        None => seq![],
    }
}

fn companies_at_key(r: &Json, key: &str) -> (cs: Vec<Company>)
    ensures
        companies_view(cs@) == companies_at(r@, key@),
{
    match r.get_key(key) {
        Some(n) => companies_from(n),
        None => {
            let v: Vec<Company> = Vec::new();
            assert(companies_view(v@) =~= seq![]);
            v
        },
    }
}

/// The string at `r.key` (after `raw` unwrapping).
pub open spec fn text_at(r: JsonV, key: Seq<char>) -> Option<Seq<char>> {
    match get_at(r, seq![key]) {
        Some(n) => str_of(n),
        None => None,
    }
}

fn text_at_key(r: &Json, key: &str) -> (s: Option<String>)
    ensures
        opt_string_view(s) == text_at(r@, key@),
{
    let path = [key];
    assert(path_view(path@) =~= seq![key@]);
    get_str(r, &path)
}

/// The URL of a sector.
pub fn sector_url(key: &str) -> (u: String)
    ensures
        u@ == QUERY1@ + "/v1/finance/sectors/"@ + key@,
{
    concat3(QUERY1, "/v1/finance/sectors/", key)
}

/// The URL of an industry.
pub fn industry_url(key: &str) -> (u: String)
    ensures
        u@ == QUERY1@ + "/v1/finance/industries/"@ + key@,
{
    concat3(QUERY1, "/v1/finance/industries/", key)
}

/// Reads a sector reply: the strings and top companies of
/// `finance.result`; `DataMissing("sector <key>")` when there is no result.
pub fn parse_sector(v: &Json, key: &str) -> (r: Result<Sector, YfError>)
    ensures
        r is Err <==> result_node(v@, "finance"@) is None,
        r matches Err(e) ==> (e matches YfError::DataMissing(m) && m@ == "sector "@ + key@),
        r matches Ok(s) ==> (result_node(v@, "finance"@) matches Some(n) && opt_string_view(s.name)
            == text_at(n, "name"@) && opt_string_view(s.symbol) == text_at(n, "symbol"@)
            && opt_string_view(s.ticker) == text_at(n, "ticker"@) && opt_string_view(s.overview)
            == text_at(n, "description"@) && companies_view(s.top_companies@) == companies_at(
            n,
            "topCompanies"@,
        )),
{
    let n = match yf_result(v, "finance") {
        Ok(n) => n,
        Err(_) => {
            return Err(YfError::DataMissing(concat2("sector ", key)));
        },
    };
    Ok(
        Sector {
            name: text_at_key(n, "name"),
            symbol: text_at_key(n, "symbol"),
            ticker: text_at_key(n, "ticker"),
            overview: text_at_key(n, "description"),
            top_companies: companies_at_key(n, "topCompanies"),
        },
    )
}

/// Reads an industry reply: the strings and the three company lists of
/// `finance.result`; `DataMissing("industry <key>")` when there is no
/// result.
pub fn parse_industry(v: &Json, key: &str) -> (r: Result<Industry, YfError>)
    ensures
        r is Err <==> result_node(v@, "finance"@) is None,
        r matches Err(e) ==> (e matches YfError::DataMissing(m) && m@ == "industry "@ + key@),
        r matches Ok(s) ==> (result_node(v@, "finance"@) matches Some(n) && opt_string_view(s.name)
            == text_at(n, "name"@) && opt_string_view(s.symbol) == text_at(n, "symbol"@)
            && opt_string_view(s.ticker) == text_at(n, "ticker"@) && opt_string_view(s.sector_key)
            == text_at(n, "sectorKey"@) && opt_string_view(s.sector_name) == text_at(
            n,
            "sectorName"@,
        ) && opt_string_view(s.overview) == text_at(n, "description"@) && companies_view(
            s.top_companies@,
        ) == companies_at(n, "topCompanies"@) && companies_view(s.top_performing_companies@)
            == companies_at(n, "topPerformingCompanies"@) && companies_view(
            s.top_growth_companies@,
        ) == companies_at(n, "topGrowthCompanies"@)),
{
    let n = match yf_result(v, "finance") {
        Ok(n) => n,
        Err(_) => {
            return Err(YfError::DataMissing(concat2("industry ", key)));
        },
    };
    Ok(
        Industry {
            name: text_at_key(n, "name"),
            symbol: text_at_key(n, "symbol"),
            ticker: text_at_key(n, "ticker"),
            sector_key: text_at_key(n, "sectorKey"),
            sector_name: text_at_key(n, "sectorName"),
            overview: text_at_key(n, "description"),
            top_companies: companies_at_key(n, "topCompanies"),
            top_performing_companies: companies_at_key(n, "topPerformingCompanies"),
            top_growth_companies: companies_at_key(n, "topGrowthCompanies"),
        },
    )
}

/// The URL of the market summary.
pub fn market_summary_url() -> (u: String)
    ensures
        u@ == QUERY1@ + "/v6/finance/quote/marketSummary"@,
{
    concat2(QUERY1, "/v6/finance/quote/marketSummary")
}

/// The URL of the market time.
pub fn market_time_url() -> (u: String)
    ensures
        u@ == QUERY1@ + "/v6/finance/markettime"@,
{
    concat2(QUERY1, "/v6/finance/markettime")
}

/// The query parameters of both market requests.
pub fn market_params(region: MarketRegion) -> (p: Vec<(String, String)>)
    ensures
        pairs_view(p@) == seq![("region"@, region_text(region))],
{
    let p = vec![("region".to_owned(), region.as_str().to_owned())];
    assert(pairs_view(p@) =~= seq![("region"@, region_text(region))]);
    p
}

/// `marketTime[region].status` of a market-time reply.
pub open spec fn market_status_spec(t: JsonV, region: MarketRegion) -> Option<Seq<char>> {
    match member(t, "marketTime"@) {
        Some(m) => match member(m, region_text(region)) {
            Some(r) => member_str(r, "status"@),
            None => None,
        },
        None => None,
    }
}

/// The market status of a region in a market-time reply.
pub fn market_status(t: &Json, region: MarketRegion) -> (s: Option<String>)
    ensures
        opt_string_view(s) == market_status_spec(t@, region),
{
    match t.get_key("marketTime") {
        Some(m) => match m.get_key(region.as_str()) {
            Some(r) => crate::json::get_member_string(r, "status"),
            None => None,
        },
        None => None,
    }
}

/// One row of a market summary, its numbers as sent.
#[derive(Debug, Clone)]
pub struct SummaryRowFields {
    pub exchange: Option<String>,
    pub short_name: Option<String>,
    pub region: Option<String>,
    pub price: Option<crate::json::JsonNumber>,
    pub change: Option<crate::json::JsonNumber>,
    pub percent_change: Option<crate::json::JsonNumber>,
}

/// A summary row read from a row node: the price is the regular market
/// price, else `price`.
pub open spec fn summary_row_matches(f: SummaryRowFields, row: JsonV) -> bool {
    &&& opt_string_view(f.exchange) == text_at(row, "exchange"@)
    &&& opt_string_view(f.short_name) == text_at(row, "shortName"@)
    &&& opt_string_view(f.region) == text_at(row, "region"@)
    &&& f.price == match crate::json::number_at(row, seq!["regularMarketPrice"@]) {
        Some(p) => Some(p),
        None => crate::json::number_at(row, seq!["price"@]),
    }
    &&& f.change == crate::json::number_at(row, seq!["regularMarketChange"@])
    &&& f.percent_change == crate::json::number_at(row, seq!["regularMarketChangePercent"@])
}

/// The rows of a market-summary reply: the items of its
/// `marketSummaryResponse.result` array (none when it is not an array).
pub open spec fn summary_rows_of(v: JsonV) -> Seq<JsonV> {
    match result_node(v, "marketSummaryResponse"@) {
        Some(JsonV::Array(items)) => items,
        _ => seq![],
    }
}

/// Reads the rows of a market-summary reply.
pub fn parse_market_summary(v: &Json) -> (rows: Vec<SummaryRowFields>)
    ensures
        rows@.len() == summary_rows_of(v@).len(),
        forall|i: int|
            0 <= i < rows@.len() ==> summary_row_matches(#[trigger] rows@[i], summary_rows_of(v@)[i]),
{
    let mut out: Vec<SummaryRowFields> = Vec::new();
    match yf_result(v, "marketSummaryResponse") {
        Ok(r) => match r.as_array() {
            Some(arr) => {
                let ghost es = items_view(arr@);
                proof {
                    lemma_items_view(arr@);
                }
                let mut i: usize = 0;
                while i < arr.len()
                    invariant
                        i <= arr@.len(),
                        es == items_view(arr@),
                        es == summary_rows_of(v@),
                        es.len() == arr@.len(),
                        forall|j: int| 0 <= j < arr@.len() ==> #[trigger] es[j] == arr@[j]@,
                        out@.len() == i,
                        forall|j: int| 0 <= j < i ==> summary_row_matches(#[trigger] out@[j], es[j]),
                    decreases arr@.len() - i,
                {
                    let row = &arr[i];
                    out.push(
                        SummaryRowFields {
                            exchange: text_at_key(row, "exchange"),
                            short_name: text_at_key(row, "shortName"),
                            region: text_at_key(row, "region"),
                            price: match crate::json::num1(row, "regularMarketPrice") {
                                Some(p) => Some(p),
                                None => crate::json::num1(row, "price"),
                            },
                            change: crate::json::num1(row, "regularMarketChange"),
                            percent_change: crate::json::num1(row, "regularMarketChangePercent"),
                        },
                    );
                    i = i + 1;
                }
            },
            None => {},
        },
        Err(_) => {},
    }
    out
}

} // verus!
