//! The blobs read out of a `quoteSummary` result: security information,
//! the fast subset, holders, sustainability scores, analyst price targets
//! and fund data. Numeric fields are the JSON numbers as sent; converting
//! them to floating point is left to the caller.

use vstd::prelude::*;

use crate::json::{
    get, get_or_null, get_text, items_view, lemma_items_view, lemma_members_view, members_view,
    node_or_null, num1, num2, num3, number_at, opt_string_view, path_view, text1, text2, text_at,
    get_at, Json, JsonNumber, JsonV,
};

verus! {

/// The common fields of a security's information blob.
#[derive(Debug, Clone)]
pub struct InfoFields {
    pub symbol: Option<String>,
    pub short_name: Option<String>,
    pub long_name: Option<String>,
    pub exchange: Option<String>,
    pub quote_type: Option<String>,
    pub sector: Option<String>,
    pub industry: Option<String>,
    pub currency: Option<String>,
    pub market_cap: Option<JsonNumber>,
    pub trailing_pe: Option<JsonNumber>,
    pub forward_pe: Option<JsonNumber>,
    pub price: Option<JsonNumber>,
    pub previous_close: Option<JsonNumber>,
    pub regular_market_price: Option<JsonNumber>,
    pub fifty_two_week_high: Option<JsonNumber>,
    pub fifty_two_week_low: Option<JsonNumber>,
    pub dividend_yield: Option<JsonNumber>,
    pub beta: Option<JsonNumber>,
    pub shares_outstanding: Option<JsonNumber>,
}

/// The information blob read from a result: each field at its path; the
/// symbol falls back to the ticker, the price to the regular market price.
pub open spec fn info_matches(i: InfoFields, r: JsonV, ticker: Seq<char>) -> bool {
    &&& opt_string_view(i.symbol) == match text_at(r, seq!["price"@, "symbol"@]) {
        Some(s) => Some(s),
        None => Some(ticker),
    }
    &&& opt_string_view(i.short_name) == text_at(r, seq!["price"@, "shortName"@])
    &&& opt_string_view(i.long_name) == text_at(r, seq!["price"@, "longName"@])
    &&& opt_string_view(i.exchange) == text_at(r, seq!["price"@, "exchangeName"@])
    &&& opt_string_view(i.quote_type) == text_at(r, seq!["quoteType"@, "quoteType"@])
    &&& opt_string_view(i.sector) == text_at(r, seq!["assetProfile"@, "sector"@])
    &&& opt_string_view(i.industry) == text_at(r, seq!["assetProfile"@, "industry"@])
    &&& opt_string_view(i.currency) == text_at(r, seq!["price"@, "currency"@])
    &&& i.market_cap == number_at(r, seq!["price"@, "marketCap"@])
    &&& i.trailing_pe == number_at(r, seq!["summaryDetail"@, "trailingPE"@])
    &&& i.forward_pe == number_at(r, seq!["summaryDetail"@, "forwardPE"@])
    &&& i.price == match number_at(r, seq!["financialData"@, "currentPrice"@, "raw"@]) {
        Some(p) => Some(p),
        None => number_at(r, seq!["price"@, "regularMarketPrice"@, "raw"@]),
    }
    &&& i.previous_close == number_at(r, seq!["price"@, "regularMarketPreviousClose"@, "raw"@])
    &&& i.regular_market_price == number_at(r, seq!["price"@, "regularMarketPrice"@, "raw"@])
    &&& i.fifty_two_week_high == number_at(r, seq!["price"@, "fiftyTwoWeekHigh"@, "raw"@])
    &&& i.fifty_two_week_low == number_at(r, seq!["price"@, "fiftyTwoWeekLow"@, "raw"@])
    &&& i.dividend_yield == number_at(r, seq!["summaryDetail"@, "dividendYield"@, "raw"@])
    &&& i.beta == number_at(r, seq!["defaultKeyStatistics"@, "beta"@, "raw"@])
    &&& i.shares_outstanding == number_at(r, seq!["price"@, "sharesOutstanding"@])
}

impl InfoFields {
    /// Reads the information blob of `ticker` out of a result.
    pub fn from_result(ticker: &str, result: &Json) -> (i: InfoFields)
        ensures
            info_matches(i, result@, ticker@),
    {
        let i = InfoFields {
            symbol: text2(result, "price", "symbol"),
            short_name: text2(result, "price", "shortName"),
            long_name: text2(result, "price", "longName"),
            exchange: text2(result, "price", "exchangeName"),
            quote_type: text2(result, "quoteType", "quoteType"),
            sector: text2(result, "assetProfile", "sector"),
            industry: text2(result, "assetProfile", "industry"),
            currency: text2(result, "price", "currency"),
            market_cap: num2(result, "price", "marketCap"),
            trailing_pe: num2(result, "summaryDetail", "trailingPE"),
            forward_pe: num2(result, "summaryDetail", "forwardPE"),
            price: match num3(result, "financialData", "currentPrice", "raw") {
                Some(p) => Some(p),
                None => num3(result, "price", "regularMarketPrice", "raw"),
            },
            previous_close: num3(result, "price", "regularMarketPreviousClose", "raw"),
            regular_market_price: num3(result, "price", "regularMarketPrice", "raw"),
            fifty_two_week_high: num3(result, "price", "fiftyTwoWeekHigh", "raw"),
            fifty_two_week_low: num3(result, "price", "fiftyTwoWeekLow", "raw"),
            dividend_yield: num3(result, "summaryDetail", "dividendYield", "raw"),
            beta: num3(result, "defaultKeyStatistics", "beta", "raw"),
            shares_outstanding: num2(result, "price", "sharesOutstanding"),
        };
        i.with_symbol_fallback(ticker)
    }

    /// The blob with its symbol set to `ticker` when absent.
    pub fn with_symbol_fallback(self, ticker: &str) -> (i: InfoFields)
        ensures
            opt_string_view(i.symbol) == match self.symbol {
                Some(s) => Some(s@),
                None => Some(ticker@),
            },
            i == (InfoFields { symbol: i.symbol, ..self }),
    {
        match self.symbol {
            Some(_) => self,
            None => InfoFields { symbol: Some(ticker.to_owned()), ..self },
        }
    }
}

/// The fast subset of a security's information.
#[derive(Debug, Clone)]
pub struct FastInfoFields {
    pub currency: Option<String>,
    pub quote_type: Option<String>,
    pub exchange: Option<String>,
    pub timezone: Option<String>,
    pub shares: Option<JsonNumber>,
    pub market_cap: Option<JsonNumber>,
    pub last_price: Option<JsonNumber>,
    pub previous_close: Option<JsonNumber>,
    pub open: Option<JsonNumber>,
    pub day_high: Option<JsonNumber>,
    pub day_low: Option<JsonNumber>,
    pub last_volume: Option<JsonNumber>,
    pub fifty_day_average: Option<JsonNumber>,
    pub two_hundred_day_average: Option<JsonNumber>,
    pub year_high: Option<JsonNumber>,
    pub year_low: Option<JsonNumber>,
    pub year_change: Option<JsonNumber>,
}

/// The fast subset read from a result: each field at its path.
pub open spec fn fast_info_matches(f: FastInfoFields, r: JsonV) -> bool {
    &&& opt_string_view(f.currency) == text_at(r, seq!["price"@, "currency"@])
    &&& opt_string_view(f.quote_type) == text_at(r, seq!["quoteType"@, "quoteType"@])
    &&& opt_string_view(f.exchange) == text_at(r, seq!["price"@, "exchangeName"@])
    &&& opt_string_view(f.timezone) == text_at(r, seq!["quoteType"@, "exchangeTimezoneName"@])
    &&& f.shares == number_at(r, seq!["price"@, "sharesOutstanding"@])
    &&& f.market_cap == number_at(r, seq!["price"@, "marketCap"@])
    &&& f.last_price == number_at(r, seq!["price"@, "regularMarketPrice"@, "raw"@])
    &&& f.previous_close == number_at(r, seq!["price"@, "regularMarketPreviousClose"@, "raw"@])
    &&& f.open == number_at(r, seq!["price"@, "regularMarketOpen"@, "raw"@])
    &&& f.day_high == number_at(r, seq!["price"@, "regularMarketDayHigh"@, "raw"@])
    &&& f.day_low == number_at(r, seq!["price"@, "regularMarketDayLow"@, "raw"@])
    &&& f.last_volume == number_at(r, seq!["price"@, "regularMarketVolume"@, "raw"@])
    &&& f.fifty_day_average == number_at(r, seq!["price"@, "fiftyDayAverage"@, "raw"@])
    &&& f.two_hundred_day_average == number_at(r, seq!["price"@, "twoHundredDayAverage"@, "raw"@])
    &&& f.year_high == number_at(r, seq!["price"@, "fiftyTwoWeekHigh"@, "raw"@])
    &&& f.year_low == number_at(r, seq!["price"@, "fiftyTwoWeekLow"@, "raw"@])
    &&& f.year_change == number_at(r, seq!["price"@, "fiftyTwoWeekChange"@, "raw"@])
}

impl FastInfoFields {
    /// Reads the fast subset out of a result.
    pub fn from_result(result: &Json) -> (f: FastInfoFields)
        ensures
            fast_info_matches(f, result@),
    {
        FastInfoFields {
            currency: text2(result, "price", "currency"),
            quote_type: text2(result, "quoteType", "quoteType"),
            exchange: text2(result, "price", "exchangeName"),
            timezone: text2(result, "quoteType", "exchangeTimezoneName"),
            shares: num2(result, "price", "sharesOutstanding"),
            market_cap: num2(result, "price", "marketCap"),
            last_price: num3(result, "price", "regularMarketPrice", "raw"),
            previous_close: num3(result, "price", "regularMarketPreviousClose", "raw"),
            open: num3(result, "price", "regularMarketOpen", "raw"),
            day_high: num3(result, "price", "regularMarketDayHigh", "raw"),
            day_low: num3(result, "price", "regularMarketDayLow", "raw"),
            last_volume: num3(result, "price", "regularMarketVolume", "raw"),
            fifty_day_average: num3(result, "price", "fiftyDayAverage", "raw"),
            two_hundred_day_average: num3(result, "price", "twoHundredDayAverage", "raw"),
            year_high: num3(result, "price", "fiftyTwoWeekHigh", "raw"),
            year_low: num3(result, "price", "fiftyTwoWeekLow", "raw"),
            year_change: num3(result, "price", "fiftyTwoWeekChange", "raw"),
        }
    }
}

/// The modules of a fast-info request.
pub fn fast_info_modules() -> (m: Vec<&'static str>)
    ensures
        crate::quote::strs_view(m@) == seq![
            "price"@,
            "quoteType"@,
            "summaryDetail"@,
            "defaultKeyStatistics"@,
        ],
{
    let m = vec!["price", "quoteType", "summaryDetail", "defaultKeyStatistics"];
    assert(crate::quote::strs_view(m@) =~= seq![
        "price"@,
        "quoteType"@,
        "summaryDetail"@,
        "defaultKeyStatistics"@,
    ]);
    m
}

/// One row of a holders table.
#[derive(Debug, Clone)]
pub struct HolderFields {
    pub name: Option<String>,
    pub pct_in_floats: Option<JsonNumber>,
    pub position: Option<JsonNumber>,
    pub value: Option<JsonNumber>,
    pub date: Option<String>,
}

/// A holders row read from an entry.
pub open spec fn holder_matches(h: HolderFields, e: JsonV) -> bool {
    &&& opt_string_view(h.name) == text_at(e, seq!["name"@])
    &&& h.pct_in_floats == number_at(e, seq!["pctHeld"@, "raw"@])
    &&& h.position == number_at(e, seq!["positionDirect"@, "raw"@])
    &&& h.value == number_at(e, seq!["value"@, "raw"@])
    &&& opt_string_view(h.date) == text_at(e, seq!["reportDate"@])
}

/// The entries of the array at `path` (after `raw` unwrapping).
pub open spec fn array_at(r: JsonV, path: Seq<Seq<char>>) -> Seq<JsonV> {
    match get_at(r, path) {
        Some(JsonV::Array(items)) => items,
        _ => seq![],
    }
}

fn array_ref<'a>(r: &'a Json, path: &[&str], empty: &'a Vec<Json>) -> (a: &'a Vec<Json>)
    requires
        empty@.len() == 0,
    ensures
        items_view(a@) == array_at(r@, path_view(path@)),
{
    match get(r, path) {
        Some(n) => match n.as_array() {
            Some(a) => a,
            None => {
                assert(items_view(empty@) =~= seq![]);
                empty
            },
        },
        None => {
            assert(items_view(empty@) =~= seq![]);
            empty
        },
    }
}

/// A holders table: one row per entry of the array at `path`.
pub fn parse_holder_table(result: &Json, path: &[&str]) -> (rows: Vec<HolderFields>)
    ensures
        rows@.len() == array_at(result@, path_view(path@)).len(),
        forall|i: int|
            0 <= i < rows@.len() ==> holder_matches(
                #[trigger] rows@[i],
                array_at(result@, path_view(path@))[i],
            ),
{
    let empty: Vec<Json> = Vec::new();
    let arr = array_ref(result, path, &empty);
    let ghost es = items_view(arr@);
    proof {
        lemma_items_view(arr@);
    }
    let mut out: Vec<HolderFields> = Vec::new();
    let mut i: usize = 0;
    while i < arr.len()
        invariant
            i <= arr@.len(),
            es == items_view(arr@),
            es == array_at(result@, path_view(path@)),
            es.len() == arr@.len(),
            forall|j: int| 0 <= j < arr@.len() ==> #[trigger] es[j] == arr@[j]@,
            out@.len() == i,
            forall|j: int| 0 <= j < i ==> holder_matches(#[trigger] out@[j], es[j]),
        decreases arr@.len() - i,
    {
        let v = &arr[i];
        out.push(
            HolderFields {
                name: text1(v, "name"),
                pct_in_floats: num2(v, "pctHeld", "raw"),
                position: num2(v, "positionDirect", "raw"),
                value: num2(v, "value", "raw"),
                date: text1(v, "reportDate"),
            },
        );
        i = i + 1;
    }
    out
}

/// ESG scores.
#[derive(Debug, Clone)]
pub struct SustainabilityFields {
    pub esg_score: Option<JsonNumber>,
    pub environment_score: Option<JsonNumber>,
    pub social_score: Option<JsonNumber>,
    pub governance_score: Option<JsonNumber>,
    pub total_esg: Option<JsonNumber>,
    pub percentile: Option<JsonNumber>,
    /// The `esgScores` node (`null` when absent).
    pub raw: Json,
}

/// The ESG scores of a result: each score under `esgScores`.
pub fn parse_sustainability(result: &Json) -> (s: SustainabilityFields)
    ensures
        s.raw@ == node_or_null(result@, "esgScores"@),
        s.esg_score == number_at(s.raw@, seq!["esgScore"@]),
        s.environment_score == number_at(s.raw@, seq!["environmentScore"@]),
        s.social_score == number_at(s.raw@, seq!["socialScore"@]),
        s.governance_score == number_at(s.raw@, seq!["governanceScore"@]),
        s.total_esg == number_at(s.raw@, seq!["totalEsg"@]),
        s.percentile == number_at(s.raw@, seq!["percentile"@]),
{
    let esg = get_or_null(result, "esgScores");
    SustainabilityFields {
        esg_score: num1(&esg, "esgScore"),
        environment_score: num1(&esg, "environmentScore"),
        social_score: num1(&esg, "socialScore"),
        governance_score: num1(&esg, "governanceScore"),
        total_esg: num1(&esg, "totalEsg"),
        percentile: num1(&esg, "percentile"),
        raw: esg,
    }
}

/// Analyst price targets.
#[derive(Debug, Clone)]
pub struct PriceTargetFields {
    pub current: Option<JsonNumber>,
    pub low: Option<JsonNumber>,
    pub high: Option<JsonNumber>,
    pub mean: Option<JsonNumber>,
    pub median: Option<JsonNumber>,
    pub num_analysts: Option<JsonNumber>,
}

/// The analyst price targets of a result: each under `financialData`.
pub fn parse_price_targets(result: &Json) -> (t: PriceTargetFields)
    ensures
        ({
            let fd = node_or_null(result@, "financialData"@);
            &&& t.current == number_at(fd, seq!["currentPrice"@, "raw"@])
            &&& t.low == number_at(fd, seq!["targetLowPrice"@, "raw"@])
            &&& t.high == number_at(fd, seq!["targetHighPrice"@, "raw"@])
            &&& t.mean == number_at(fd, seq!["targetMeanPrice"@, "raw"@])
            &&& t.median == number_at(fd, seq!["targetMedianPrice"@, "raw"@])
            &&& t.num_analysts == number_at(fd, seq!["numberOfAnalystOpinions"@, "raw"@])
        }),
{
    let fd = get_or_null(result, "financialData");
    PriceTargetFields {
        current: num2(&fd, "currentPrice", "raw"),
        low: num2(&fd, "targetLowPrice", "raw"),
        high: num2(&fd, "targetHighPrice", "raw"),
        mean: num2(&fd, "targetMeanPrice", "raw"),
        median: num2(&fd, "targetMedianPrice", "raw"),
        num_analysts: num2(&fd, "numberOfAnalystOpinions", "raw"),
    }
}

/// A top holding of a fund.
#[derive(Debug, Clone)]
pub struct FundHoldingFields {
    pub symbol: Option<String>,
    pub name: Option<String>,
    pub holding_percent: Option<JsonNumber>,
    pub value: Option<JsonNumber>,
}

/// Fund data.
#[derive(Debug, Clone)]
pub struct FundsFields {
    pub family: Option<String>,
    pub category_name: Option<String>,
    pub legal_type: Option<String>,
    /// The inception date, epoch seconds as sent.
    pub fund_inception: Option<JsonNumber>,
    pub nav_price: Option<JsonNumber>,
    pub total_assets: Option<JsonNumber>,
    pub expense_ratio: Option<JsonNumber>,
    pub ytd_return: Option<JsonNumber>,
    pub trailing_return_y1: Option<JsonNumber>,
    pub sector_weightings: Vec<(String, Option<JsonNumber>)>,
    pub top_holdings: Vec<FundHoldingFields>,
}

/// The weight of a sector entry: the first member of an object entry, its
/// name and its number; entries that are not objects or are empty give none.
pub open spec fn sector_weight_of(e: JsonV) -> Option<(Seq<char>, Option<JsonNumber>)> {
    match e {
        JsonV::Object(ms) => if ms.len() > 0 {
            Some((ms[0].0, number_at(ms[0].1, seq![])))
        } else {
            None
        },
        _ => None,
    }
}

/// The sector weights among entries, in order.
pub open spec fn sector_weights_of(es: Seq<JsonV>) -> Seq<(Seq<char>, Option<JsonNumber>)>
    decreases es.len(),
{
    if es.len() == 0 {
        seq![]
    } else {
        match sector_weight_of(es.last()) {
            Some(w) => sector_weights_of(es.drop_last()).push(w),
            None => sector_weights_of(es.drop_last()),
        }
    }
}

/// The views of sector weights.
pub open spec fn weights_view(ws: Seq<(String, Option<JsonNumber>)>) -> Seq<
    (Seq<char>, Option<JsonNumber>),
> {
    ws.map_values(|w: (String, Option<JsonNumber>)| (w.0@, w.1))
}

/// A fund holding read from an entry.
pub open spec fn holding_matches(h: FundHoldingFields, e: JsonV) -> bool {
    &&& opt_string_view(h.symbol) == text_at(e, seq!["symbol"@])
    &&& opt_string_view(h.name) == text_at(e, seq!["holdingName"@])
    &&& h.holding_percent == number_at(e, seq!["holdingPercent"@, "raw"@])
    &&& h.value == number_at(e, seq!["value"@, "raw"@])
}

fn sector_weights(fp: &Json) -> (ws: Vec<(String, Option<JsonNumber>)>)
    ensures
        weights_view(ws@) == sector_weights_of(array_at(fp@, seq!["sectorWeightings"@])),
{
    let empty: Vec<Json> = Vec::new();
    let p = ["sectorWeightings"];
    assert(path_view(p@) =~= seq!["sectorWeightings"@]);
    let arr = array_ref(fp, &p, &empty);
    let mut out: Vec<(String, Option<JsonNumber>)> = Vec::new();
    let mut i: usize = 0;
    while i < arr.len()
        invariant
            i <= arr@.len(),
            weights_view(out@) == sector_weights_of(items_view(arr@.take(i as int))),
        decreases arr@.len() - i,
    {
        let ghost prev = out@;
        proof {
            assert(arr@.take(i + 1).drop_last() =~= arr@.take(i as int));
            assert(items_view(arr@.take(i + 1)).drop_last() =~= items_view(arr@.take(i as int)));
            assert(items_view(arr@.take(i + 1)).last() == arr@[i as int]@);
        }
        match arr[i].as_object() {
            Some(ms) => {
                proof {
                    lemma_members_view(ms@);
                }
                if ms.len() > 0 {
                    let empty_path: [&str; 0] = [];
                    assert(path_view(empty_path@) =~= seq![]);
                    let w = crate::json::get_number(&ms[0].1, &empty_path);
                    out.push((ms[0].0.clone(), w));
                    assert(weights_view(out@) =~= weights_view(prev).push(
                        (ms@[0].0@, number_at(ms@[0].1@, seq![])),
                    ));
                }
            },
            None => {},
        }
        i = i + 1;
    }
    assert(arr@.take(arr@.len() as int) =~= arr@);
    out
}

/// Reads fund data out of a result: profile strings and inception date,
/// overview and performance numbers, sector weights and top holdings.
pub fn parse_funds(result: &Json) -> (f: FundsFields)
    ensures
        opt_string_view(f.family) == text_at(result@, seq!["fundProfile"@, "family"@]),
        opt_string_view(f.category_name) == text_at(result@, seq!["fundProfile"@, "categoryName"@]),
        opt_string_view(f.legal_type) == text_at(result@, seq!["fundProfile"@, "legalType"@]),
        f.fund_inception == number_at(result@, seq!["fundProfile"@, "fundInceptionDate"@, "raw"@]),
        f.nav_price == number_at(result@, seq!["fundOverview"@, "navPrice"@, "raw"@]),
        f.total_assets == number_at(result@, seq!["fundOverview"@, "totalAssets"@, "raw"@]),
        f.expense_ratio == number_at(result@, seq!["fundOverview"@, "expenseRatio"@, "raw"@]),
        f.ytd_return == number_at(result@, seq!["fundPerformance"@, "ytdReturn"@, "raw"@]),
        f.trailing_return_y1 == number_at(
            result@,
            seq!["fundPerformance"@, "trailingReturnYTD"@, "raw"@],
        ),
        weights_view(f.sector_weightings@) == sector_weights_of(
            array_at(node_or_null(result@, "fundProfile"@), seq!["sectorWeightings"@]),
        ),
        f.top_holdings@.len() == array_at(node_or_null(result@, "topHoldings"@), seq!["holdings"@]).len(),
        forall|i: int|
            0 <= i < f.top_holdings@.len() ==> holding_matches(
                #[trigger] f.top_holdings@[i],
                array_at(node_or_null(result@, "topHoldings"@), seq!["holdings"@])[i],
            ),
{
    let fp = get_or_null(result, "fundProfile");
    let th = get_or_null(result, "topHoldings");
    let empty: Vec<Json> = Vec::new();
    let p = ["holdings"];
    assert(path_view(p@) =~= seq!["holdings"@]);
    let arr = array_ref(&th, &p, &empty);
    let ghost es = items_view(arr@);
    proof {
        lemma_items_view(arr@);
    }
    let mut holdings: Vec<FundHoldingFields> = Vec::new();
    let mut i: usize = 0;
    while i < arr.len()
        invariant
            i <= arr@.len(),
            es == items_view(arr@),
            es.len() == arr@.len(),
            forall|j: int| 0 <= j < arr@.len() ==> #[trigger] es[j] == arr@[j]@,
            holdings@.len() == i,
            forall|j: int| 0 <= j < i ==> holding_matches(#[trigger] holdings@[j], es[j]),
        decreases arr@.len() - i,
    {
        let h = &arr[i];
        holdings.push(
            FundHoldingFields {
                symbol: text1(h, "symbol"),
                name: text1(h, "holdingName"),
                holding_percent: num2(h, "holdingPercent", "raw"),
                value: num2(h, "value", "raw"),
            },
        );
        i = i + 1;
    }
    FundsFields {
        family: text2(result, "fundProfile", "family"),
        category_name: text2(result, "fundProfile", "categoryName"),
        legal_type: text2(result, "fundProfile", "legalType"),
        fund_inception: num3(result, "fundProfile", "fundInceptionDate", "raw"),
        nav_price: num3(result, "fundOverview", "navPrice", "raw"),
        total_assets: num3(result, "fundOverview", "totalAssets", "raw"),
        expense_ratio: num3(result, "fundOverview", "expenseRatio", "raw"),
        ytd_return: num3(result, "fundPerformance", "ytdReturn", "raw"),
        trailing_return_y1: num3(result, "fundPerformance", "trailingReturnYTD", "raw"),
        sector_weightings: sector_weights(&fp),
        top_holdings: holdings,
    }
}

} // verus!
