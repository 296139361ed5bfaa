//! The `quoteSummary` family: the request for a set of modules, and the
//! tables read out of its result (estimates, valuation measures,
//! recommendation trend, upgrades and downgrades, calendar events, SEC
//! filings).

use vstd::prelude::*;

use crate::error::YfError;
use crate::http::{pairs_view, QUERY2};
use crate::json::{
    first_result, get, get_at, get_i64, get_number, get_str, items_view, lemma_items_view,
    get_text, lenient_i64, number_at, opt_string_view, path_view, str_of, text_at,
    yf_result_first, Json, JsonNumber, JsonV,
};
use crate::dates::{ymd_date_secs, ymd_midnight};
use crate::text::{concat2, concat3, push_str, str_eq, string_from_chars};

verus! {

/// The modules requested for the full info blob.
pub open spec fn modules_info_spec() -> Seq<Seq<char>> {
    seq![
        "assetProfile"@,
        "incomeStatementHistory"@,
        "balanceSheetHistory"@,
        "cashflowStatementHistory"@,
        "incomeStatementHistoryQuarterly"@,
        "balanceSheetHistoryQuarterly"@,
        "cashflowStatementHistoryQuarterly"@,
        "defaultKeyStatistics"@,
        "financialData"@,
        "calendarEvents"@,
        "secFilings"@,
        "recommendationTrend"@,
        "upgradeDowngradeHistory"@,
        "institutionOwnership"@,
        "fundOwnership"@,
        "majorHoldersBreakdown"@,
        "insiderTransactions"@,
        "insiderHolders"@,
        "netSharePurchaseActivity"@,
        "earnings"@,
        "earningsHistory"@,
        "earningsTrend"@,
        "quoteType"@,
        "price"@,
        "summaryDetail"@,
        "esgScores"@,
        "fundProfile"@,
        "fundOverview"@,
        "topHoldings"@,
        "fundPerformance"@,
    ]
}

/// String slices as character sequences.
pub open spec fn strs_view(s: Seq<&str>) -> Seq<Seq<char>> {
    s.map_values(|x: &str| x@)
}

/// The modules requested for the full info blob.
pub fn modules_info() -> (m: Vec<&'static str>)
    ensures
        strs_view(m@) == modules_info_spec(),
{
    let m = vec![
        "assetProfile",
        "incomeStatementHistory",
        "balanceSheetHistory",
        "cashflowStatementHistory",
        "incomeStatementHistoryQuarterly",
        "balanceSheetHistoryQuarterly",
        "cashflowStatementHistoryQuarterly",
        "defaultKeyStatistics",
        "financialData",
        "calendarEvents",
        "secFilings",
        "recommendationTrend",
        "upgradeDowngradeHistory",
        "institutionOwnership",
        "fundOwnership",
        "majorHoldersBreakdown",
        "insiderTransactions",
        "insiderHolders",
        "netSharePurchaseActivity",
        "earnings",
        "earningsHistory",
        "earningsTrend",
        "quoteType",
        "price",
        "summaryDetail",
        "esgScores",
        "fundProfile",
        "fundOverview",
        "topHoldings",
        "fundPerformance",
    ];
    assert(strs_view(m@) =~= modules_info_spec());
    m
}

/// The items joined with `sep` between each two.
pub open spec fn join(items: Seq<Seq<char>>, sep: Seq<char>) -> Seq<char>
    decreases items.len(),
{
    if items.len() == 0 {
        seq![]
    } else if items.len() == 1 {
        items[0]
    } else {
        join(items.drop_last(), sep) + sep + items.last()
    }
}

/// `items.join(sep)`.
pub fn join_strs(items: &[&str], sep: &str) -> (s: String)
    ensures
        s@ == join(strs_view(items@), sep@),
{
    let mut out: Vec<char> = Vec::new();
    let mut i: usize = 0;
    while i < items.len()
        invariant
            i <= items@.len(),
            out@ == join(strs_view(items@.take(i as int)), sep@),
        decreases items@.len() - i,
    {
        if i > 0 {
            push_str(&mut out, sep);
        }
        push_str(&mut out, items[i]);
        i = i + 1;
        assert(strs_view(items@.take(i as int)).drop_last() =~= strs_view(items@.take(i - 1)));
        assert(strs_view(items@.take(i as int)).last() == items@[i - 1]@);
        if i == 1 {
            assert(out@ =~= join(strs_view(items@.take(i as int)), sep@));
        }
    }
    assert(items@.take(items@.len() as int) =~= items@);
    string_from_chars(out.as_slice())
}

/// The URL of a `quoteSummary` request.
pub fn quote_summary_url(ticker: &str) -> (u: String)
    ensures
        u@ == QUERY2@ + "/v10/finance/quoteSummary/"@ + ticker@,
{
    concat3(QUERY2, "/v10/finance/quoteSummary/", ticker)
}

/// The query parameters of a `quoteSummary` request: the modules,
/// comma-separated.
pub fn quote_summary_params(modules: &[&str]) -> (p: Vec<(String, String)>)
    ensures
        pairs_view(p@) == seq![("modules"@, join(strs_view(modules@), ","@))],
{
    let p = vec![("modules".to_owned(), join_strs(modules, ","))];
    assert(pairs_view(p@) =~= seq![("modules"@, join(strs_view(modules@), ","@))]);
    p
}

/// The message of the error for a reply without a result.
pub open spec fn summary_missing_message(ticker: Seq<char>) -> Seq<char> {
    "quoteSummary.result for "@ + ticker
}

/// `quoteSummary.result[0]` of a reply; `DataMissing` when absent.
pub fn quote_summary_result(v: &Json, ticker: &str) -> (r: Result<Json, YfError>)
    ensures
        r matches Ok(n) ==> first_result(v@, "quoteSummary"@) == Some(n@),
        r is Err <==> first_result(v@, "quoteSummary"@) is None,
        r matches Err(e) ==> (e matches YfError::DataMissing(m) && m@ == summary_missing_message(
            ticker@,
        )),
{
    match yf_result_first(v, "quoteSummary") {
        Ok(n) => Ok(n.clone()),
        Err(_) => Err(YfError::DataMissing(concat2("quoteSummary.result for ", ticker))),
    }
}

/// Where an estimate table lives in a `quoteSummary` result: the module,
/// the array under it, the row label field and the metric columns.
pub struct EstimateTable {
    pub module: &'static str,
    pub array_key: &'static str,
    pub label_key: &'static str,
    pub metrics: Vec<&'static str>,
}

/// The view of a table descriptor.
pub open spec fn estimate_view(t: EstimateTable) -> (Seq<char>, Seq<char>, Seq<char>, Seq<Seq<char>>) {
    (t.module@, t.array_key@, t.label_key@, strs_view(t.metrics@))
}

/// The estimate tables, by name.
pub open spec fn estimate_spec(name: Seq<char>) -> Option<
    (Seq<char>, Seq<char>, Seq<char>, Seq<Seq<char>>),
> {
    if name == "earnings_estimate"@ {
        Some(
            (
                "earningsTrend"@,
                "earningsTrend"@,
                "period"@,
                seq!["numberOfAnalysts"@, "avg"@, "low"@, "high"@, "yearAgo"@, "growth"@],
            ),
        )
    } else if name == "revenue_estimate"@ {
        Some(
            (
                "revenueTrend"@,
                "revenueTrend"@,
                "period"@,
                seq!["numberOfAnalysts"@, "avg"@, "low"@, "high"@, "yearAgo"@, "growth"@],
            ),
        )
    } else if name == "earnings_history"@ {
        Some(
            (
                "earningsHistory"@,
                "history"@,
                "quarter"@,
                seq!["epsEstimate"@, "epsActual"@, "epsDifference"@, "surprisePercent"@],
            ),
        )
    } else if name == "eps_trend"@ {
        Some(
            (
                "epsTrend"@,
                "epsTrend"@,
                "period"@,
                seq!["current"@, "7daysAgo"@, "30daysAgo"@, "60daysAgo"@, "90daysAgo"@],
            ),
        )
    } else if name == "eps_revisions"@ {
        Some(
            (
                "epsRevisions"@,
                "epsRevisions"@,
                "period"@,
                seq!["upLast7days"@, "upLast30days"@, "downLast7days"@, "downLast30days"@],
            ),
        )
    } else if name == "growth_estimates"@ {
        Some(
            (
                "growth"@,
                "growth"@,
                "period"@,
                seq!["stock"@, "industry"@, "sector"@, "index"@],
            ),
        )
    } else {
        None
    }
}

/// The names of the estimate tables.
pub open spec fn estimate_names() -> Seq<Seq<char>> {
    seq![
        "earnings_estimate"@,
        "revenue_estimate"@,
        "earnings_history"@,
        "eps_trend"@,
        "eps_revisions"@,
        "growth_estimates"@,
    ]
}

fn descriptor(
    module: &'static str,
    array_key: &'static str,
    label_key: &'static str,
    metrics: Vec<&'static str>,
) -> (t: EstimateTable)
    ensures
        estimate_view(t) == (module@, array_key@, label_key@, strs_view(metrics@)),
{
    EstimateTable { module, array_key, label_key, metrics }
}

/// The descriptor of the estimate table `name`; `None` for an unknown one.
pub fn estimate_table(name: &str) -> (r: Option<EstimateTable>)
    ensures
        r matches Some(t) ==> estimate_spec(name@) == Some(estimate_view(t)),
        r is None <==> estimate_spec(name@) is None,
{
    if str_eq(name, "earnings_estimate") {
        let m = vec!["numberOfAnalysts", "avg", "low", "high", "yearAgo", "growth"];
        assert(strs_view(m@) =~= seq![
            "numberOfAnalysts"@,
            "avg"@,
            "low"@,
            "high"@,
            "yearAgo"@,
            "growth"@,
        ]);
        Some(descriptor("earningsTrend", "earningsTrend", "period", m))
    } else if str_eq(name, "revenue_estimate") {
        let m = vec!["numberOfAnalysts", "avg", "low", "high", "yearAgo", "growth"];
        assert(strs_view(m@) =~= seq![
            "numberOfAnalysts"@,
            "avg"@,
            "low"@,
            "high"@,
            "yearAgo"@,
            "growth"@,
        ]);
        Some(descriptor("revenueTrend", "revenueTrend", "period", m))
    } else if str_eq(name, "earnings_history") {
        let m = vec!["epsEstimate", "epsActual", "epsDifference", "surprisePercent"];
        assert(strs_view(m@) =~= seq![
            "epsEstimate"@,
            "epsActual"@,
            "epsDifference"@,
            "surprisePercent"@,
        ]);
        Some(descriptor("earningsHistory", "history", "quarter", m))
    } else if str_eq(name, "eps_trend") {
        let m = vec!["current", "7daysAgo", "30daysAgo", "60daysAgo", "90daysAgo"];
        assert(strs_view(m@) =~= seq![
            "current"@,
            "7daysAgo"@,
            "30daysAgo"@,
            "60daysAgo"@,
            "90daysAgo"@,
        ]);
        Some(descriptor("epsTrend", "epsTrend", "period", m))
    } else if str_eq(name, "eps_revisions") {
        let m = vec!["upLast7days", "upLast30days", "downLast7days", "downLast30days"];
        assert(strs_view(m@) =~= seq![
            "upLast7days"@,
            "upLast30days"@,
            "downLast7days"@,
            "downLast30days"@,
        ]);
        Some(descriptor("epsRevisions", "epsRevisions", "period", m))
    } else if str_eq(name, "growth_estimates") {
        let m = vec!["stock", "industry", "sector", "index"];
        assert(strs_view(m@) =~= seq!["stock"@, "industry"@, "sector"@, "index"@]);
        Some(descriptor("growth", "growth", "period", m))
    } else {
        None
    }
}

/// The names of the estimate tables, in order.
pub fn estimate_table_names() -> (n: Vec<&'static str>)
    ensures
        strs_view(n@) == estimate_names(),
{
    let n = vec![
        "earnings_estimate",
        "revenue_estimate",
        "earnings_history",
        "eps_trend",
        "eps_revisions",
        "growth_estimates",
    ];
    assert(strs_view(n@) =~= estimate_names());
    n
}

/// A labelled table of numbers: rows by `index`, columns by `columns`.
#[derive(Debug, Clone)]
pub struct NumberTable {
    pub index: Vec<String>,
    pub columns: Vec<String>,
    pub values: Vec<Vec<Option<JsonNumber>>>,
}

/// The first position of `x` in `s`.
pub open spec fn position(s: Seq<Seq<char>>, x: Seq<char>) -> Option<int>
    decreases s.len(),
{
    if s.len() == 0 {
        None
    } else if s[0] == x {
        Some(0)
    } else {
        match position(s.drop_first(), x) {
            Some(i) => Some(i + 1),
            None => None,
        }
    }
}

/// Strings as character sequences.
pub open spec fn strings_view(s: Seq<String>) -> Seq<Seq<char>> {
    s.map_values(|x: String| x@)
}

/// The cell of a table at a row label and a column name (the first row
/// and column so named), when both exist and the cell holds a number.
pub open spec fn table_cell(t: NumberTable, row: Seq<char>, col: Seq<char>) -> Option<JsonNumber> {
    match (position(strings_view(t.index@), row), position(strings_view(t.columns@), col)) {
        (Some(r), Some(c)) => if r < t.values@.len() && c < t.values@[r]@.len() {
            t.values@[r]@[c]
        } else {
            None
        },
        _ => None,
    }
}

/// The first position of `x` in `s`.
pub fn find_string(s: &Vec<String>, x: &str) -> (r: Option<usize>)
    ensures
        match r {
            Some(i) => position(strings_view(s@), x@) == Some(i as int),
            None => position(strings_view(s@), x@) is None,
        },
{
    let mut i: usize = 0;
    assert(strings_view(s@).skip(0) =~= strings_view(s@));
    while i < s.len()
        invariant
            i <= s@.len(),
            position(strings_view(s@), x@) == match position(
                strings_view(s@).skip(i as int),
                x@,
            ) {
                Some(j) => Some(j + i),
                None => None,
            },
        decreases s@.len() - i,
    {
        let ghost rest = strings_view(s@).skip(i as int);
        assert(rest[0] == s@[i as int]@);
        assert(rest.drop_first() =~= strings_view(s@).skip(i + 1));
        if str_eq(s[i].as_str(), x) {
            return Some(i);
        }
        i = i + 1;
    }
    None
}

impl NumberTable {
    /// The cell at a row label and a column name.
    pub fn get(&self, row: &str, col: &str) -> (r: Option<JsonNumber>)
        ensures
            r == table_cell(*self, row@, col@),
    {
        proof {
            assert(strings_view(self.index@).skip(0) =~= strings_view(self.index@));
            assert(strings_view(self.columns@).skip(0) =~= strings_view(self.columns@));
        }
        let ri = find_string(&self.index, row);
        let ci = find_string(&self.columns, col);
        match (ri, ci) {
            (Some(r), Some(c)) => {
                if r < self.values.len() && c < self.values[r].len() {
                    match &self.values[r][c] {
                        Some(n) => Some(n.clone()),
                        None => None,
                    }
                } else {
                    None
                }
            },
            _ => None,
        }
    }
}

/// The row label of a table entry: the string at `label_key`, empty when
/// absent.
pub open spec fn row_label(obj: JsonV, label_key: Seq<char>) -> Seq<char> {
    match get_at(obj, seq![label_key]) {
        Some(n) => match str_of(n) {
            Some(s) => s,
            None => ""@,
        },
        None => ""@,
    }
}

/// The cells of a table entry: the number at each metric.
pub open spec fn row_cells(obj: JsonV, metrics: Seq<Seq<char>>) -> Seq<Option<JsonNumber>> {
    metrics.map_values(|m: Seq<char>| number_at(obj, seq![m]))
}

/// The entries of a named table: the array at `module.array_key` of the
/// result.
pub open spec fn table_entries(result: JsonV, module: Seq<char>, array_key: Seq<char>) -> Seq<
    JsonV,
> {
    match get_at(result, seq![module, array_key]) {
        Some(JsonV::Array(items)) => items,
        _ => seq![],
    }
}

fn row_values(obj: &Json, metrics: &Vec<&str>) -> (r: Vec<Option<JsonNumber>>)
    ensures
        r@ == row_cells(obj@, strs_view(metrics@)),
{
    let mut out: Vec<Option<JsonNumber>> = Vec::new();
    let mut i: usize = 0;
    while i < metrics.len()
        invariant
            i <= metrics@.len(),
            out@ == row_cells(obj@, strs_view(metrics@.take(i as int))),
        decreases metrics@.len() - i,
    {
        let path = [metrics[i]];
        assert(path_view(path@) =~= seq![metrics@[i as int]@]);
        out.push(get_number(obj, &path));
        i = i + 1;
        assert(row_cells(obj@, strs_view(metrics@.take(i as int))) =~= row_cells(
            obj@,
            strs_view(metrics@.take(i - 1)),
        ).push(number_at(obj@, seq![metrics@[i - 1]@])));
    }
    assert(metrics@.take(metrics@.len() as int) =~= metrics@);
    out
}

fn label_of(obj: &Json, label_key: &str) -> (s: String)
    ensures
        s@ == row_label(obj@, label_key@),
{
    let path = [label_key];
    assert(path_view(path@) =~= seq![label_key@]);
    match get(obj, &path) {
        Some(n) => match n.as_str() {
            Some(t) => t.to_owned(),
            None => "".to_owned(),
        },
        None => "".to_owned(),
    }
}

/// Reads a named table out of a `quoteSummary` result: one row per entry
/// of `module.array_key` (labelled by `label_key`, empty when absent), one
/// column per metric, each cell the number at that metric.
pub fn parse_named_table(
    result: &Json,
    module: &str,
    array_key: &str,
    label_key: &str,
    metrics: &Vec<&str>,
) -> (t: NumberTable)
    ensures
        ({
            let es = table_entries(result@, module@, array_key@);
            &&& strings_view(t.index@) == es.map_values(|e: JsonV| row_label(e, label_key@))
            &&& strings_view(t.columns@) == strs_view(metrics@)
            &&& t.values@.len() == es.len()
            &&& forall|i: int|
                0 <= i < es.len() ==> (#[trigger] t.values@[i])@ == row_cells(
                    es[i],
                    strs_view(metrics@),
                )
        }),
{
    let ghost es = table_entries(result@, module@, array_key@);
    let path = [module, array_key];
    assert(path_view(path@) =~= seq![module@, array_key@]);
    let empty: Vec<Json> = Vec::new();
    let arr: &Vec<Json> = match get(result, &path) {
        Some(n) => match n.as_array() {
            Some(a) => a,
            None => &empty,
        },
        None => &empty,
    };
    assert(items_view(arr@) == es);
    proof {
        lemma_items_view(arr@);
    }
    let mut index: Vec<String> = Vec::new();
    let mut values: Vec<Vec<Option<JsonNumber>>> = Vec::new();
    let mut i: usize = 0;
    while i < arr.len()
        invariant
            i <= arr@.len(),
            es == items_view(arr@),
            es.len() == arr@.len(),
            forall|j: int| 0 <= j < arr@.len() ==> #[trigger] es[j] == arr@[j]@,
            strings_view(index@) == es.take(i as int).map_values(
                |e: JsonV| row_label(e, label_key@),
            ),
            values@.len() == i,
            forall|j: int|
                0 <= j < i ==> (#[trigger] values@[j])@ == row_cells(es[j], strs_view(metrics@)),
        decreases arr@.len() - i,
    {
        let ghost prev = index@;
        let label = label_of(&arr[i], label_key);
        index.push(label);
        values.push(row_values(&arr[i], metrics));
        i = i + 1;
        assert(strings_view(index@) =~= strings_view(prev).push(row_label(es[i - 1], label_key@)));
        assert(es.take(i as int).map_values(|e: JsonV| row_label(e, label_key@)) =~= es.take(
            i - 1,
        ).map_values(|e: JsonV| row_label(e, label_key@)).push(row_label(es[i - 1], label_key@)));
    }
    assert(es.take(arr@.len() as int) =~= es);
    let mut columns: Vec<String> = Vec::new();
    let mut k: usize = 0;
    while k < metrics.len()
        invariant
            k <= metrics@.len(),
            strings_view(columns@) == strs_view(metrics@.take(k as int)),
        decreases metrics@.len() - k,
    {
        let ghost prev = columns@;
        columns.push(metrics[k].to_owned());
        k = k + 1;
        assert(strings_view(columns@) =~= strings_view(prev).push(metrics@[k - 1]@));
        assert(strs_view(metrics@.take(k as int)) =~= strs_view(metrics@.take(k - 1)).push(
            metrics@[k - 1]@,
        ));
    }
    assert(metrics@.take(metrics@.len() as int) =~= metrics@);
    NumberTable { index, columns, values }
}

/// The valuation measures: label and location of each.
pub open spec fn valuation_spec() -> Seq<(Seq<char>, Seq<Seq<char>>)> {
    seq![
        ("Market Cap"@, seq!["price"@, "marketCap"@]),
        ("Enterprise Value"@, seq!["defaultKeyStatistics"@, "enterpriseValue"@]),
        ("Trailing P/E"@, seq!["summaryDetail"@, "trailingPE"@]),
        ("Forward P/E"@, seq!["summaryDetail"@, "forwardPE"@]),
        ("PEG Ratio"@, seq!["defaultKeyStatistics"@, "pegRatio"@]),
        ("Price/Book"@, seq!["defaultKeyStatistics"@, "priceToBook"@]),
        ("Enterprise Value/Revenue"@, seq!["defaultKeyStatistics"@, "enterpriseValueToRevenue"@]),
        ("Enterprise Value/EBITDA"@, seq!["defaultKeyStatistics"@, "enterpriseValueToEbitda"@]),
    ]
}

/// Reads the valuation measures of a `quoteSummary` result: one row per
/// measure, a single `Current` column.
pub fn parse_valuation_measures(result: &Json) -> (t: NumberTable)
    ensures
        strings_view(t.index@) == valuation_spec().map_values(
            |m: (Seq<char>, Seq<Seq<char>>)| m.0,
        ),
        strings_view(t.columns@) == seq!["Current"@],
        t.values@.len() == valuation_spec().len(),
        forall|i: int|
            0 <= i < valuation_spec().len() ==> (#[trigger] t.values@[i])@ == seq![
                number_at(result@, valuation_spec()[i].1),
            ],
{
    let specs: Vec<(&str, [&str; 2])> = vec![
        ("Market Cap", ["price", "marketCap"]),
        ("Enterprise Value", ["defaultKeyStatistics", "enterpriseValue"]),
        ("Trailing P/E", ["summaryDetail", "trailingPE"]),
        ("Forward P/E", ["summaryDetail", "forwardPE"]),
        ("PEG Ratio", ["defaultKeyStatistics", "pegRatio"]),
        ("Price/Book", ["defaultKeyStatistics", "priceToBook"]),
        ("Enterprise Value/Revenue", ["defaultKeyStatistics", "enterpriseValueToRevenue"]),
        ("Enterprise Value/EBITDA", ["defaultKeyStatistics", "enterpriseValueToEbitda"]),
    ];
    let ghost vs = valuation_spec();
    assert(specs@.len() == vs.len());
    assert forall|i: int| 0 <= i < vs.len() implies specs@[i].0@ == vs[i].0 && path_view(
        specs@[i].1@,
    ) == vs[i].1 by {
        assert(path_view(specs@[i].1@) =~= vs[i].1);
    }
    let mut index: Vec<String> = Vec::new();
    let mut values: Vec<Vec<Option<JsonNumber>>> = Vec::new();
    let mut i: usize = 0;
    while i < specs.len()
        invariant
            i <= specs@.len(),
            vs == valuation_spec(),
            specs@.len() == vs.len(),
            forall|j: int|
                0 <= j < vs.len() ==> (#[trigger] specs@[j]).0@ == vs[j].0 && path_view(
                    specs@[j].1@,
                ) == vs[j].1,
            strings_view(index@) == vs.take(i as int).map_values(
                |m: (Seq<char>, Seq<Seq<char>>)| m.0,
            ),
            values@.len() == i,
            forall|j: int|
                0 <= j < i ==> (#[trigger] values@[j])@ == seq![number_at(result@, vs[j].1)],
        decreases specs@.len() - i,
    {
        let ghost prev = index@;
        index.push(specs[i].0.to_owned());
        let cell = get_number(result, &specs[i].1);
        let row = vec![cell];
        assert(row@ =~= seq![number_at(result@, vs[i as int].1)]);
        values.push(row);
        i = i + 1;
        assert(strings_view(index@) =~= strings_view(prev).push(vs[i - 1].0));
        assert(vs.take(i as int).map_values(|m: (Seq<char>, Seq<Seq<char>>)| m.0) =~= vs.take(
            i - 1,
        ).map_values(|m: (Seq<char>, Seq<Seq<char>>)| m.0).push(vs[i - 1].0));
    }
    assert(vs.take(vs.len() as int) =~= vs);
    let columns = vec!["Current".to_owned()];
    assert(strings_view(columns@) =~= seq!["Current"@]);
    NumberTable { index, columns, values }
}

/// A recommendation-trend row.
#[derive(Debug, Clone)]
pub struct RecommendationTrend {
    pub period: Option<String>,
    pub strong_buy: Option<i64>,
    pub buy: Option<i64>,
    pub hold: Option<i64>,
    pub sell: Option<i64>,
    pub strong_sell: Option<i64>,
}

/// The string at `obj.key` (after `raw` unwrapping).
pub open spec fn text_field(obj: JsonV, key: Seq<char>) -> Option<Seq<char>> {
    match get_at(obj, seq![key]) {
        Some(n) => str_of(n),
        None => None,
    }
}

/// The integer at `obj.key` (after `raw` unwrapping, floats truncated).
pub open spec fn int_field(obj: JsonV, key: Seq<char>) -> Option<i64> {
    match get_at(obj, seq![key]) {
        Some(n) => lenient_i64(n),
        None => None,
    }
}

/// A recommendation-trend row read from an entry.
pub open spec fn trend_matches(r: RecommendationTrend, e: JsonV) -> bool {
    &&& opt_string_view(r.period) == text_field(e, "period"@)
    &&& r.strong_buy == int_field(e, "strongBuy"@)
    &&& r.buy == int_field(e, "buy"@)
    &&& r.hold == int_field(e, "hold"@)
    &&& r.sell == int_field(e, "sell"@)
    &&& r.strong_sell == int_field(e, "strongSell"@)
}

/// The trend entries of a result: the array at `recommendationTrend.trend`.
pub open spec fn trend_entries(result: JsonV) -> Seq<JsonV> {
    match get_at(result, seq!["recommendationTrend"@, "trend"@]) {
        Some(JsonV::Array(items)) => items,
        _ => seq![],
    }
}

fn text_of(obj: &Json, key: &str) -> (s: Option<String>)
    ensures
        opt_string_view(s) == text_field(obj@, key@),
{
    let path = [key];
    assert(path_view(path@) =~= seq![key@]);
    get_str(obj, &path)
}

fn int_of_key(obj: &Json, key: &str) -> (n: Option<i64>)
    ensures
        n == int_field(obj@, key@),
{
    let path = [key];
    assert(path_view(path@) =~= seq![key@]);
    get_i64(obj, &path)
}

/// Reads the recommendation trend of a `quoteSummary` result: one row per
/// entry of `recommendationTrend.trend`.
pub fn parse_recommendation_trend(result: &Json) -> (rows: Vec<RecommendationTrend>)
    ensures
        rows@.len() == trend_entries(result@).len(),
        forall|i: int|
            0 <= i < rows@.len() ==> trend_matches(#[trigger] rows@[i], trend_entries(result@)[i]),
{
    let ghost es = trend_entries(result@);
    let path = ["recommendationTrend", "trend"];
    assert(path_view(path@) =~= seq!["recommendationTrend"@, "trend"@]);
    let mut out: Vec<RecommendationTrend> = Vec::new();
    let empty: Vec<Json> = Vec::new();
    let arr: &Vec<Json> = match get(result, &path) {
        Some(n) => match n.as_array() {
            Some(a) => a,
            None => &empty,
        },
        None => &empty,
    };
    assert(items_view(arr@) == es);
    proof {
        lemma_items_view(arr@);
    }
    let mut i: usize = 0;
    while i < arr.len()
        invariant
            i <= arr@.len(),
            es == items_view(arr@),
            es.len() == arr@.len(),
            forall|j: int| 0 <= j < arr@.len() ==> #[trigger] es[j] == arr@[j]@,
            out@.len() == i,
            forall|j: int| 0 <= j < i ==> trend_matches(#[trigger] out@[j], es[j]),
        decreases arr@.len() - i,
    {
        let e = &arr[i];
        out.push(
            RecommendationTrend {
                period: text_of(e, "period"),
                strong_buy: int_of_key(e, "strongBuy"),
                buy: int_of_key(e, "buy"),
                hold: int_of_key(e, "hold"),
                sell: int_of_key(e, "sell"),
                strong_sell: int_of_key(e, "strongSell"),
            },
        );
        i = i + 1;
    }
    out
}

/// The integer at `path` (after `raw` unwrapping, floats truncated).
pub open spec fn int_at(v: JsonV, path: Seq<Seq<char>>) -> Option<i64> {
    match get_at(v, path) {
        Some(n) => lenient_i64(n),
        None => None,
    }
}

/// The entries of the array at `path`, none when there is no array.
pub open spec fn entries_at(v: JsonV, path: Seq<Seq<char>>) -> Seq<JsonV> {
    match get_at(v, path) {
        Some(JsonV::Array(items)) => items,
        _ => seq![],
    }
}

/// The array at `path`, or an empty one.
fn array_at<'a>(v: &'a Json, path: &[&str], empty: &'a Vec<Json>) -> (a: &'a Vec<Json>)
    requires
        empty@.len() == 0,
    ensures
        items_view(a@) == entries_at(v@, path_view(path@)),
{
    match get(v, path) {
        Some(n) => match n.as_array() {
            Some(a) => a,
            None => {
                assert(items_view(empty@) =~= seq![]);
                empty
            },
        },
        None => {
            assert(items_view(empty@) =~= seq![]);
            empty
        },
    }
}

/// An analyst upgrade or downgrade; its date as epoch seconds.
#[derive(Debug, Clone)]
pub struct UpgradeFields {
    pub date: Option<i64>,
    pub firm: Option<String>,
    pub to_grade: Option<String>,
    pub from_grade: Option<String>,
    pub action: Option<String>,
}

/// An upgrade row read from an entry.
pub open spec fn upgrade_matches(u: UpgradeFields, e: JsonV) -> bool {
    &&& u.date == int_at(e, seq!["date"@, "raw"@])
    &&& opt_string_view(u.firm) == text_field(e, "firm"@)
    &&& opt_string_view(u.to_grade) == text_field(e, "toGrade"@)
    &&& opt_string_view(u.from_grade) == text_field(e, "fromGrade"@)
    &&& opt_string_view(u.action) == text_field(e, "action"@)
}

/// Reads the upgrades and downgrades of a `quoteSummary` result: one row
/// per entry of `upgradeDowngradeHistory.history`.
pub fn parse_upgrades(result: &Json) -> (rows: Vec<UpgradeFields>)
    ensures
        ({
            let es = entries_at(result@, seq!["upgradeDowngradeHistory"@, "history"@]);
            &&& rows@.len() == es.len()
            &&& forall|i: int| 0 <= i < rows@.len() ==> upgrade_matches(#[trigger] rows@[i], es[i])
        }),
{
    let path = ["upgradeDowngradeHistory", "history"];
    assert(path_view(path@) =~= seq!["upgradeDowngradeHistory"@, "history"@]);
    let empty: Vec<Json> = Vec::new();
    let arr = array_at(result, &path, &empty);
    let ghost es = items_view(arr@);
    proof {
        lemma_items_view(arr@);
    }
    let date_path = ["date", "raw"];
    assert(path_view(date_path@) =~= seq!["date"@, "raw"@]);
    let mut out: Vec<UpgradeFields> = Vec::new();
    let mut i: usize = 0;
    while i < arr.len()
        invariant
            i <= arr@.len(),
            es == items_view(arr@),
            es.len() == arr@.len(),
            path_view(date_path@) == seq!["date"@, "raw"@],
            forall|j: int| 0 <= j < arr@.len() ==> #[trigger] es[j] == arr@[j]@,
            out@.len() == i,
            forall|j: int| 0 <= j < i ==> upgrade_matches(#[trigger] out@[j], es[j]),
        decreases arr@.len() - i,
    {
        let e = &arr[i];
        out.push(
            UpgradeFields {
                date: get_i64(e, &date_path),
                firm: text_of(e, "firm"),
                to_grade: text_of(e, "toGrade"),
                from_grade: text_of(e, "fromGrade"),
                action: text_of(e, "action"),
            },
        );
        i = i + 1;
    }
    out
}

/// Upcoming calendar events of a ticker; dates as epoch seconds.
#[derive(Debug, Clone)]
pub struct CalendarEventsFields {
    pub earnings_date: Option<i64>,
    pub earnings_time: Option<String>,
    pub eps_estimate: Option<JsonNumber>,
    pub revenue_estimate: Option<JsonNumber>,
    pub ex_dividend_date: Option<i64>,
    pub dividend_date: Option<i64>,
    pub previous_fiscal_year_end: Option<i64>,
    pub next_fiscal_year_end: Option<i64>,
    pub most_recent_quarter: Option<i64>,
    pub next_quarter: Option<i64>,
}

/// The node at `path`, `null` when absent.
pub open spec fn node_or_null_at(v: JsonV, path: Seq<Seq<char>>) -> JsonV {
    match get_at(v, path) {
        Some(n) => n,
        None => JsonV::Null,
    }
}

/// The first of two options that is present.
pub open spec fn either<T>(a: Option<T>, b: Option<T>) -> Option<T> {
    match a {
        Some(x) => Some(x),
        None => b,
    }
}

/// Calendar events read from a result's `calendarEvents` node `ce` (and
/// its `earnings` node `er`).
pub open spec fn calendar_events_match(c: CalendarEventsFields, result: JsonV) -> bool {
    let ce = node_or_null_at(result, seq!["calendarEvents"@]);
    let er = node_or_null_at(ce, seq!["earnings"@]);
    &&& c.earnings_date == either(
        int_at(ce, seq!["earnings"@, "earningsDate"@, "raw"@]),
        int_at(er, seq!["earningsDate"@, "raw"@]),
    )
    &&& opt_string_view(c.earnings_time) == either(
        text_at(ce, seq!["earnings"@, "earningsTime"@]),
        text_at(er, seq!["earningsTime"@]),
    )
    &&& c.eps_estimate == number_at(er, seq!["epsEstimate"@, "raw"@])
    &&& c.revenue_estimate == number_at(er, seq!["revenueEstimate"@, "raw"@])
    &&& c.ex_dividend_date == int_at(ce, seq!["exDividendDate"@, "raw"@])
    &&& c.dividend_date == int_at(ce, seq!["dividendDate"@, "raw"@])
    &&& c.previous_fiscal_year_end == int_at(ce, seq!["previousFiscalYearEnd"@, "raw"@])
    &&& c.next_fiscal_year_end == int_at(ce, seq!["nextFiscalYearEnd"@, "raw"@])
    &&& c.most_recent_quarter == int_at(ce, seq!["mostRecentQuarter"@, "raw"@])
    &&& c.next_quarter == int_at(ce, seq!["nextQuarter"@, "raw"@])
}

fn int2(v: &Json, a: &str, b: &str) -> (n: Option<i64>)
    ensures
        n == int_at(v@, seq![a@, b@]),
{
    let path = [a, b];
    assert(path_view(path@) =~= seq![a@, b@]);
    get_i64(v, &path)
}

/// Reads the calendar events of a `quoteSummary` result.
pub fn parse_calendar_events(result: &Json) -> (c: CalendarEventsFields)
    ensures
        calendar_events_match(c, result@),
{
    let null = Json::Null;
    let p_ce = ["calendarEvents"];
    assert(path_view(p_ce@) =~= seq!["calendarEvents"@]);
    let ce: &Json = match get(result, &p_ce) {
        Some(n) => n,
        None => &null,
    };
    let p_er = ["earnings"];
    assert(path_view(p_er@) =~= seq!["earnings"@]);
    let er: &Json = match get(ce, &p_er) {
        Some(n) => n,
        None => &null,
    };
    let p1 = ["earnings", "earningsDate", "raw"];
    assert(path_view(p1@) =~= seq!["earnings"@, "earningsDate"@, "raw"@]);
    let p2 = ["earnings", "earningsTime"];
    assert(path_view(p2@) =~= seq!["earnings"@, "earningsTime"@]);
    let p3 = ["earningsTime"];
    assert(path_view(p3@) =~= seq!["earningsTime"@]);
    let p4 = ["epsEstimate", "raw"];
    assert(path_view(p4@) =~= seq!["epsEstimate"@, "raw"@]);
    let p5 = ["revenueEstimate", "raw"];
    assert(path_view(p5@) =~= seq!["revenueEstimate"@, "raw"@]);
    let earnings_date = match get_i64(ce, &p1) {
        Some(d) => Some(d),
        None => int2(er, "earningsDate", "raw"),
    };
    let earnings_time = match get_text(ce, &p2) {
        Some(t) => Some(t),
        None => get_text(er, &p3),
    };
    CalendarEventsFields {
        earnings_date,
        earnings_time,
        eps_estimate: get_number(er, &p4),
        revenue_estimate: get_number(er, &p5),
        ex_dividend_date: int2(ce, "exDividendDate", "raw"),
        dividend_date: int2(ce, "dividendDate", "raw"),
        previous_fiscal_year_end: int2(ce, "previousFiscalYearEnd", "raw"),
        next_fiscal_year_end: int2(ce, "nextFiscalYearEnd", "raw"),
        most_recent_quarter: int2(ce, "mostRecentQuarter", "raw"),
        next_quarter: int2(ce, "nextQuarter", "raw"),
    }
}

/// An SEC filing; its date as epoch seconds.
#[derive(Debug, Clone)]
pub struct SecFilingFields {
    pub date: Option<i64>,
    pub type_: Option<String>,
    pub title: Option<String>,
    pub url: Option<String>,
    pub editor: Option<String>,
}

/// A filing read from an entry: its `date.raw` text as a `%Y-%m-%d` date
/// at midnight UTC, and its text fields.
pub open spec fn filing_matches(f: SecFilingFields, e: JsonV) -> bool {
    &&& f.date == match text_at(e, seq!["date"@, "raw"@]) {
        Some(s) => ymd_midnight(s),
        None => None,
    }
    &&& opt_string_view(f.type_) == text_field(e, "type"@)
    &&& opt_string_view(f.title) == text_field(e, "title"@)
    &&& opt_string_view(f.url) == text_field(e, "url"@)
    &&& opt_string_view(f.editor) == text_field(e, "editor"@)
}

/// Reads the SEC filings of a `quoteSummary` result: one per entry of
/// `secFilings.filings`.
pub fn parse_sec_filings(result: &Json) -> (rows: Vec<SecFilingFields>)
    ensures
        ({
            let es = entries_at(result@, seq!["secFilings"@, "filings"@]);
            &&& rows@.len() == es.len()
            &&& forall|i: int| 0 <= i < rows@.len() ==> filing_matches(#[trigger] rows@[i], es[i])
        }),
{
    let path = ["secFilings", "filings"];
    assert(path_view(path@) =~= seq!["secFilings"@, "filings"@]);
    let empty: Vec<Json> = Vec::new();
    let arr = array_at(result, &path, &empty);
    let ghost es = items_view(arr@);
    proof {
        lemma_items_view(arr@);
    }
    let date_path = ["date", "raw"];
    assert(path_view(date_path@) =~= seq!["date"@, "raw"@]);
    let mut out: Vec<SecFilingFields> = Vec::new();
    let mut i: usize = 0;
    while i < arr.len()
        invariant
            i <= arr@.len(),
            es == items_view(arr@),
            es.len() == arr@.len(),
            path_view(date_path@) == seq!["date"@, "raw"@],
            forall|j: int| 0 <= j < arr@.len() ==> #[trigger] es[j] == arr@[j]@,
            out@.len() == i,
            forall|j: int| 0 <= j < i ==> filing_matches(#[trigger] out@[j], es[j]),
        decreases arr@.len() - i,
    {
        let e = &arr[i];
        let date = match get_text(e, &date_path) {
            Some(s) => ymd_date_secs(s.as_str()),
            None => None,
        };
        out.push(
            SecFilingFields {
                date,
                type_: text_of(e, "type"),
                title: text_of(e, "title"),
                url: text_of(e, "url"),
                editor: text_of(e, "editor"),
            },
        );
        i = i + 1;
    }
    out
}

} // verus!
