//! Price history requests against the `v8/finance/chart` endpoint: the bar
//! interval, the history options, the request parameters they produce, and
//! the parts of a chart reply read before any price arithmetic: timestamps,
//! metadata text, the price series as sent, and the corporate-action events.

use vstd::prelude::*;

use crate::dates::{utc_second_in_range, utc_second_valid};
use crate::error::YfError;
use crate::http::{pairs_view, QUERY2};
use crate::json::{
    get_raw, int_of, items_view, lemma_items_view, lemma_members_view, member, members_view,
    path_view, str_of, Json, JsonNumber, JsonV,
};
use crate::records::keys_view;
use crate::text::{
    bool_string, bool_text, concat2, concat3, i64_decimal_string, push_str, signed_decimal,
    string_from_chars,
};

verus! {

/// Bar interval.
#[derive(Debug, Clone, Copy, PartialEq, Eq)]
pub enum Interval {
    Min1,
    Min2,
    Min5,
    Min15,
    Min30,
    Min60,
    Min90,
    Hour1,
    Day1,
    Day5,
    Week1,
    Month1,
    Month3,
}

/// The wire string of an interval.
pub open spec fn interval_text(i: Interval) -> Seq<char> {
    match i {
        Interval::Min1 => "1m"@,
        Interval::Min2 => "2m"@,
        Interval::Min5 => "5m"@,
        Interval::Min15 => "15m"@,
        Interval::Min30 => "30m"@,
        Interval::Min60 => "60m"@,
        Interval::Min90 => "90m"@,
        Interval::Hour1 => "1h"@,
        Interval::Day1 => "1d"@,
        Interval::Day5 => "5d"@,
        Interval::Week1 => "1wk"@,
        Interval::Month1 => "1mo"@,
        Interval::Month3 => "3mo"@,
    }
}

impl Interval {
    /// The wire string for this interval.
    pub fn as_str(&self) -> (s: &'static str)
        ensures
            s@ == interval_text(*self),
    {
        match self {
            Interval::Min1 => "1m",
            Interval::Min2 => "2m",
            Interval::Min5 => "5m",
            Interval::Min15 => "15m",
            Interval::Min30 => "30m",
            Interval::Min60 => "60m",
            Interval::Min90 => "90m",
            Interval::Hour1 => "1h",
            Interval::Day1 => "1d",
            Interval::Day5 => "5d",
            Interval::Week1 => "1wk",
            Interval::Month1 => "1mo",
            Interval::Month3 => "3mo",
        }
    }
}

/// Options of a history request. `start` and `end` are epoch seconds.
#[derive(Debug, Clone)]
pub struct HistoryOptions {
    /// Lookback period string (e.g. `"1mo"`, `"max"`); ignored when both
    /// `start` and `end` are set.
    pub period: String,
    /// Bar interval.
    pub interval: Interval,
    /// Inclusive start, epoch seconds.
    pub start: Option<i64>,
    /// Exclusive end, epoch seconds.
    pub end: Option<i64>,
    /// Include pre/post-market bars.
    pub prepost: bool,
    /// Include corporate actions (dividends/splits/capital gains).
    pub actions: bool,
    /// Auto-adjust OHLC by dividends/splits.
    pub auto_adjust: bool,
    /// Back-adjust instead of auto-adjust.
    pub back_adjust: bool,
    /// Keep rows with missing OHLC (otherwise drop).
    pub keepna: bool,
    /// Repair bad data: drop non-positive OHLC bars and make the series
    /// split-continuous.
    pub repair: bool,
}

impl HistoryOptions {
    /// The defaults: one month of daily bars, auto-adjusted, no actions.
    pub fn new() -> (o: HistoryOptions)
        ensures
            o.period@ == "1mo"@,
            o.interval == Interval::Day1,
            o.start is None && o.end is None,
            !o.prepost && !o.actions && o.auto_adjust && !o.back_adjust && !o.keepna && !o.repair,
    {
        HistoryOptions {
            period: "1mo".to_owned(),
            interval: Interval::Day1,
            start: None,
            end: None,
            prepost: false,
            actions: false,
            auto_adjust: true,
            back_adjust: false,
            keepna: false,
            repair: false,
        }
    }
}

impl Default for HistoryOptions {
    fn default() -> (o: HistoryOptions)
        ensures
            o.period@ == "1mo"@,
            o.interval == Interval::Day1,
            o.start is None && o.end is None,
            !o.prepost && !o.actions && o.auto_adjust && !o.back_adjust && !o.keepna && !o.repair,
    {
        HistoryOptions::new()
    }
}

/// The corporate-action events a chart request asks for.
pub open spec fn requested_events() -> Seq<char> {
    "div,split,capitalGains"@
}

/// The parameters of a history request: interval, pre/post flag and events,
/// then `period1`/`period2` when both bounds are set, else `range`.
pub open spec fn history_params_spec(o: HistoryOptions) -> Seq<(Seq<char>, Seq<char>)> {
    let head = seq![
        ("interval"@, interval_text(o.interval)),
        ("includePrePost"@, bool_text(o.prepost)),
        ("events"@, requested_events()),
    ];
    match (o.start, o.end) {
        (Some(s), Some(e)) => head + seq![
            ("period1"@, signed_decimal(s as int)),
            ("period2"@, signed_decimal(e as int)),
        ],
        _ => head + seq![("range"@, o.period@)],
    }
}

/// The query parameters of a history request.
pub fn history_params(opts: &HistoryOptions) -> (p: Vec<(String, String)>)
    ensures
        pairs_view(p@) == history_params_spec(*opts),
{
    let mut p: Vec<(String, String)> = Vec::new();
    p.push(("interval".to_owned(), opts.interval.as_str().to_owned()));
    p.push(("includePrePost".to_owned(), bool_string(opts.prepost)));
    p.push(("events".to_owned(), "div,split,capitalGains".to_owned()));
    match (opts.start, opts.end) {
        (Some(s), Some(e)) => {
            p.push(("period1".to_owned(), i64_decimal_string(s)));
            p.push(("period2".to_owned(), i64_decimal_string(e)));
        },
        _ => {
            p.push(("range".to_owned(), opts.period.clone()));
        },
    }
    assert(pairs_view(p@) =~= history_params_spec(*opts));
    p
}

/// The parameters of a chart-metadata request: one day of daily bars.
pub fn metadata_params() -> (p: Vec<(String, String)>)
    ensures
        pairs_view(p@) == seq![
            ("interval"@, "1d"@),
            ("range"@, "1d"@),
            ("events"@, requested_events()),
        ],
{
    let mut p: Vec<(String, String)> = Vec::new();
    p.push(("interval".to_owned(), "1d".to_owned()));
    p.push(("range".to_owned(), "1d".to_owned()));
    p.push(("events".to_owned(), "div,split,capitalGains".to_owned()));
    assert(pairs_view(p@) =~= seq![
        ("interval"@, "1d"@),
        ("range"@, "1d"@),
        ("events"@, requested_events()),
    ]);
    p
}

/// The chart URL of a ticker.
pub fn chart_url(ticker: &str) -> (u: String)
    ensures
        u@ == QUERY2@ + "/v8/finance/chart/"@ + ticker@,
{
    concat3(QUERY2, "/v8/finance/chart/", ticker)
}

/// `chart.error.description` of a chart reply.
pub open spec fn chart_error_description(v: JsonV) -> Option<Seq<char>> {
    match member(v, "chart"@) {
        Some(c) => match member(c, "error"@) {
            Some(e) => match member(e, "description"@) {
                Some(d) => str_of(d),
                None => None,
            },
            None => None,
        },
        None => None,
    }
}

/// The error a chart reply reports: a non-empty `chart.error.description`
/// means the ticker was not found.
pub fn chart_error(v: &Json, ticker: &str) -> (r: Option<YfError>)
    ensures
        r is Some <==> (chart_error_description(v@) matches Some(d) && d.len() > 0),
        r matches Some(e) ==> (e matches YfError::TickerMissing(m) && m@ == ticker@ + ": "@
            + chart_error_description(v@)->0),
{
    let d = match v.get_key("chart") {
        Some(c) => match c.get_key("error") {
            Some(e) => match e.get_key("description") {
                Some(d) => d.as_str(),
                None => None,
            },
            None => None,
        },
        None => None,
    };
    match d {
        Some(desc) => {
            if desc.is_empty() {
                None
            } else {
                Some(YfError::TickerMissing(concat3(ticker, ": ", desc)))
            }
        },
        None => None,
    }
}

/// The timestamps of a chart result: the integer items of its `timestamp`
/// array, in order.
pub open spec fn timestamps_of(items: Seq<JsonV>) -> Seq<i64>
    decreases items.len(),
{
    if items.len() == 0 {
        seq![]
    } else {
        let rest = timestamps_of(items.drop_last());
        match crate::json::int_of(items.last()) {
            Some(t) => rest.push(t),
            None => rest,
        }
    }
}

/// The `timestamp` array of a chart result, as integers (items that are not
/// integers are skipped; no array gives none).
pub fn chart_timestamps(result: &Json) -> (ts: Vec<i64>)
    ensures
        ts@ == (match member(result@, "timestamp"@) {
            Some(JsonV::Array(items)) => timestamps_of(items),
            _ => Seq::empty(),
        }),
{
    let mut ts: Vec<i64> = Vec::new();
    match result.get_key("timestamp") {
        Some(t) => match t.as_array() {
            Some(items) => {
                proof {
                    lemma_items_view(items@);
                }
                let ghost iv = items_view(items@);
                let mut i: usize = 0;
                while i < items.len()
                    invariant
                        i <= items@.len(),
                        iv == items_view(items@),
                        iv.len() == items@.len(),
                        forall|j: int| 0 <= j < items@.len() ==> #[trigger] iv[j] == items@[j]@,
                        ts@ == timestamps_of(iv.take(i as int)),
                    decreases items@.len() - i,
                {
                    assert(iv.take(i + 1).drop_last() =~= iv.take(i as int));
                    match items[i].as_i64() {
                        Some(x) => ts.push(x),
                        None => {},
                    }
                    i = i + 1;
                }
                assert(iv.take(items@.len() as int) =~= iv);
            },
            None => {},
        },
        None => {},
    }
    ts
}

/// The `i`-th timestamp, 0 when out of range.
pub fn ts_i64(a: &[i64], i: usize) -> (t: i64)
    ensures
        t == (if i < a@.len() {
            a@[i as int]
        } else {
            0
        }),
{
    if i < a.len() {
        a[i]
    } else {
        0
    }
}

/// A price is present at row `i` of a series.
pub open spec fn present_at(a: Seq<Option<JsonNumber>>, i: int) -> bool {
    0 <= i < a.len() && a[i] is Some
}

/// Row `i` of a chart becomes a bar: its timestamp has a UTC date-time and,
/// unless `keepna`, its open, high, low and close are all present.
pub open spec fn row_kept(
    ts: Seq<i64>,
    open: Seq<Option<JsonNumber>>,
    high: Seq<Option<JsonNumber>>,
    low: Seq<Option<JsonNumber>>,
    close: Seq<Option<JsonNumber>>,
    keepna: bool,
    i: int,
) -> bool {
    &&& utc_second_in_range(ts[i])
    &&& (keepna || (present_at(open, i) && present_at(high, i) && present_at(low, i)
        && present_at(close, i)))
}

/// The rows among the first `n` that become bars, in order.
pub open spec fn bar_rows_upto(
    ts: Seq<i64>,
    open: Seq<Option<JsonNumber>>,
    high: Seq<Option<JsonNumber>>,
    low: Seq<Option<JsonNumber>>,
    close: Seq<Option<JsonNumber>>,
    keepna: bool,
    n: nat,
) -> Seq<usize>
    decreases n,
{
    if n == 0 {
        seq![]
    } else {
        let rest = bar_rows_upto(ts, open, high, low, close, keepna, (n - 1) as nat);
        if row_kept(ts, open, high, low, close, keepna, n - 1) {
            rest.push((n - 1) as usize)
        } else {
            rest
        }
    }
}

/// The rows of a chart that become bars, in increasing order: those whose
/// timestamp has a UTC date-time and, unless `keepna`, whose open, high,
/// low and close are all present.
pub fn bar_rows(
    timestamps: &[i64],
    open: &[Option<JsonNumber>],
    high: &[Option<JsonNumber>],
    low: &[Option<JsonNumber>],
    close: &[Option<JsonNumber>],
    keepna: bool,
) -> (rows: Vec<usize>)
    ensures
        rows@ == bar_rows_upto(
            timestamps@,
            open@,
            high@,
            low@,
            close@,
            keepna,
            timestamps@.len(),
        ),
        forall|k: int| 0 <= k < rows@.len() ==> #[trigger] rows@[k] < timestamps@.len(),
{
    let mut rows: Vec<usize> = Vec::new();
    let mut i: usize = 0;
    while i < timestamps.len()
        invariant
            i <= timestamps@.len(),
            rows@ == bar_rows_upto(timestamps@, open@, high@, low@, close@, keepna, i as nat),
            forall|k: int| 0 <= k < rows@.len() ==> #[trigger] rows@[k] < i,
        decreases timestamps@.len() - i,
    {
        let valid = utc_second_valid(timestamps[i]);
        let complete = i < open.len() && open[i].is_some() && i < high.len() && high[i].is_some()
            && i < low.len() && low[i].is_some() && i < close.len() && close[i].is_some();
        if valid && (keepna || complete) {
            rows.push(i);
        }
        i = i + 1;
    }
    rows
}

/// `chart.result[0]` of a chart reply.
pub open spec fn chart_result_spec(v: JsonV) -> Option<JsonV> {
    crate::json::first_result(v, "chart"@)
}

/// `chart.result[0]` of a chart reply; `DataMissing("chart.result missing")`
/// when absent.
pub fn chart_result(v: &Json) -> (r: Result<&Json, YfError>)
    ensures
        r matches Ok(n) ==> chart_result_spec(v@) == Some(n@),
        r is Err <==> chart_result_spec(v@) is None,
        r matches Err(e) ==> (e matches YfError::DataMissing(m) && m@ == "chart.result missing"@),
{
    match crate::json::yf_result_first(v, "chart") {
        Ok(n) => Ok(n),
        Err(_) => Err(YfError::DataMissing("chart.result missing".to_owned())),
    }
}

/// The fields of a chart's metadata; its prices as sent.
#[derive(Debug, Clone)]
pub struct MetaText {
    pub currency: Option<String>,
    pub exchange: Option<String>,
    pub instrument_type: Option<String>,
    pub timezone: Option<String>,
    pub first_trade_date: Option<i64>,
    pub regular_market_price: Option<JsonNumber>,
    pub fifty_two_week_high: Option<JsonNumber>,
    pub fifty_two_week_low: Option<JsonNumber>,
}

/// The metadata node of a chart result, `null` when absent.
pub open spec fn meta_of(result: JsonV) -> JsonV {
    match member(result, "meta"@) {
        Some(m) => m,
        None => JsonV::Null,
    }
}

/// Reads the fields of a chart result's metadata.
pub fn meta_text(result: &Json) -> (m: MetaText)
    ensures
        m.regular_market_price == crate::json::member_number(
            meta_of(result@),
            "regularMarketPrice"@,
        ),
        m.fifty_two_week_high == crate::json::member_number(meta_of(result@), "fiftyTwoWeekHigh"@),
        m.fifty_two_week_low == crate::json::member_number(meta_of(result@), "fiftyTwoWeekLow"@),
        crate::json::opt_string_view(m.currency) == crate::json::member_str(
            meta_of(result@),
            "currency"@,
        ),
        crate::json::opt_string_view(m.exchange) == crate::json::member_str(
            meta_of(result@),
            "exchangeName"@,
        ),
        crate::json::opt_string_view(m.instrument_type) == crate::json::member_str(
            meta_of(result@),
            "instrumentType"@,
        ),
        crate::json::opt_string_view(m.timezone) == crate::json::member_str(
            meta_of(result@),
            "timezone"@,
        ),
        m.first_trade_date == (match member(meta_of(result@), "firstTradeDate"@) {
            Some(n) => crate::json::int_of(n),
            None => None,
        }),
{
    match result.get_key("meta") {
        Some(meta) => MetaText {
            currency: crate::json::get_member_string(meta, "currency"),
            exchange: crate::json::get_member_string(meta, "exchangeName"),
            instrument_type: crate::json::get_member_string(meta, "instrumentType"),
            timezone: crate::json::get_member_string(meta, "timezone"),
            first_trade_date: match meta.get_key("firstTradeDate") {
                Some(n) => n.as_i64(),
                None => None,
            },
            regular_market_price: crate::json::get_member_number(meta, "regularMarketPrice"),
            fifty_two_week_high: crate::json::get_member_number(meta, "fiftyTwoWeekHigh"),
            fifty_two_week_low: crate::json::get_member_number(meta, "fiftyTwoWeekLow"),
        },
        None => MetaText {
            currency: None,
            exchange: None,
            instrument_type: None,
            timezone: None,
            first_trade_date: None,
            regular_market_price: None,
            fifty_two_week_high: None,
            fifty_two_week_low: None,
        },
    }
}

/// A number, when the node is one.
pub open spec fn number_of(v: JsonV) -> Option<JsonNumber> {
    match v {
        JsonV::Number(n) => Some(n),
        _ => None,
    }
}

/// The first entry of `indicators.<indicator>` of a chart result.
pub open spec fn indicator_entry(result: JsonV, indicator: Seq<char>) -> Option<JsonV> {
    match member(result, "indicators"@) {
        Some(i) => match member(i, indicator) {
            Some(JsonV::Array(es)) => if es.len() > 0 {
                Some(es[0])
            } else {
                None
            },
            _ => None,
        },
        None => None,
    }
}

/// The series `key` of an indicator of a chart result: the items of its
/// array as numbers (`None` for an item that is not one); no array gives an
/// empty series.
pub open spec fn series_spec(result: JsonV, indicator: Seq<char>, key: Seq<char>) -> Seq<
    Option<JsonNumber>,
> {
    match indicator_entry(result, indicator) {
        Some(e) => match member(e, key) {
            Some(JsonV::Array(xs)) => xs.map_values(|x: JsonV| number_of(x)),
            _ => seq![],
        },
        None => seq![],
    }
}

/// A price series of a chart result (`quote` with `open`, `high`, `low`,
/// `close` or `volume`; `adjclose` with `adjclose`), as sent.
pub fn chart_series(result: &Json, indicator: &str, key: &str) -> (s: Vec<Option<JsonNumber>>)
    ensures
        s@ == series_spec(result@, indicator@, key@),
{
    let mut out: Vec<Option<JsonNumber>> = Vec::new();
    let entry: Option<&Json> = match result.get_key("indicators") {
        Some(i) => match i.get_key(indicator) {
            Some(es) => match es.as_array() {
                Some(a) => {
                    proof {
                        lemma_items_view(a@);
                    }
                    if a.len() > 0 {
                        Some(&a[0])
                    } else {
                        None
                    }
                },
                None => None,
            },
            None => None,
        },
        None => None,
    };
    match entry {
        Some(e) => match e.get_key(key) {
            Some(xs) => match xs.as_array() {
                Some(items) => {
                    proof {
                        lemma_items_view(items@);
                    }
                    let ghost iv = items_view(items@);
                    let mut i: usize = 0;
                    while i < items.len()
                        invariant
                            i <= items@.len(),
                            iv == items_view(items@),
                            iv.len() == items@.len(),
                            forall|j: int| 0 <= j < items@.len() ==> #[trigger] iv[j] == items@[j]@,
                            out@ == iv.take(i as int).map_values(|x: JsonV| number_of(x)),
                        decreases items@.len() - i,
                    {
                        let n = match &items[i] {
                            Json::Number(n) => Some(n.clone()),
                            _ => None,
                        };
                        out.push(n);
                        i = i + 1;
                        assert(iv.take(i as int).map_values(|x: JsonV| number_of(x)) =~= iv.take(
                            i - 1,
                        ).map_values(|x: JsonV| number_of(x)).push(number_of(iv[i - 1])));
                    }
                    assert(iv.take(items@.len() as int) =~= iv);
                },
                None => {},
            },
            None => {},
        },
        None => {},
    }
    out
}

/// The numbers of the members `fields` of an event, when each is a number.
pub open spec fn numbers_of(v: JsonV, fields: Seq<Seq<char>>) -> Option<Seq<JsonNumber>>
    decreases fields.len(),
{
    if fields.len() == 0 {
        Some(seq![])
    } else {
        match (numbers_of(v, fields.drop_last()), member(v, fields.last())) {
            (Some(ns), Some(JsonV::Number(n))) => Some(ns.push(n)),
            _ => None,
        }
    }
}

/// An event: its integer `date` and the numbers of `fields`.
pub open spec fn event_of(v: JsonV, fields: Seq<Seq<char>>) -> Option<(i64, Seq<JsonNumber>)> {
    match member(v, "date"@) {
        Some(d) => match (int_of(d), numbers_of(v, fields)) {
            (Some(t), Some(ns)) => Some((t, ns)),
            _ => None,
        },
        None => None,
    }
}

/// The events among the members of an events object, in order; members
/// that are not events are skipped.
pub open spec fn events_of(ms: Seq<(Seq<char>, JsonV)>, fields: Seq<Seq<char>>) -> Seq<
    (i64, Seq<JsonNumber>),
>
    decreases ms.len(),
{
    if ms.len() == 0 {
        seq![]
    } else {
        let rest = events_of(ms.drop_last(), fields);
        match event_of(ms.last().1, fields) {
            Some(e) => rest.push(e),
            None => rest,
        }
    }
}

/// The events of one kind (`div`, `split`, `capitalGains`) of a chart
/// result, with the numbers of `fields`.
pub open spec fn chart_events_spec(result: JsonV, kind: Seq<char>, fields: Seq<Seq<char>>) -> Seq<
    (i64, Seq<JsonNumber>),
> {
    match member(result, "events"@) {
        Some(e) => match member(e, kind) {
            Some(JsonV::Object(ms)) => events_of(ms, fields),
            _ => seq![],
        },
        None => seq![],
    }
}

/// Events as dates and number sequences.
pub open spec fn events_view(v: Seq<(i64, Vec<JsonNumber>)>) -> Seq<(i64, Seq<JsonNumber>)> {
    v.map_values(|e: (i64, Vec<JsonNumber>)| (e.0, e.1@))
}

fn event_numbers(v: &Json, fields: &[&str]) -> (r: Option<Vec<JsonNumber>>)
    ensures
        match r {
            Some(ns) => numbers_of(v@, keys_view(fields@)) == Some(ns@),
            None => numbers_of(v@, keys_view(fields@)) is None,
        },
{
    let ghost ks = keys_view(fields@);
    let mut out: Vec<JsonNumber> = Vec::new();
    let mut i: usize = 0;
    while i < fields.len()
        invariant
            i <= fields@.len(),
            ks == keys_view(fields@),
            numbers_of(v@, ks.take(i as int)) == Some(out@),
        decreases fields@.len() - i,
    {
        assert(ks.take(i + 1).drop_last() =~= ks.take(i as int));
        assert(ks.take(i + 1).last() == fields@[i as int]@);
        match v.get_key(fields[i]) {
            Some(Json::Number(n)) => {
                out.push(n.clone());
            },
            _ => {
                assert(numbers_of(v@, ks.take(i + 1)) is None);
                proof {
                    lemma_numbers_prefix(v@, ks, i + 1);
                }
                return None;
            },
        }
        i = i + 1;
    }
    assert(ks.take(fields@.len() as int) =~= ks);
    Some(out)
}

/// A field that is not a number spoils every longer list of fields.
proof fn lemma_numbers_prefix(v: JsonV, ks: Seq<Seq<char>>, n: int)
    requires
        0 <= n <= ks.len(),
        numbers_of(v, ks.take(n)) is None,
    ensures
        numbers_of(v, ks) is None,
    decreases ks.len() - n,
{
    if n < ks.len() {
        assert(ks.take(n + 1).drop_last() =~= ks.take(n));
        lemma_numbers_prefix(v, ks, n + 1);
    } else {
        assert(ks.take(n) =~= ks);
    }
}

/// The events of one kind (`div`, `split`, `capitalGains`) of a chart
/// result: for each member of `events.<kind>` with an integer `date` and a
/// number at each of `fields`, the date and those numbers, in order.
pub fn chart_events(result: &Json, kind: &str, fields: &[&str]) -> (r: Vec<(i64, Vec<JsonNumber>)>)
    ensures
        events_view(r@) == chart_events_spec(result@, kind@, keys_view(fields@)),
{
    let ghost ks = keys_view(fields@);
    let mut out: Vec<(i64, Vec<JsonNumber>)> = Vec::new();
    let ms: &Vec<(String, Json)> = match result.get_key("events") {
        Some(e) => match e.get_key(kind) {
            Some(k) => match k.as_object() {
                Some(m) => m,
                None => {
                    assert(events_view(out@) =~= seq![]);
                    return out;
                },
            },
            None => {
                assert(events_view(out@) =~= seq![]);
                return out;
            },
        },
        None => {
            assert(events_view(out@) =~= seq![]);
            return out;
        },
    };
    proof {
        lemma_members_view(ms@);
    }
    let ghost mv = members_view(ms@);
    let mut i: usize = 0;
    while i < ms.len()
        invariant
            i <= ms@.len(),
            ks == keys_view(fields@),
            mv == members_view(ms@),
            mv.len() == ms@.len(),
            forall|j: int| 0 <= j < ms@.len() ==> #[trigger] mv[j] == (ms@[j].0@, ms@[j].1@),
            events_view(out@) == events_of(mv.take(i as int), ks),
        decreases ms@.len() - i,
    {
        let ghost prev = out@;
        assert(mv.take(i + 1).drop_last() =~= mv.take(i as int));
        assert(mv.take(i + 1).last() == mv[i as int]);
        let v = &ms[i].1;
        let date = match v.get_key("date") {
            Some(d) => d.as_i64(),
            None => None,
        };
        match (date, event_numbers(v, fields)) {
            (Some(t), Some(ns)) => {
                out.push((t, ns));
                assert(events_view(out@) =~= events_view(prev).push((t, ns@)));
            },
            _ => {},
        }
        i = i + 1;
    }
    assert(mv.take(ms@.len() as int) =~= mv);
    out
}

} // verus!
