//! Properties of the library that hold across inputs and across calls.

use vstd::arithmetic::power2::*;
use vstd::prelude::*;

use crate::cache::crumb_at;
use crate::calendars::{
    unicode_uppercase,
    earnings_query_json, ipo_query_json, op_node, page_size, range_query_json, zip_map,
};
use crate::client::{failures, oks};
use crate::news::query_ref_spec;
use crate::options::{contract_matches, last_trade_of, ContractFields};
use crate::error::YfError;
use crate::http::retry::{backoff_secs, status_decision_ok, Decision};
use crate::history::{interval_text, Interval};
use crate::http::{response_step_ok, Step};
use crate::isin::{
    is_encoded_text, lemma_decode_encode_char, lemma_percent_encoded_first,
    lemma_percent_encoded_text, percent_decoded, percent_encoded,
};
use crate::json::{
    dig, get_at, member, member_bool, member_number, member_of, member_str, JsonNumber, JsonV,
};
use crate::mic::{lookup_ignore_case, mic_table, strip_dot, suffix_of_mic};
use crate::screener::{custom_body_json, ScreenOptions};
use crate::parity::{newer_release_spec, parse_ver_spec};
use crate::text::{ascii_lower, ascii_lowercase, eq_ignore_ascii_case};

verus! {

/// A rate-limited reply (HTTP 429) is never retried, whatever the attempt
/// and the retry budget: the request gives up with `RateLimited`.
pub proof fn law_rate_limited_never_retried(
    d: Decision,
    attempt: u32,
    retries: u32,
    retry_401: bool,
)
    requires
        status_decision_ok(d, 429, attempt, retries, retry_401),
    ensures
        d == (Decision::GiveUp { error: YfError::RateLimited }),
{
}

/// Once the retry budget is spent, no status is retried.
pub proof fn law_no_retry_without_budget(
    d: Decision,
    status: u16,
    attempt: u32,
    retries: u32,
    retry_401: bool,
)
    requires
        status_decision_ok(d, status, attempt, retries, retry_401),
        attempt >= retries,
    ensures
        !(d is Retry),
{
}

/// Requests that carry no crumb never retry a 401.
pub proof fn law_unauthorized_text_not_retried(d: Decision, attempt: u32, retries: u32)
    requires
        status_decision_ok(d, 401, attempt, retries, false),
    ensures
        !(d is Retry),
{
}

/// An attempt succeeds exactly when its status is 2xx.
pub proof fn law_success_iff_2xx(
    d: Decision,
    status: u16,
    attempt: u32,
    retries: u32,
    retry_401: bool,
)
    requires
        status_decision_ok(d, status, attempt, retries, retry_401),
    ensures
        (d is Success) <==> (200 <= status <= 299),
{
}

/// Each retry of the request loop is the next attempt and stays within the
/// budget, so a request makes at most `retries + 1` attempts.
pub proof fn law_retry_within_budget(
    s: Step,
    status: u16,
    body: String,
    attempt: u32,
    retries: u32,
    retry_401: bool,
)
    requires
        response_step_ok(s, status, body, attempt, retries, retry_401),
        s is Retry,
    ensures
        s->Retry_attempt == attempt + 1,
        s->Retry_attempt <= retries,
{
}

/// The backoff doubles from one attempt to the next until it saturates.
pub proof fn law_backoff_doubles(n: nat)
    requires
        pow2(n + 1) <= u64::MAX,
    ensures
        backoff_secs(n + 1) == 2 * backoff_secs(n),
{
    lemma_pow2_unfold(n + 1);
    lemma_pow2_pos(n);
}

/// The backoff never shrinks as attempts go on.
pub proof fn law_backoff_monotone(m: nat, n: nat)
    requires
        m <= n,
    ensures
        backoff_secs(m) <= backoff_secs(n),
{
    if m < n {
        lemma_pow2_strictly_increases(m, n);
    }
}

proof fn lemma_lower_dot(c: char)
    ensures
        (ascii_lower(c) == '.') <==> (c == '.'),
{
}

proof fn lemma_strip_dot_case(a: Seq<char>, b: Seq<char>)
    requires
        eq_ignore_ascii_case(a, b),
    ensures
        eq_ignore_ascii_case(strip_dot(a), strip_dot(b)),
{
    assert(ascii_lowercase(a).len() == a.len());
    assert(ascii_lowercase(b).len() == b.len());
    if a.len() > 0 {
        assert(ascii_lowercase(a)[0] == ascii_lowercase(b)[0]);
        lemma_lower_dot(a[0]);
        lemma_lower_dot(b[0]);
        if a[0] == '.' {
            assert(ascii_lowercase(a.drop_first()) =~= ascii_lowercase(a).drop_first());
            assert(ascii_lowercase(b.drop_first()) =~= ascii_lowercase(b).drop_first());
        }
    }
}

proof fn lemma_lookup_case(t: Seq<(Seq<char>, Seq<char>)>, a: Seq<char>, b: Seq<char>)
    requires
        eq_ignore_ascii_case(a, b),
    ensures
        lookup_ignore_case(t, a) == lookup_ignore_case(t, b),
    decreases t.len(),
{
    if t.len() > 0 {
        lemma_lookup_case(t.drop_first(), a, b);
    }
}

/// MIC codes are matched without regard to ASCII case: two MICs equal up
/// to case have the same suffix (or are both unknown).
pub proof fn law_mic_lookup_ignores_case(a: Seq<char>, b: Seq<char>)
    requires
        eq_ignore_ascii_case(a, b),
    ensures
        suffix_of_mic(a) == suffix_of_mic(b),
{
    lemma_strip_dot_case(a, b);
    lemma_lookup_case(mic_table(), strip_dot(a), strip_dot(b));
}

proof fn lemma_dig_push(v: JsonV, path: Seq<Seq<char>>, k: Seq<char>)
    ensures
        dig(v, path.push(k)) == match dig(v, path) {
            Some(n) => member(n, k),
            None => None,
        },
    decreases path.len(),
{
    if path.len() == 0 {
        let p1 = path.push(k);
        assert(p1[0] == k);
        assert(p1.drop_first() =~= Seq::<Seq<char>>::empty());
        match member(v, k) {
            Some(c) => {
                assert(dig(c, p1.drop_first()) == Some(c));
            },
            None => {},
        }
    } else {
        assert(path.push(k)[0] == path[0]);
        assert(path.push(k).drop_first() =~= path.drop_first().push(k));
        match member(v, path[0]) {
            Some(c) => {
                lemma_dig_push(c, path.drop_first(), k);
            },
            None => {},
        }
    }
}

/// Reading a wrapped field and reading its explicit `raw` segment give the
/// same value.
pub proof fn law_explicit_raw_segment(v: JsonV, path: Seq<Seq<char>>)
    requires
        dig(v, path) matches Some(n) && member(n, "raw"@) matches Some(r) && member(r, "raw"@)
            is None,
    ensures
        get_at(v, path.push("raw"@)) == get_at(v, path),
{
    lemma_dig_push(v, path, "raw"@);
}

/// A pinned version equal to the latest release is never reported as
/// outdated.
pub proof fn law_same_version_not_newer(v: Seq<char>)
    ensures
        !newer_release_spec(Some(v), v),
{
}

/// A calendar page never asks for more than 100 rows, and asks for exactly
/// the limit when it is within the cap.
pub proof fn law_page_size_capped(limit: usize)
    ensures
        page_size(limit) <= 100,
        limit <= 100 ==> page_size(limit) == limit,
{
}

/// A record zipped from keys and values holds, for each key, the value
/// paired with its last occurrence.
pub proof fn law_zip_last_wins(keys: Seq<Seq<char>>, vals: Seq<JsonV>, n: nat, i: int)
    requires
        0 <= i < n,
        n <= keys.len(),
        n <= vals.len(),
        forall|j: int| i < j < n ==> keys[j] != keys[i],
    ensures
        zip_map(keys, vals, n).contains_key(keys[i]),
        zip_map(keys, vals, n)[keys[i]] == vals[i],
    decreases n,
{
    if n - 1 > i {
        law_zip_last_wins(keys, vals, (n - 1) as nat, i);
    }
}

/// A lenient download loses no ticker: each outcome lands either among the
/// histories or among the errors.
pub proof fn law_lenient_download_keeps_every_ticker<H>(
    outcomes: Seq<(String, Result<H, YfError>)>,
)
    ensures
        oks(outcomes).len() + failures(outcomes).len() == outcomes.len(),
    decreases outcomes.len(),
{
    if outcomes.len() > 0 {
        law_lenient_download_keeps_every_ticker(outcomes.drop_last());
    }
}

/// The news feed a tab selects does not depend on the tab's ASCII case.
pub proof fn law_news_tab_ignores_case(a: Seq<char>, b: Seq<char>)
    requires
        ascii_lowercase(a) == ascii_lowercase(b),
    ensures
        query_ref_spec(a) == query_ref_spec(b),
{
}

/// A crumb stored at `stored` for `ttl` seconds reads back as itself at
/// any time before `stored + ttl`, and not from then on.
pub proof fn law_crumb_read_back(crumb: String, stored: i64, ttl: i64, later: i64)
    requires
        i64::MIN <= stored + ttl <= i64::MAX,
    ensures
        crumb_at(Some((crumb, (stored + ttl) as i64)), later) == if later < stored + ttl {
            Some(crumb)
        } else {
            None
        },
{
}


/// Query encoding loses nothing and stays in its alphabet: the encoding of
/// any text holds only unreserved characters and `%` escapes of two
/// uppercase hexadecimal digits, and percent-decoding it gives back exactly
/// the UTF-8 bytes of the text.
pub proof fn law_query_encoding_round_trip(s: Seq<char>)
    ensures
        is_encoded_text(percent_encoded(s)),
        percent_decoded(percent_encoded(s)) == vstd::utf8::encode_utf8(s),
    decreases s.len(),
{
    lemma_percent_encoded_text(s);
    if s.len() > 0 {
        lemma_percent_encoded_first(s);
        lemma_decode_encode_char(s[0], percent_encoded(s.drop_first()));
        law_query_encoding_round_trip(s.drop_first());
    }
}


/// A contract read from a reply entry takes each field from the member of
/// the same name: the bid from `bid`, the ask from `ask`, the strike from
/// `strike`, and so on, the last trade time from `lastTradeDate`.
pub proof fn law_contract_fields_by_name(c: ContractFields, e: JsonV)
    requires
        contract_matches(c, e),
    ensures
        c.bid == member_number(e, "bid"@),
        c.ask == member_number(e, "ask"@),
        c.strike == member_number(e, "strike"@),
        c.last_price == member_number(e, "lastPrice"@),
        c.change == member_number(e, "change"@),
        c.percent_change == member_number(e, "percentChange"@),
        c.volume == member_number(e, "volume"@),
        c.open_interest == member_number(e, "openInterest"@),
        c.implied_volatility == member_number(e, "impliedVolatility"@),
        c.in_the_money == member_bool(e, "inTheMoney"@),
        crate::json::opt_string_view(c.contract_symbol) == member_str(e, "contractSymbol"@),
        crate::json::opt_string_view(c.currency) == member_str(e, "currency"@),
        crate::json::opt_string_view(c.last_trade_date) == last_trade_of(e),
{
}

/// The operands of a query node.
pub open spec fn operands_of(q: JsonV) -> Seq<JsonV> {
    match member(q, "operands"@) {
        Some(JsonV::Array(a)) => a,
        _ => seq![],
    }
}

proof fn lemma_operands_of()
    ensures
        forall|op: Seq<char>, xs: Seq<JsonV>| #[trigger] operands_of(op_node(op, xs)) == xs,
{
    reveal_strlit("operator");
    reveal_strlit("operands");
    assert("operator"@[5] != "operands"@[5]);
    assert forall|op: Seq<char>, xs: Seq<JsonV>| #[trigger]
        operands_of(op_node(op, xs)) == xs by {
        let ms = seq![
            ("operator"@, JsonV::Str(unicode_uppercase(op))),
            ("operands"@, JsonV::Array(xs)),
        ];
        assert(ms.drop_first()[0] == ("operands"@, JsonV::Array(xs)));
        assert(crate::json::member_of(ms.drop_first(), "operands"@) == Some(JsonV::Array(xs)));
        assert(crate::json::member_of(ms, "operands"@) == Some(JsonV::Array(xs)));
    }
}

/// The earnings calendar asks for the US earnings announcements (event type
/// `EAD` or `ERA`) that start on or after `start` and on or before `end`:
/// after the region and event-type conditions, its last two are
/// `startdatetime >= start` and `startdatetime <= end`, the very bounds of
/// the economic-events and splits query over the same dates.
pub proof fn law_earnings_query_bounds(start: Seq<char>, end: Seq<char>)
    ensures
        operands_of(earnings_query_json(start, end)).len() == 4,
        operands_of(earnings_query_json(start, end))[0] == op_node(
            "eq"@,
            seq![JsonV::Str("region"@), JsonV::Str("us"@)],
        ),
        operands_of(earnings_query_json(start, end))[1] == op_node(
            "or"@,
            seq![
                op_node("eq"@, seq![JsonV::Str("eventtype"@), JsonV::Str("EAD"@)]),
                op_node("eq"@, seq![JsonV::Str("eventtype"@), JsonV::Str("ERA"@)]),
            ],
        ),
        operands_of(earnings_query_json(start, end))[2] == op_node(
            "gte"@,
            seq![JsonV::Str("startdatetime"@), JsonV::Str(start)],
        ),
        operands_of(earnings_query_json(start, end))[3] == op_node(
            "lte"@,
            seq![JsonV::Str("startdatetime"@), JsonV::Str(end)],
        ),
        operands_of(earnings_query_json(start, end)).subrange(2, 4) == operands_of(
            range_query_json(start, end),
        ),
{
    lemma_operands_of();
    assert(operands_of(earnings_query_json(start, end)).subrange(2, 4) =~= operands_of(
        range_query_json(start, end),
    ));
}

/// The IPO calendar asks for the offerings whose start, filing or
/// amendment date lies in `[start, end)`: one `GTELT` condition per date
/// field, each over `start` and `end` in that order.
pub proof fn law_ipo_query_dates(start: Seq<char>, end: Seq<char>)
    ensures
        operands_of(ipo_query_json(start, end)) == seq![
            op_node("gtelt"@, seq![JsonV::Str("startdatetime"@), JsonV::Str(start), JsonV::Str(end)]),
            op_node("gtelt"@, seq![JsonV::Str("filingdate"@), JsonV::Str(start), JsonV::Str(end)]),
            op_node("gtelt"@, seq![JsonV::Str("amendeddate"@), JsonV::Str(start), JsonV::Str(end)]),
        ],
{
    lemma_operands_of();
}

/// The date operands of a `startdatetime` bound: the compared dates.
pub open spec fn bound_date(q: JsonV) -> JsonV {
    operands_of(q)[1]
}

/// Different date ranges give different calendar queries: each of the
/// earnings, IPO and range queries determines both its start and its end.
pub proof fn law_calendar_queries_keep_their_dates(
    s1: Seq<char>,
    e1: Seq<char>,
    s2: Seq<char>,
    e2: Seq<char>,
)
    ensures
        earnings_query_json(s1, e1) == earnings_query_json(s2, e2) ==> s1 == s2 && e1 == e2,
        ipo_query_json(s1, e1) == ipo_query_json(s2, e2) ==> s1 == s2 && e1 == e2,
        range_query_json(s1, e1) == range_query_json(s2, e2) ==> s1 == s2 && e1 == e2,
{
    lemma_operands_of();
    if earnings_query_json(s1, e1) == earnings_query_json(s2, e2) {
        let a = operands_of(earnings_query_json(s1, e1));
        let b = operands_of(earnings_query_json(s2, e2));
        assert(bound_date(a[2]) == JsonV::Str(s1) && bound_date(b[2]) == JsonV::Str(s2));
        assert(bound_date(a[3]) == JsonV::Str(e1) && bound_date(b[3]) == JsonV::Str(e2));
    }
    if ipo_query_json(s1, e1) == ipo_query_json(s2, e2) {
        let a = operands_of(operands_of(ipo_query_json(s1, e1))[0]);
        let b = operands_of(operands_of(ipo_query_json(s2, e2))[0]);
        assert(a[1] == JsonV::Str(s1) && b[1] == JsonV::Str(s2));
        assert(a[2] == JsonV::Str(e1) && b[2] == JsonV::Str(e2));
    }
    if range_query_json(s1, e1) == range_query_json(s2, e2) {
        let a = operands_of(range_query_json(s1, e1));
        let b = operands_of(range_query_json(s2, e2));
        assert(bound_date(a[0]) == JsonV::Str(s1) && bound_date(b[0]) == JsonV::Str(s2));
        assert(bound_date(a[1]) == JsonV::Str(e1) && bound_date(b[1]) == JsonV::Str(e2));
    }
}


/// A custom screen's POST body carries the requested page and order: the
/// `offset` and `count` asked for (0 and 25 when unset), the sort field
/// (`ticker` when unset), `ASC` exactly when ascending order is asked for,
/// the user fields (empty and `guid` when unset), the query and quote type
/// as given, and a `size` exactly when one is set.
#[verifier::rlimit(50)]
pub proof fn law_custom_body_carries_options(query: JsonV, quote_type: Seq<char>, o: ScreenOptions)
    ensures
        ({
            let b = custom_body_json(query, quote_type, o);
            &&& o.offset matches Some(n) ==> member(b, "offset"@) == Some(
                JsonV::Number(JsonNumber::PosInt(n as u64)),
            )
            &&& o.offset is None ==> member(b, "offset"@) == Some(
                JsonV::Number(JsonNumber::PosInt(0)),
            )
            &&& o.count matches Some(n) ==> member(b, "count"@) == Some(
                JsonV::Number(JsonNumber::PosInt(n as u64)),
            )
            &&& o.count is None ==> member(b, "count"@) == Some(
                JsonV::Number(JsonNumber::PosInt(25)),
            )
            &&& o.sort_field matches Some(f) ==> member(b, "sortField"@) == Some(JsonV::Str(f@))
            &&& o.sort_field is None ==> member(b, "sortField"@) == Some(JsonV::Str("ticker"@))
            &&& o.sort_asc == Some(true) ==> member(b, "sortType"@) == Some(JsonV::Str("ASC"@))
            &&& o.sort_asc != Some(true) ==> member(b, "sortType"@) == Some(JsonV::Str("DESC"@))
            &&& o.user_id matches Some(u) ==> member(b, "userId"@) == Some(JsonV::Str(u@))
            &&& o.user_id is None ==> member(b, "userId"@) == Some(JsonV::Str(""@))
            &&& o.user_id_type matches Some(t) ==> member(b, "userIdType"@) == Some(
                JsonV::Str(t@),
            )
            &&& o.user_id_type is None ==> member(b, "userIdType"@) == Some(JsonV::Str("guid"@))
            &&& member(b, "query"@) == Some(query)
            &&& member(b, "quoteType"@) == Some(JsonV::Str(quote_type))
            &&& o.size matches Some(n) ==> member(b, "size"@) == Some(
                JsonV::Number(JsonNumber::PosInt(n as u64)),
            )
            &&& o.size is None ==> member(b, "size"@) is None
        }),
{
    reveal_strlit("offset");
    reveal_strlit("count");
    reveal_strlit("sortField");
    reveal_strlit("sortType");
    reveal_strlit("userId");
    reveal_strlit("userIdType");
    reveal_strlit("query");
    reveal_strlit("quoteType");
    reveal_strlit("size");
    assert("offset"@.len() == 6 && "offset"@[0] == 'o');
    assert("count"@.len() == 5 && "count"@[0] == 'c');
    assert("sortField"@.len() == 9 && "sortField"@[0] == 's');
    assert("sortType"@.len() == 8 && "sortType"@[0] == 's');
    assert("userId"@.len() == 6 && "userId"@[0] == 'u');
    assert("userIdType"@.len() == 10 && "userIdType"@[0] == 'u');
    assert("query"@.len() == 5 && "query"@[0] == 'q');
    assert("quoteType"@.len() == 9 && "quoteType"@[0] == 'q');
    assert("size"@.len() == 4 && "size"@[0] == 's');
    reveal_with_fuel(member_of, 10);
}


/// The wire strings of the bar intervals are Yahoo's interval codes
/// (minutes `Nm`, the hour `1h`, days `Nd`, the week `1wk`, months `Nmo`),
/// and no two intervals share one: each request asks for the bar length it
/// names.
pub proof fn law_interval_wire_text()
    ensures
        interval_text(Interval::Min1) == "1m"@,
        interval_text(Interval::Min2) == "2m"@,
        interval_text(Interval::Min5) == "5m"@,
        interval_text(Interval::Min15) == "15m"@,
        interval_text(Interval::Min30) == "30m"@,
        interval_text(Interval::Min60) == "60m"@,
        interval_text(Interval::Min90) == "90m"@,
        interval_text(Interval::Hour1) == "1h"@,
        interval_text(Interval::Day1) == "1d"@,
        interval_text(Interval::Day5) == "5d"@,
        interval_text(Interval::Week1) == "1wk"@,
        interval_text(Interval::Month1) == "1mo"@,
        interval_text(Interval::Month3) == "3mo"@,
        forall|a: Interval, b: Interval|
            #[trigger] interval_text(a) == #[trigger] interval_text(b) ==> a == b,
{
    assert("1m"@ =~= seq!['1', 'm']) by {
        reveal_strlit("1m");
    }
    assert("2m"@ =~= seq!['2', 'm']) by {
        reveal_strlit("2m");
    }
    assert("5m"@ =~= seq!['5', 'm']) by {
        reveal_strlit("5m");
    }
    assert("15m"@ =~= seq!['1', '5', 'm']) by {
        reveal_strlit("15m");
    }
    assert("30m"@ =~= seq!['3', '0', 'm']) by {
        reveal_strlit("30m");
    }
    assert("60m"@ =~= seq!['6', '0', 'm']) by {
        reveal_strlit("60m");
    }
    assert("90m"@ =~= seq!['9', '0', 'm']) by {
        reveal_strlit("90m");
    }
    assert("1h"@ =~= seq!['1', 'h']) by {
        reveal_strlit("1h");
    }
    assert("1d"@ =~= seq!['1', 'd']) by {
        reveal_strlit("1d");
    }
    assert("5d"@ =~= seq!['5', 'd']) by {
        reveal_strlit("5d");
    }
    assert("1wk"@ =~= seq!['1', 'w', 'k']) by {
        reveal_strlit("1wk");
    }
    assert("1mo"@ =~= seq!['1', 'm', 'o']) by {
        reveal_strlit("1mo");
    }
    assert("3mo"@ =~= seq!['3', 'm', 'o']) by {
        reveal_strlit("3mo");
    }
    assert forall|a: Interval, b: Interval|
        #[trigger] interval_text(a) == #[trigger] interval_text(b) implies a == b by {
        let (x, y) = (interval_text(a), interval_text(b));
        if x == y {
            assert(x.len() == y.len() && x[0] == y[0] && x[1] == y[1] && x[2] == y[2]);
        }
    }
}


/// The suffixes of the MIC table are at most three uppercase ASCII
/// letters, and no two entries share a non-empty one.
#[verifier::rlimit(100)]
proof fn lemma_mic_suffixes_distinct()
    ensures
        forall|i: int|
            0 <= i < mic_table().len() ==> (#[trigger] mic_table()[i]).1.len() <= 3 && forall|
                c: int,
            |
                0 <= c < mic_table()[i].1.len() ==> 'A' <= #[trigger] mic_table()[i].1[c] <= 'Z',
        forall|i: int, j: int|
            0 <= i < mic_table().len() && 0 <= j < mic_table().len() && i != j && (
            #[trigger] mic_table()[i]).1.len() > 0 ==> mic_table()[i].1 != (
            #[trigger] mic_table()[j]).1,
{
    let t = mic_table();
    assert(t[0].1 =~= seq!['C', 'B', 'T']) by {
        reveal_strlit("CBT");
    }
    assert(t[1].1 =~= seq!['C', 'M', 'E']) by {
        reveal_strlit("CME");
    }
    assert(t[2].1 =~= seq!['N', 'Y', 'B']) by {
        reveal_strlit("NYB");
    }
    assert(t[3].1 =~= seq!['C', 'M', 'X']) by {
        reveal_strlit("CMX");
    }
    assert(t[4].1 =~= seq!['N', 'Y', 'M']) by {
        reveal_strlit("NYM");
    }
    assert(t[5].1 =~= seq![]) by {
        reveal_strlit("");
    }
    assert(t[6].1 =~= seq![]) by {
        reveal_strlit("");
    }
    assert(t[7].1 =~= seq!['B', 'A']) by {
        reveal_strlit("BA");
    }
    assert(t[8].1 =~= seq!['V', 'I']) by {
        reveal_strlit("VI");
    }
    assert(t[9].1 =~= seq!['A', 'X']) by {
        reveal_strlit("AX");
    }
    assert(t[10].1 =~= seq!['X', 'A']) by {
        reveal_strlit("XA");
    }
    assert(t[11].1 =~= seq!['B', 'R']) by {
        reveal_strlit("BR");
    }
    assert(t[12].1 =~= seq!['S', 'A']) by {
        reveal_strlit("SA");
    }
    assert(t[13].1 =~= seq!['C', 'N']) by {
        reveal_strlit("CN");
    }
    assert(t[14].1 =~= seq!['N', 'E']) by {
        reveal_strlit("NE");
    }
    assert(t[15].1 =~= seq!['T', 'O']) by {
        reveal_strlit("TO");
    }
    assert(t[16].1 =~= seq!['V']) by {
        reveal_strlit("V");
    }
    assert(t[17].1 =~= seq!['S', 'N']) by {
        reveal_strlit("SN");
    }
    assert(t[18].1 =~= seq!['S', 'S']) by {
        reveal_strlit("SS");
    }
    assert(t[19].1 =~= seq!['S', 'Z']) by {
        reveal_strlit("SZ");
    }
    assert(t[20].1 =~= seq!['C', 'L']) by {
        reveal_strlit("CL");
    }
    assert(t[21].1 =~= seq!['P', 'R']) by {
        reveal_strlit("PR");
    }
    assert(t[22].1 =~= seq!['C', 'O']) by {
        reveal_strlit("CO");
    }
    assert(t[23].1 =~= seq!['C', 'A']) by {
        reveal_strlit("CA");
    }
    assert(t[24].1 =~= seq!['T', 'L']) by {
        reveal_strlit("TL");
    }
    assert(t[25].1 =~= seq!['X', 'D']) by {
        reveal_strlit("XD");
    }
    assert(t[26].1 =~= seq!['N', 'X']) by {
        reveal_strlit("NX");
    }
    assert(t[27].1 =~= seq!['H', 'E']) by {
        reveal_strlit("HE");
    }
    assert(t[28].1 =~= seq!['P', 'A']) by {
        reveal_strlit("PA");
    }
    assert(t[29].1 =~= seq!['B', 'E']) by {
        reveal_strlit("BE");
    }
    assert(t[30].1 =~= seq!['B', 'M']) by {
        reveal_strlit("BM");
    }
    assert(t[31].1 =~= seq!['D', 'U']) by {
        reveal_strlit("DU");
    }
    assert(t[32].1 =~= seq!['F']) by {
        reveal_strlit("F");
    }
    assert(t[33].1 =~= seq!['H', 'M']) by {
        reveal_strlit("HM");
    }
    assert(t[34].1 =~= seq!['H', 'A']) by {
        reveal_strlit("HA");
    }
    assert(t[35].1 =~= seq!['M', 'U']) by {
        reveal_strlit("MU");
    }
    assert(t[36].1 =~= seq!['S', 'G']) by {
        reveal_strlit("SG");
    }
    assert(t[37].1 =~= seq!['D', 'E']) by {
        reveal_strlit("DE");
    }
    assert(t[38].1 =~= seq!['A', 'T']) by {
        reveal_strlit("AT");
    }
    assert(t[39].1 =~= seq!['H', 'K']) by {
        reveal_strlit("HK");
    }
    assert(t[40].1 =~= seq!['B', 'D']) by {
        reveal_strlit("BD");
    }
    assert(t[41].1 =~= seq!['I', 'C']) by {
        reveal_strlit("IC");
    }
    assert(t[42].1 =~= seq!['B', 'O']) by {
        reveal_strlit("BO");
    }
    assert(t[43].1 =~= seq!['N', 'S']) by {
        reveal_strlit("NS");
    }
    assert(t[44].1 =~= seq!['J', 'K']) by {
        reveal_strlit("JK");
    }
    assert(t[45].1 =~= seq!['I', 'R']) by {
        reveal_strlit("IR");
    }
    assert(t[46].1 =~= seq!['T', 'A']) by {
        reveal_strlit("TA");
    }
    assert(t[47].1 =~= seq!['M', 'I']) by {
        reveal_strlit("MI");
    }
    assert(t[48].1 =~= seq!['T', 'I']) by {
        reveal_strlit("TI");
    }
    assert(t[49].1 =~= seq!['T']) by {
        reveal_strlit("T");
    }
    assert(t[50].1 =~= seq!['K', 'W']) by {
        reveal_strlit("KW");
    }
    assert(t[51].1 =~= seq!['R', 'G']) by {
        reveal_strlit("RG");
    }
    assert(t[52].1 =~= seq!['V', 'S']) by {
        reveal_strlit("VS");
    }
    assert(t[53].1 =~= seq!['K', 'L']) by {
        reveal_strlit("KL");
    }
    assert(t[54].1 =~= seq!['M', 'X']) by {
        reveal_strlit("MX");
    }
    assert(t[55].1 =~= seq!['A', 'S']) by {
        reveal_strlit("AS");
    }
    assert(t[56].1 =~= seq!['N', 'Z']) by {
        reveal_strlit("NZ");
    }
    assert(t[57].1 =~= seq!['O', 'L']) by {
        reveal_strlit("OL");
    }
    assert(t[58].1 =~= seq!['P', 'S']) by {
        reveal_strlit("PS");
    }
    assert(t[59].1 =~= seq!['W', 'A']) by {
        reveal_strlit("WA");
    }
    assert(t[60].1 =~= seq!['L', 'S']) by {
        reveal_strlit("LS");
    }
    assert(t[61].1 =~= seq!['Q', 'A']) by {
        reveal_strlit("QA");
    }
    assert(t[62].1 =~= seq!['R', 'O']) by {
        reveal_strlit("RO");
    }
    assert(t[63].1 =~= seq!['S', 'I']) by {
        reveal_strlit("SI");
    }
    assert(t[64].1 =~= seq!['J', 'O']) by {
        reveal_strlit("JO");
    }
    assert(t[65].1 =~= seq!['K', 'S']) by {
        reveal_strlit("KS");
    }
    assert(t[66].1 =~= seq!['K', 'Q']) by {
        reveal_strlit("KQ");
    }
    assert(t[67].1 =~= seq!['M', 'C']) by {
        reveal_strlit("MC");
    }
    assert(t[68].1 =~= seq!['S', 'R']) by {
        reveal_strlit("SR");
    }
    assert(t[69].1 =~= seq!['S', 'T']) by {
        reveal_strlit("ST");
    }
    assert(t[70].1 =~= seq!['S', 'W']) by {
        reveal_strlit("SW");
    }
    assert(t[71].1 =~= seq!['T', 'W', 'O']) by {
        reveal_strlit("TWO");
    }
    assert(t[72].1 =~= seq!['T', 'W']) by {
        reveal_strlit("TW");
    }
    assert(t[73].1 =~= seq!['B', 'K']) by {
        reveal_strlit("BK");
    }
    assert(t[74].1 =~= seq!['I', 'S']) by {
        reveal_strlit("IS");
    }
    assert(t[75].1 =~= seq!['A', 'E']) by {
        reveal_strlit("AE");
    }
    assert(t[76].1 =~= seq!['A', 'Q']) by {
        reveal_strlit("AQ");
    }
    assert(t[77].1 =~= seq!['X', 'C']) by {
        reveal_strlit("XC");
    }
    assert(t[78].1 =~= seq!['L']) by {
        reveal_strlit("L");
    }
    assert(t[79].1 =~= seq!['I', 'L']) by {
        reveal_strlit("IL");
    }
    assert(t[80].1 =~= seq!['C', 'R']) by {
        reveal_strlit("CR");
    }
    assert(t[81].1 =~= seq!['V', 'N']) by {
        reveal_strlit("VN");
    }
    assert forall|i: int| 0 <= i < t.len() implies (#[trigger] t[i]).1.len() <= 3 && forall|
        c: int,
    | 0 <= c < t[i].1.len() ==> 'A' <= #[trigger] t[i].1[c] <= 'Z' by {
        assert(i == 0 || i == 1 || i == 2 || i == 3 || i == 4 || i == 5 || i == 6 || i == 7 || i == 8 || i == 9 || i == 10 || i == 11 || i == 12 || i == 13 || i == 14 || i == 15 || i == 16 || i == 17 || i == 18 || i == 19 || i == 20 || i == 21 || i == 22 || i == 23 || i == 24 || i == 25 || i == 26 || i == 27 || i == 28 || i == 29 || i == 30 || i == 31 || i == 32 || i == 33 || i == 34 || i == 35 || i == 36 || i == 37 || i == 38 || i == 39 || i == 40 || i == 41 || i == 42 || i == 43 || i == 44 || i == 45 || i == 46 || i == 47 || i == 48 || i == 49 || i == 50 || i == 51 || i == 52 || i == 53 || i == 54 || i == 55 || i == 56 || i == 57 || i == 58 || i == 59 || i == 60 || i == 61 || i == 62 || i == 63 || i == 64 || i == 65 || i == 66 || i == 67 || i == 68 || i == 69 || i == 70 || i == 71 || i == 72 || i == 73 || i == 74 || i == 75 || i == 76 || i == 77 || i == 78 || i == 79 || i == 80 || i == 81);
    }
    assert forall|i: int, j: int|
        0 <= i < t.len() && 0 <= j < t.len() && i != j && (#[trigger] t[i]).1.len()
            > 0 implies t[i].1 != (#[trigger] t[j]).1 by {
        assert(i == 0 || i == 1 || i == 2 || i == 3 || i == 4 || i == 5 || i == 6 || i == 7 || i == 8 || i == 9 || i == 10 || i == 11 || i == 12 || i == 13 || i == 14 || i == 15 || i == 16 || i == 17 || i == 18 || i == 19 || i == 20 || i == 21 || i == 22 || i == 23 || i == 24 || i == 25 || i == 26 || i == 27 || i == 28 || i == 29 || i == 30 || i == 31 || i == 32 || i == 33 || i == 34 || i == 35 || i == 36 || i == 37 || i == 38 || i == 39 || i == 40 || i == 41 || i == 42 || i == 43 || i == 44 || i == 45 || i == 46 || i == 47 || i == 48 || i == 49 || i == 50 || i == 51 || i == 52 || i == 53 || i == 54 || i == 55 || i == 56 || i == 57 || i == 58 || i == 59 || i == 60 || i == 61 || i == 62 || i == 63 || i == 64 || i == 65 || i == 66 || i == 67 || i == 68 || i == 69 || i == 70 || i == 71 || i == 72 || i == 73 || i == 74 || i == 75 || i == 76 || i == 77 || i == 78 || i == 79 || i == 80 || i == 81);
        assert(j == 0 || j == 1 || j == 2 || j == 3 || j == 4 || j == 5 || j == 6 || j == 7 || j == 8 || j == 9 || j == 10 || j == 11 || j == 12 || j == 13 || j == 14 || j == 15 || j == 16 || j == 17 || j == 18 || j == 19 || j == 20 || j == 21 || j == 22 || j == 23 || j == 24 || j == 25 || j == 26 || j == 27 || j == 28 || j == 29 || j == 30 || j == 31 || j == 32 || j == 33 || j == 34 || j == 35 || j == 36 || j == 37 || j == 38 || j == 39 || j == 40 || j == 41 || j == 42 || j == 43 || j == 44 || j == 45 || j == 46 || j == 47 || j == 48 || j == 49 || j == 50 || j == 51 || j == 52 || j == 53 || j == 54 || j == 55 || j == 56 || j == 57 || j == 58 || j == 59 || j == 60 || j == 61 || j == 62 || j == 63 || j == 64 || j == 65 || j == 66 || j == 67 || j == 68 || j == 69 || j == 70 || j == 71 || j == 72 || j == 73 || j == 74 || j == 75 || j == 76 || j == 77 || j == 78 || j == 79 || j == 80 || j == 81);
        if t[i].1 == t[j].1 {
            assert(t[i].1.len() == t[j].1.len());
            assert(t[i].1[0] == t[j].1[0]);
            assert(t[i].1[1] == t[j].1[1]);
            assert(t[i].1[2] == t[j].1[2]);
        }
    }
}

/// The entry that a successful lookup finds.
proof fn lemma_lookup_entry(t: Seq<(Seq<char>, Seq<char>)>, m: Seq<char>) -> (k: int)
    requires
        lookup_ignore_case(t, m) is Some,
    ensures
        0 <= k < t.len(),
        eq_ignore_ascii_case(t[k].0, m),
        lookup_ignore_case(t, m) == Some(t[k].1),
    decreases t.len(),
{
    if eq_ignore_ascii_case(t[0].0, m) {
        0
    } else {
        let k = lemma_lookup_entry(t.drop_first(), m);
        k + 1
    }
}

/// Every suffix a MIC resolves to is a Yahoo exchange code: at most three
/// uppercase ASCII letters (none for the US exchanges).
pub proof fn law_mic_suffix_shape(m: Seq<char>, s: Seq<char>)
    requires
        suffix_of_mic(m) == Some(s),
    ensures
        s.len() <= 3,
        forall|c: int| 0 <= c < s.len() ==> 'A' <= #[trigger] s[c] <= 'Z',
{
    let k = lemma_lookup_entry(mic_table(), strip_dot(m));
    lemma_mic_suffixes_distinct();
    assert(mic_table()[k].1 == s);
}

/// Each Yahoo suffix belongs to one exchange: two MICs that resolve to the
/// same non-empty suffix are the same MIC, up to ASCII case and a leading
/// dot.
pub proof fn law_mic_suffix_identifies_exchange(a: Seq<char>, b: Seq<char>, s: Seq<char>)
    requires
        suffix_of_mic(a) == Some(s),
        suffix_of_mic(b) == Some(s),
        s.len() > 0,
    ensures
        eq_ignore_ascii_case(strip_dot(a), strip_dot(b)),
{
    let ka = lemma_lookup_entry(mic_table(), strip_dot(a));
    let kb = lemma_lookup_entry(mic_table(), strip_dot(b));
    lemma_mic_suffixes_distinct();
    if ka != kb {
        assert(mic_table()[ka].1 != mic_table()[kb].1);
    }
}

} // verus!
