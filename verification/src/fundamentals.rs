//! Financial statements (income, balance sheet, cash flow): which
//! `quoteSummary` module holds a statement, and the table of line items by
//! period read out of it.

use vstd::multiset::Multiset;
use vstd::prelude::*;

use crate::error::YfError;
use crate::json::{
    get_at, get_i64, get_member_str, get_number, items_view, lemma_items_view,
    lemma_members_view, lenient_i64, member, member_str, members_view, number_at,
    opt_string_view, path_view, Json, JsonNumber, JsonV,
};
use crate::dates::{format_utc, utc_formatted};
use crate::text::{
    chars_less, chars_lt, chars_vec, concat3, lemma_chars_lt_irreflexive, lemma_chars_lt_total,
    lemma_chars_lt_trans, str_eq,
};

verus! {

/// Frequency of a financial statement.
#[derive(Debug, Clone, Copy, PartialEq, Eq, Structural)]
pub enum Freq {
    Annual,
    Quarterly,
}

/// The name of a frequency.
pub open spec fn freq_text(f: Freq) -> Seq<char> {
    match f {
        Freq::Annual => "annual"@,
        Freq::Quarterly => "quarterly"@,
    }
}

impl Freq {
    /// The name of this frequency.
    pub fn as_str(&self) -> (s: &'static str)
        ensures
            s@ == freq_text(*self),
    {
        match self {
            Freq::Annual => "annual",
            Freq::Quarterly => "quarterly",
        }
    }
}

/// Which statement.
#[derive(Debug, Clone, Copy, PartialEq, Eq, Structural)]
pub enum Statement {
    Income,
    BalanceSheet,
    CashFlow,
}

/// The `quoteSummary` module of a statement at a frequency.
pub open spec fn module_text(s: Statement, f: Freq) -> Seq<char> {
    match (s, f) {
        (Statement::Income, Freq::Annual) => "incomeStatementHistory"@,
        (Statement::Income, Freq::Quarterly) => "incomeStatementHistoryQuarterly"@,
        (Statement::BalanceSheet, Freq::Annual) => "balanceSheetHistory"@,
        (Statement::BalanceSheet, Freq::Quarterly) => "balanceSheetHistoryQuarterly"@,
        (Statement::CashFlow, Freq::Annual) => "cashflowStatementHistory"@,
        (Statement::CashFlow, Freq::Quarterly) => "cashflowStatementHistoryQuarterly"@,
    }
}

/// The name of a statement.
pub open spec fn statement_text(s: Statement) -> Seq<char> {
    match s {
        Statement::Income => "income"@,
        Statement::BalanceSheet => "balance-sheet"@,
        Statement::CashFlow => "cash-flow"@,
    }
}

/// The `quoteSummary` module of a statement at a frequency.
pub fn module_name(statement: Statement, freq: Freq) -> (m: &'static str)
    ensures
        m@ == module_text(statement, freq),
{
    match (statement, freq) {
        (Statement::Income, Freq::Annual) => "incomeStatementHistory",
        (Statement::Income, Freq::Quarterly) => "incomeStatementHistoryQuarterly",
        (Statement::BalanceSheet, Freq::Annual) => "balanceSheetHistory",
        (Statement::BalanceSheet, Freq::Quarterly) => "balanceSheetHistoryQuarterly",
        (Statement::CashFlow, Freq::Annual) => "cashflowStatementHistory",
        (Statement::CashFlow, Freq::Quarterly) => "cashflowStatementHistoryQuarterly",
    }
}

/// The name of a statement.
pub fn statement_name(s: Statement) -> (n: &'static str)
    ensures
        n@ == statement_text(s),
{
    match s {
        Statement::Income => "income",
        Statement::BalanceSheet => "balance-sheet",
        Statement::CashFlow => "cash-flow",
    }
}

/// The name of a frequency.
pub fn freq_name(f: Freq) -> (n: &'static str)
    ensures
        n@ == freq_text(f),
{
    match f {
        Freq::Annual => "annual",
        Freq::Quarterly => "quarterly",
    }
}

/// The periods of a statement in a result: the array under `module`, nested
/// under `module` again or under `history`.
pub open spec fn history_of(result: JsonV, module: Seq<char>) -> Option<Seq<JsonV>> {
    match member(result, module) {
        Some(m) => {
            let h = match member(m, module) {
                Some(x) => Some(x),
                None => member(m, "history"@),
            };
            match h {
                Some(JsonV::Array(items)) => Some(items),
                _ => None,
            }
        },
        None => None,
    }
}

/// The periods of a statement in a result.
pub fn dig_history<'a>(result: &'a Json, module: &str) -> (r: Option<&'a Vec<Json>>)
    ensures
        match r {
            Some(a) => history_of(result@, module@) == Some(items_view(a@)),
            None => history_of(result@, module@) is None,
        },
{
    match result.get_key(module) {
        Some(m) => {
            let h = match m.get_key(module) {
                Some(x) => Some(x),
                None => m.get_key("history"),
            };
            match h {
                Some(x) => x.as_array(),
                None => None,
            }
        },
        None => None,
    }
}

/// The message of the error for a result without the statement.
pub open spec fn history_missing_message(module: Seq<char>, ticker: Seq<char>) -> Seq<char> {
    module + " for "@ + ticker
}

/// The periods of a statement; `DataMissing("<module> for <ticker>")` when
/// the result does not hold them.
pub fn statement_periods<'a>(result: &'a Json, module: &str, ticker: &str) -> (r: Result<
    &'a Vec<Json>,
    YfError,
>)
    ensures
        r matches Ok(a) ==> history_of(result@, module@) == Some(items_view(a@)),
        r is Err <==> history_of(result@, module@) is None,
        r matches Err(e) ==> (e matches YfError::DataMissing(m) && m@ == history_missing_message(
            module@,
            ticker@,
        )),
{
    match dig_history(result, module) {
        Some(a) => Ok(a),
        None => Err(YfError::DataMissing(concat3(module, " for ", ticker))),
    }
}

/// The end date of a period: its `endDate` (else `fiscalDateEnd`) epoch
/// second as a `YYYY-MM-DD` UTC date; failing that, the `fmt` text of its
/// `endDate`.
pub open spec fn period_date_spec(p: JsonV) -> Option<Seq<char>> {
    let end = match get_at(p, seq!["endDate"@]) {
        Some(n) => lenient_i64(n),
        None => None,
    };
    let secs = match end {
        Some(s) => Some(s),
        None => match get_at(p, seq!["fiscalDateEnd"@]) {
            Some(n) => lenient_i64(n),
            None => None,
        },
    };
    let fmt_text = match member(p, "endDate"@) {
        Some(e) => member_str(e, "fmt"@),
        None => None,
    };
    match secs {
        Some(s) => match utc_formatted(s, "%Y-%m-%d"@) {
            Some(d) => Some(d),
            None => fmt_text,
        },
        None => fmt_text,
    }
}

/// The end date of a period.
pub fn period_date(period: &Json) -> (r: Option<String>)
    ensures
        opt_string_view(r) == period_date_spec(period@),
{
    let p1 = ["endDate"];
    let p2 = ["fiscalDateEnd"];
    assert(path_view(p1@) =~= seq!["endDate"@]);
    assert(path_view(p2@) =~= seq!["fiscalDateEnd"@]);
    let secs = match get_i64(period, &p1) {
        Some(s) => Some(s),
        None => get_i64(period, &p2),
    };
    match secs {
        Some(s) => match format_utc(s, "%Y-%m-%d") {
            Some(d) => {
                return Some(d);
            },
            None => {},
        },
        None => {},
    }
    match period.get_key("endDate") {
        Some(e) => crate::json::get_member_string(e, "fmt"),
        None => None,
    }
}

/// A key of a period that is no line item.
pub open spec fn is_date_key(k: Seq<char>) -> bool {
    k == "endDate"@ || k == "fiscalDateEnd"@ || k == "maxAge"@
}

/// A member of a period that is a line item: not a date key, and a number
/// (after `raw` unwrapping) or `null`.
pub open spec fn is_item(k: Seq<char>, v: JsonV) -> bool {
    !is_date_key(k) && (number_at(v, seq![]) is Some || v is Null)
}

/// The members of an object node.
pub open spec fn members_of(p: JsonV) -> Seq<(Seq<char>, JsonV)> {
    match p {
        JsonV::Object(ms) => ms,
        _ => seq![],
    }
}

/// Is `k` a line item of period `p`?
pub open spec fn period_has_item(p: JsonV, k: Seq<char>) -> bool {
    exists|j: int|
        0 <= j < members_of(p).len() && #[trigger] members_of(p)[j].0 == k && is_item(
            k,
            members_of(p)[j].1,
        )
}

/// Is `k` a line item of one of `ps`?
pub open spec fn has_item(ps: Seq<JsonV>, k: Seq<char>) -> bool {
    exists|i: int| 0 <= i < ps.len() && period_has_item(#[trigger] ps[i], k)
}

/// Strictly increasing.
pub open spec fn sorted_strict(s: Seq<Seq<char>>) -> bool {
    forall|i: int, j: int| 0 <= i < j < s.len() ==> chars_lt(#[trigger] s[i], #[trigger] s[j])
}

/// The value of a line item in a period: the number of its member (after
/// `raw` unwrapping), `None` for `null` or absence.
pub open spec fn period_cell(p: JsonV, item: Seq<char>) -> Option<JsonNumber> {
    match member(p, item) {
        Some(v) => number_at(v, seq![]),
        None => None,
    }
}

/// The periods kept in a statement: those with a non-empty end date.
pub open spec fn kept_periods(ps: Seq<JsonV>) -> Seq<JsonV>
    decreases ps.len(),
{
    if ps.len() == 0 {
        seq![]
    } else {
        let rest = kept_periods(ps.drop_last());
        match period_date_spec(ps.last()) {
            Some(d) => if d.len() > 0 {
                rest.push(ps.last())
            } else {
                rest
            },
            None => rest,
        }
    }
}

/// A statement as a table of line items by period. `values[i][p]` is the
/// value of line item `items[i]` in the period ending `dates[p]`.
#[derive(Debug, Clone)]
pub struct StatementTable {
    pub statement: &'static str,
    pub freq: &'static str,
    /// Period end dates, ascending (periods with the same date in the order
    /// sent).
    pub dates: Vec<String>,
    /// Line-item names, sorted, each once.
    pub items: Vec<String>,
    pub values: Vec<Vec<Option<JsonNumber>>>,
}

/// Strings as character sequences.
pub open spec fn strings_view(v: Seq<String>) -> Seq<Seq<char>> {
    v.map_values(|x: String| x@)
}

fn insert_sorted(items: &mut Vec<String>, x: &str)
    requires
        sorted_strict(strings_view(old(items)@)),
    ensures
        sorted_strict(strings_view(final(items)@)),
        forall|k: Seq<char>|
            strings_view(final(items)@).contains(k) <==> (strings_view(old(items)@).contains(k)
                || k == x@),
{
    let ghost s = strings_view(items@);
    let xc = chars_vec(x);
    let mut i: usize = 0;
    while i < items.len()
        invariant
            i <= items@.len(),
            s == strings_view(items@),
            xc@ == x@,
            forall|j: int| 0 <= j < i ==> chars_lt(#[trigger] s[j], x@),
        ensures
            i <= items@.len(),
            s == strings_view(items@),
            forall|j: int| 0 <= j < i ==> chars_lt(#[trigger] s[j], x@),
            i < items@.len() ==> !chars_lt(s[i as int], x@),
        decreases items@.len() - i,
    {
        let ic = chars_vec(items[i].as_str());
        assert(ic@ == s[i as int]);
        if !chars_less(ic.as_slice(), xc.as_slice()) {
            break;
        }
        i = i + 1;
    }
    if i < items.len() && str_eq(items[i].as_str(), x) {
        assert(s[i as int] == x@);
        assert(s.contains(x@));
        return;
    }
    proof {
        if i < s.len() {
            lemma_chars_lt_total(s[i as int], x@);
            assert forall|j: int| i <= j < s.len() implies chars_lt(x@, #[trigger] s[j]) by {
                if j > i {
                    lemma_chars_lt_trans(x@, s[i as int], s[j]);
                }
            }
        }
    }
    items.insert(i, x.to_owned());
    proof {
        let t = strings_view(items@);
        assert(t =~= s.insert(i as int, x@));
        assert forall|a: int, b: int| 0 <= a < b < t.len() implies chars_lt(
            #[trigger] t[a],
            #[trigger] t[b],
        ) by {
            if b < i {
            } else if a < i && b == i {
            } else if a < i && b > i {
                assert(t[b] == s[b - 1]);
            } else if a == i {
                assert(t[b] == s[b - 1]);
            } else {
                assert(t[a] == s[a - 1] && t[b] == s[b - 1]);
            }
        }
        assert forall|k: Seq<char>| t.contains(k) <==> (s.contains(k) || k == x@) by {
            if t.contains(k) {
                let w = choose|w: int| 0 <= w < t.len() && t[w] == k;
                if w < i {
                    assert(s[w] == k);
                } else if w > i {
                    assert(s[w - 1] == k);
                }
            }
            if s.contains(k) {
                let w = choose|w: int| 0 <= w < s.len() && s[w] == k;
                if w < i {
                    assert(t[w] == k);
                } else {
                    assert(t[w + 1] == k);
                }
            }
            if k == x@ {
                assert(t[i as int] == k);
            }
        }
    }
}

fn is_date_key_str(k: &str) -> (b: bool)
    ensures
        b == is_date_key(k@),
{
    str_eq(k, "endDate") || str_eq(k, "fiscalDateEnd") || str_eq(k, "maxAge")
}

fn add_period_items(items: &mut Vec<String>, p: &Json)
    requires
        sorted_strict(strings_view(old(items)@)),
    ensures
        sorted_strict(strings_view(final(items)@)),
        forall|k: Seq<char>|
            strings_view(final(items)@).contains(k) <==> (strings_view(old(items)@).contains(k)
                || period_has_item(p@, k)),
{
    match p.as_object() {
        Some(ms) => {
            let ghost mv = members_view(ms@);
            proof {
                lemma_members_view(ms@);
            }
            let mut j: usize = 0;
            while j < ms.len()
                invariant
                    j <= ms@.len(),
                    mv == members_view(ms@),
                    mv == members_of(p@),
                    mv.len() == ms@.len(),
                    forall|w: int| 0 <= w < ms@.len() ==> #[trigger] mv[w] == (ms@[w].0@, ms@[w].1@),
                    sorted_strict(strings_view(items@)),
                    forall|k: Seq<char>|
                        strings_view(items@).contains(k) <==> (strings_view(old(items)@).contains(k)
                            || exists|w: int|
                            0 <= w < j && #[trigger] mv[w].0 == k && is_item(k, mv[w].1)),
                decreases ms@.len() - j,
            {
                let k = &ms[j].0;
                let v = &ms[j].1;
                let empty: [&str; 0] = [];
                assert(path_view(empty@) =~= seq![]);
                let item = !is_date_key_str(k.as_str()) && (get_number(v, &empty).is_some()
                    || v.is_null());
                assert(item == is_item(mv[j as int].0, mv[j as int].1));
                let ghost before = strings_view(items@);
                if item {
                    insert_sorted(items, k.as_str());
                }
                proof {
                    assert forall|kk: Seq<char>|
                        strings_view(items@).contains(kk) <==> (strings_view(old(items)@).contains(
                            kk,
                        ) || exists|w: int|
                            0 <= w < j + 1 && #[trigger] mv[w].0 == kk && is_item(kk, mv[w].1)) by {
                        if exists|w: int| 0 <= w < j + 1 && #[trigger] mv[w].0 == kk && is_item(kk, mv[w].1) {
                            let w = choose|w: int| 0 <= w < j + 1 && #[trigger] mv[w].0 == kk && is_item(kk, mv[w].1);
                            if w < j {
                                assert(before.contains(kk) || strings_view(old(items)@).contains(kk));
                            }
                        }
                        if strings_view(items@).contains(kk) && !before.contains(kk) {
                            assert(kk == mv[j as int].0);
                        }
                    }
                }
                j = j + 1;
            }
        },
        None => {
            assert(members_of(p@) =~= seq![]);
        },
    }
}

/// The end date of a period (empty when it has none).
pub open spec fn date_key(p: JsonV) -> Seq<char> {
    match period_date_spec(p) {
        Some(d) => d,
        None => seq![],
    }
}

/// `a` comes no later than `b` in the order of date strings.
pub open spec fn date_le(a: Seq<char>, b: Seq<char>) -> bool {
    !chars_lt(b, a)
}

/// `p` inserted into `s` after every period whose date is not later than
/// its own.
pub open spec fn insert_period(s: Seq<JsonV>, p: JsonV) -> Seq<JsonV>
    decreases s.len(),
{
    if s.len() == 0 {
        seq![p]
    } else if date_le(date_key(s.last()), date_key(p)) {
        s.push(p)
    } else {
        insert_period(s.drop_last(), p).push(s.last())
    }
}

/// Periods sorted by end date, ascending; periods with the same date keep
/// their order.
pub open spec fn sort_periods(s: Seq<JsonV>) -> Seq<JsonV>
    decreases s.len(),
{
    if s.len() == 0 {
        seq![]
    } else {
        insert_period(sort_periods(s.drop_last()), s.last())
    }
}

/// Periods in ascending date order.
pub open spec fn dates_ascending(s: Seq<JsonV>) -> bool {
    forall|i: int, j: int| 0 <= i <= j < s.len() ==> date_le(date_key(s[i]), date_key(s[j]))
}

/// The periods of a statement: those with a non-empty end date, sorted by
/// end date ascending.
pub open spec fn statement_periods_spec(ps: Seq<JsonV>) -> Seq<JsonV> {
    sort_periods(kept_periods(ps))
}

proof fn lemma_date_le_trans(a: Seq<char>, b: Seq<char>, c: Seq<char>)
    requires
        date_le(a, b),
        date_le(b, c),
    ensures
        date_le(a, c),
{
    if chars_lt(c, a) {
        lemma_chars_lt_total(a, b);
        if chars_lt(a, b) {
            lemma_chars_lt_trans(c, a, b);
        }
    }
}

proof fn lemma_lt_le(a: Seq<char>, b: Seq<char>)
    requires
        chars_lt(a, b),
    ensures
        date_le(a, b),
{
    if chars_lt(b, a) {
        lemma_chars_lt_trans(a, b, a);
        lemma_chars_lt_irreflexive(a);
    }
}

proof fn lemma_insert_period_split(s: Seq<JsonV>, p: JsonV, k: int)
    requires
        0 <= k <= s.len(),
        forall|j: int| k <= j < s.len() ==> chars_lt(date_key(p), #[trigger] date_key(s[j])),
        k == 0 || date_le(date_key(s[k - 1]), date_key(p)),
    ensures
        insert_period(s, p) == s.take(k).push(p) + s.skip(k),
    decreases s.len(),
{
    if s.len() == 0 {
        assert(s.take(k).push(p) + s.skip(k) =~= seq![p]);
    } else if k == s.len() {
        assert(s.take(k) =~= s);
        assert(s.skip(k) =~= Seq::<JsonV>::empty());
        assert(s.take(k).push(p) + s.skip(k) =~= s.push(p));
    } else {
        assert(chars_lt(date_key(p), date_key(s[s.len() - 1])));
        assert(!date_le(date_key(s.last()), date_key(p)));
        lemma_insert_period_split(s.drop_last(), p, k);
        assert(s.drop_last().take(k) =~= s.take(k));
        assert((s.take(k).push(p) + s.drop_last().skip(k)).push(s.last()) =~= s.take(k).push(p)
            + s.skip(k));
    }
}

proof fn lemma_insert_period_ordered(s: Seq<JsonV>, p: JsonV)
    requires
        dates_ascending(s),
    ensures
        dates_ascending(insert_period(s, p)),
        insert_period(s, p).len() == s.len() + 1,
        insert_period(s, p).to_multiset() =~= s.to_multiset().insert(p),
    decreases s.len(),
{
    broadcast use vstd::seq_lib::group_to_multiset_ensures;
    broadcast use vstd::multiset::group_multiset_axioms;

    if s.len() == 0 {
        assert(insert_period(s, p) =~= s.push(p));
        lemma_chars_lt_irreflexive(date_key(p));
    } else if date_le(date_key(s.last()), date_key(p)) {
        assert(insert_period(s, p) == s.push(p));
        assert forall|i: int, j: int| 0 <= i <= j < s.push(p).len() implies date_le(
            date_key(s.push(p)[i]),
            date_key(s.push(p)[j]),
        ) by {
            if j < s.len() {
            } else if i < s.len() {
                lemma_date_le_trans(date_key(s[i]), date_key(s[s.len() - 1]), date_key(p));
            } else {
                lemma_chars_lt_irreflexive(date_key(p));
            }
        }
    } else {
        let t = s.drop_last();
        assert(s =~= t.push(s.last()));
        assert forall|i: int, j: int| 0 <= i <= j < t.len() implies date_le(
            date_key(t[i]),
            date_key(t[j]),
        ) by {
            assert(t[i] == s[i] && t[j] == s[j]);
        }
        lemma_insert_period_ordered(t, p);
        let u = insert_period(t, p);
        assert forall|i: int| 0 <= i < u.len() implies date_le(
            #[trigger] date_key(u[i]),
            date_key(s.last()),
        ) by {
            assert(u.contains(u[i]));
            assert(u.to_multiset().count(u[i]) > 0);
            if u[i] != p {
                assert(t.to_multiset().count(u[i]) > 0);
                assert(t.contains(u[i]));
                let k = choose|k: int| 0 <= k < t.len() && t[k] == u[i];
                assert(s[k] == t[k]);
                assert(date_le(date_key(s[k]), date_key(s[s.len() - 1])));
            } else {
                lemma_chars_lt_total(date_key(s.last()), date_key(p));
                lemma_lt_le(date_key(p), date_key(s.last()));
            }
        }
        assert(insert_period(s, p) == u.push(s.last()));
        assert forall|i: int, j: int| 0 <= i <= j < u.push(s.last()).len() implies date_le(
            date_key(u.push(s.last())[i]),
            date_key(u.push(s.last())[j]),
        ) by {
            if j < u.len() {
            } else if i < u.len() {
                assert(date_le(date_key(u[i]), date_key(s.last())));
            } else {
                lemma_chars_lt_irreflexive(date_key(s.last()));
            }
        }
    }
}

/// The periods of a statement are in ascending date order and are exactly
/// the periods with an end date.
pub proof fn lemma_sort_periods(s: Seq<JsonV>)
    ensures
        dates_ascending(sort_periods(s)),
        sort_periods(s).len() == s.len(),
        sort_periods(s).to_multiset() =~= s.to_multiset(),
    decreases s.len(),
{
    broadcast use vstd::seq_lib::group_to_multiset_ensures;
    broadcast use vstd::multiset::group_multiset_axioms;

    if s.len() == 0 {
        assert(s.to_multiset() =~= Multiset::<JsonV>::empty());
        assert(sort_periods(s).to_multiset() =~= Multiset::<JsonV>::empty());
    } else {
        lemma_sort_periods(s.drop_last());
        lemma_insert_period_ordered(sort_periods(s.drop_last()), s.last());
        assert(s =~= s.drop_last().push(s.last()));
    }
}

/// Builds the table of a statement from its periods: the periods with a
/// non-empty end date, sorted by end date ascending (periods with the same
/// date in the order sent); every line item they hold, sorted; the value of
/// each line item in each period, aligned with the dates.
pub fn build_statement(periods: &Vec<Json>, statement: Statement, freq: Freq) -> (t:
    StatementTable)
    ensures
        t.statement@ == statement_text(statement),
        t.freq@ == freq_text(freq),
        ({
            let ks = statement_periods_spec(items_view(periods@));
            &&& dates_ascending(ks)
            &&& ks.to_multiset() =~= kept_periods(items_view(periods@)).to_multiset()
            &&& forall|i: int, j: int|
                0 <= i <= j < t.dates@.len() ==> date_le(#[trigger] t.dates@[i]@, #[trigger] t.dates@[j]@)
            &&& t.dates@.len() == ks.len()
            &&& forall|q: int|
                0 <= q < ks.len() ==> period_date_spec(ks[q]) == Some(#[trigger] t.dates@[q]@)
            &&& sorted_strict(strings_view(t.items@))
            &&& forall|k: Seq<char>| strings_view(t.items@).contains(k) <==> has_item(ks, k)
            &&& t.values@.len() == t.items@.len()
            &&& forall|i: int|
                0 <= i < t.items@.len() ==> (#[trigger] t.values@[i])@ == ks.map_values(
                    |p: JsonV| period_cell(p, t.items@[i]@),
                )
        }),
{
    let ghost ps = items_view(periods@);
    proof {
        lemma_items_view(periods@);
    }
    let mut kept: Vec<usize> = Vec::new();
    let mut dates: Vec<String> = Vec::new();
    let mut n: usize = 0;
    while n < periods.len()
        invariant
            n <= periods@.len(),
            ps == items_view(periods@),
            ps.len() == periods@.len(),
            forall|w: int| 0 <= w < periods@.len() ==> #[trigger] ps[w] == periods@[w]@,
            kept@.len() == dates@.len(),
            forall|q: int| 0 <= q < kept@.len() ==> #[trigger] kept@[q] < periods@.len(),
            kept@.map_values(|w: usize| ps[w as int]) == sort_periods(
                kept_periods(ps.take(n as int)),
            ),
            dates_ascending(kept@.map_values(|w: usize| ps[w as int])),
            forall|q: int|
                0 <= q < kept@.len() ==> period_date_spec(ps[kept@[q] as int]) == Some(
                    #[trigger] dates@[q]@,
                ),
        decreases periods@.len() - n,
    {
        assert(ps.take(n + 1).drop_last() =~= ps.take(n as int));
        assert(ps.take(n + 1).last() == periods@[n as int]@);
        match period_date(&periods[n]) {
            Some(d) => {
                if !str_eq(d.as_str(), "") {
                    proof {
                        reveal_strlit("");
                        if d@.len() == 0 {
                            assert(d@ =~= ""@);
                        }
                    }
                    let ghost cur = kept@.map_values(|w: usize| ps[w as int]);
                    let ghost old_kept = kept@;
                    let ghost old_dates = dates@;
                    let ghost p = ps[n as int];
                    assert(date_key(p) == d@);
                    let dc = chars_vec(d.as_str());
                    let mut k: usize = kept.len();
                    loop
                        invariant
                            k <= kept@.len(),
                            kept@ == old_kept,
                            dates@ == old_dates,
                            dc@ == d@,
                            kept@.len() == dates@.len(),
                            cur == kept@.map_values(|w: usize| ps[w as int]),
                            forall|q: int|
                                0 <= q < kept@.len() ==> period_date_spec(ps[kept@[q] as int])
                                    == Some(#[trigger] dates@[q]@),
                            forall|j: int|
                                k <= j < cur.len() ==> chars_lt(d@, #[trigger] date_key(cur[j])),
                        ensures
                            k <= kept@.len(),
                            forall|j: int|
                                k <= j < cur.len() ==> chars_lt(d@, #[trigger] date_key(cur[j])),
                            k == 0 || !chars_lt(d@, date_key(cur[k - 1])),
                        decreases k,
                    {
                        if k == 0 {
                            break;
                        }
                        let prev = chars_vec(dates[k - 1].as_str());
                        assert(date_key(cur[k - 1]) == dates@[k - 1]@);
                        if !chars_less(dc.as_slice(), prev.as_slice()) {
                            break;
                        }
                        k = k - 1;
                    }
                    proof {
                        if k > 0 {
                            lemma_chars_lt_total(d@, date_key(cur[k - 1]));
                            if chars_lt(date_key(cur[k - 1]), d@) {
                                lemma_lt_le(date_key(cur[k - 1]), d@);
                            } else {
                                lemma_chars_lt_irreflexive(d@);
                            }
                        }
                        lemma_insert_period_split(cur, p, k as int);
                        lemma_insert_period_ordered(cur, p);
                        let kp = kept_periods(ps.take(n as int));
                        assert(kept_periods(ps.take(n + 1)) == kp.push(p));
                        assert(kp.push(p).drop_last() =~= kp);
                    }
                    kept.insert(k, n);
                    dates.insert(k, d);
                    proof {
                        assert(kept@.map_values(|w: usize| ps[w as int]) =~= cur.take(k as int).push(
                            p,
                        ) + cur.skip(k as int));
                        assert forall|q: int|
                            0 <= q < kept@.len() implies period_date_spec(ps[kept@[q] as int])
                            == Some(#[trigger] dates@[q]@) by {
                            if q < k {
                                assert(kept@[q] == old_kept[q] && dates@[q] == old_dates[q]);
                            } else if q > k {
                                assert(kept@[q] == old_kept[q - 1] && dates@[q] == old_dates[q
                                    - 1]);
                            }
                        }
                    }
                } else {
                    proof {
                        reveal_strlit("");
                    }
                }
            },
            None => {},
        }
        n = n + 1;
    }
    assert(ps.take(periods@.len() as int) =~= ps);
    let ghost ks = statement_periods_spec(ps);
    proof {
        lemma_sort_periods(kept_periods(ps));
    }
    let mut items: Vec<String> = Vec::new();
    let mut q: usize = 0;
    while q < kept.len()
        invariant
            q <= kept@.len(),
            ps == items_view(periods@),
            forall|w: int| 0 <= w < periods@.len() ==> #[trigger] ps[w] == periods@[w]@,
            forall|r: int| 0 <= r < kept@.len() ==> #[trigger] kept@[r] < periods@.len(),
            kept@.map_values(|w: usize| ps[w as int]) == ks,
            sorted_strict(strings_view(items@)),
            forall|k: Seq<char>| strings_view(items@).contains(k) <==> has_item(ks.take(q as int), k),
        decreases kept@.len() - q,
    {
        let ghost before = strings_view(items@);
        assert(ks[q as int] == periods@[kept@[q as int] as int]@);
        add_period_items(&mut items, &periods[kept[q]]);
        proof {
            assert forall|k: Seq<char>| strings_view(items@).contains(k) <==> has_item(
                ks.take(q + 1),
                k,
            ) by {
                if has_item(ks.take(q + 1), k) {
                    let w = choose|w: int| 0 <= w < q + 1 && period_has_item(#[trigger] ks.take(q + 1)[w], k);
                    if w < q {
                        assert(ks.take(q as int)[w] == ks.take(q + 1)[w]);
                    }
                }
                if has_item(ks.take(q as int), k) {
                    let w = choose|w: int| 0 <= w < q && period_has_item(#[trigger] ks.take(q as int)[w], k);
                    assert(ks.take(q + 1)[w] == ks.take(q as int)[w]);
                }
                if period_has_item(ks[q as int], k) {
                    assert(ks.take(q + 1)[q as int] == ks[q as int]);
                }
            }
        }
        q = q + 1;
    }
    assert(ks.take(kept@.len() as int) =~= ks);
    let mut values: Vec<Vec<Option<JsonNumber>>> = Vec::new();
    let mut i: usize = 0;
    while i < items.len()
        invariant
            i <= items@.len(),
            ps == items_view(periods@),
            forall|w: int| 0 <= w < periods@.len() ==> #[trigger] ps[w] == periods@[w]@,
            forall|r: int| 0 <= r < kept@.len() ==> #[trigger] kept@[r] < periods@.len(),
            kept@.map_values(|w: usize| ps[w as int]) == ks,
            values@.len() == i,
            forall|a: int|
                0 <= a < i ==> (#[trigger] values@[a])@ == ks.map_values(
                    |p: JsonV| period_cell(p, items@[a]@),
                ),
        decreases items@.len() - i,
    {
        let mut row: Vec<Option<JsonNumber>> = Vec::new();
        let mut r: usize = 0;
        while r < kept.len()
            invariant
                r <= kept@.len(),
                i < items@.len(),
                ps == items_view(periods@),
                forall|w: int| 0 <= w < periods@.len() ==> #[trigger] ps[w] == periods@[w]@,
                forall|b: int| 0 <= b < kept@.len() ==> #[trigger] kept@[b] < periods@.len(),
                kept@.map_values(|w: usize| ps[w as int]) == ks,
                row@ == ks.take(r as int).map_values(|p: JsonV| period_cell(p, items@[i as int]@)),
            decreases kept@.len() - r,
        {
            let per = &periods[kept[r]];
            assert(per@ == ks[r as int]);
            let empty: [&str; 0] = [];
            assert(path_view(empty@) =~= seq![]);
            let cell = match per.get_key(items[i].as_str()) {
                Some(v) => get_number(v, &empty),
                None => None,
            };
            row.push(cell);
            r = r + 1;
            assert(ks.take(r as int).map_values(|p: JsonV| period_cell(p, items@[i as int]@))
                =~= ks.take(r - 1).map_values(|p: JsonV| period_cell(p, items@[i as int]@)).push(
                period_cell(ks[r - 1], items@[i as int]@),
            ));
        }
        assert(ks.take(kept@.len() as int) =~= ks);
        values.push(row);
        i = i + 1;
    }
    proof {
        assert forall|q2: int| 0 <= q2 < ks.len() implies period_date_spec(ks[q2]) == Some(
            #[trigger] dates@[q2]@,
        ) by {
            assert(ks[q2] == ps[kept@[q2] as int]);
        }
        assert forall|i2: int, j2: int| 0 <= i2 <= j2 < dates@.len() implies date_le(
            #[trigger] dates@[i2]@,
            #[trigger] dates@[j2]@,
        ) by {
            assert(ks[i2] == ps[kept@[i2] as int]);
            assert(ks[j2] == ps[kept@[j2] as int]);
            assert(date_key(ks[i2]) == dates@[i2]@);
            assert(date_key(ks[j2]) == dates@[j2]@);
        }
    }
    StatementTable {
        statement: statement_name(statement),
        freq: freq_name(freq),
        dates,
        items,
        values,
    }
}

/// The last position of `x` in `s`.
pub open spec fn last_position(s: Seq<Seq<char>>, x: Seq<char>) -> Option<int>
    decreases s.len(),
{
    if s.len() == 0 {
        None
    } else if s.last() == x {
        Some(s.len() - 1)
    } else {
        last_position(s.drop_last(), x)
    }
}

/// The first position of `x` in `s`.
pub open spec fn first_position(s: Seq<Seq<char>>, x: Seq<char>) -> Option<int>
    decreases s.len(),
{
    if s.len() == 0 {
        None
    } else if s[0] == x {
        Some(0)
    } else {
        match first_position(s.drop_first(), x) {
            Some(i) => Some(i + 1),
            None => None,
        }
    }
}

/// The value of a line item at a date: that of the last period with that
/// date.
pub open spec fn statement_cell(t: StatementTable, item: Seq<char>, date: Seq<char>) -> Option<
    JsonNumber,
> {
    match (first_position(strings_view(t.items@), item), last_position(
        strings_view(t.dates@),
        date,
    )) {
        (Some(i), Some(d)) => if i < t.values@.len() && d < t.values@[i]@.len() {
            t.values@[i]@[d]
        } else {
            None
        },
        _ => None,
    }
}

fn find_first(s: &Vec<String>, x: &str) -> (r: Option<usize>)
    ensures
        match r {
            Some(i) => first_position(strings_view(s@), x@) == Some(i as int),
            None => first_position(strings_view(s@), x@) is None,
        },
{
    let mut i: usize = 0;
    assert(strings_view(s@).skip(0) =~= strings_view(s@));
    while i < s.len()
        invariant
            i <= s@.len(),
            first_position(strings_view(s@), x@) == match first_position(
                strings_view(s@).skip(i as int),
                x@,
            ) {
                Some(j) => Some(j + i),
                None => None,
            },
        decreases s@.len() - i,
    {
        let ghost rest = strings_view(s@).skip(i as int);
        assert(rest[0] == s@[i as int]@);
        assert(rest.drop_first() =~= strings_view(s@).skip(i + 1));
        if str_eq(s[i].as_str(), x) {
            return Some(i);
        }
        i = i + 1;
    }
    None
}

fn find_last(s: &Vec<String>, x: &str) -> (r: Option<usize>)
    ensures
        match r {
            Some(i) => last_position(strings_view(s@), x@) == Some(i as int),
            None => last_position(strings_view(s@), x@) is None,
        },
{
    let mut i: usize = s.len();
    assert(strings_view(s@).take(s@.len() as int) =~= strings_view(s@));
    while i > 0
        invariant
            i <= s@.len(),
            last_position(strings_view(s@), x@) == last_position(
                strings_view(s@).take(i as int),
                x@,
            ),
        decreases i,
    {
        let ghost pre = strings_view(s@).take(i as int);
        assert(pre.last() == s@[i - 1]@);
        assert(pre.drop_last() =~= strings_view(s@).take(i - 1));
        if str_eq(s[i - 1].as_str(), x) {
            return Some(i - 1);
        }
        i = i - 1;
    }
    None
}

impl StatementTable {
    /// The value of a line item at a date.
    pub fn get(&self, item: &str, date: &str) -> (r: Option<JsonNumber>)
        ensures
            r == statement_cell(*self, item@, date@),
    {
        match (find_first(&self.items, item), find_last(&self.dates, date)) {
            (Some(i), Some(d)) => {
                if i < self.values.len() && d < self.values[i].len() {
                    match &self.values[i][d] {
                        Some(n) => Some(n.clone()),
                        None => None,
                    }
                } else {
                    None
                }
            },
            _ => None,
        }
    }

    /// The values of a line item at each date, in date order.
    pub fn series(&self, item: &str) -> (r: Vec<Option<JsonNumber>>)
        ensures
            r@.len() == self.dates@.len(),
            forall|d: int|
                0 <= d < self.dates@.len() ==> #[trigger] r@[d] == statement_cell(
                    *self,
                    item@,
                    self.dates@[d]@,
                ),
    {
        let mut out: Vec<Option<JsonNumber>> = Vec::new();
        let mut d: usize = 0;
        while d < self.dates.len()
            invariant
                d <= self.dates@.len(),
                out@.len() == d,
                forall|e: int|
                    0 <= e < d ==> #[trigger] out@[e] == statement_cell(*self, item@, self.dates@[e]@),
            decreases self.dates@.len() - d,
        {
            out.push(self.get(item, self.dates[d].as_str()));
            d = d + 1;
        }
        out
    }
}

} // verus!
