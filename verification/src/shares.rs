//! The shares-outstanding time series: its request, its default window,
//! and its points in date order.

use vstd::multiset::Multiset;
use vstd::prelude::*;

use crate::http::{pairs_view, QUERY2};
use crate::json::{first_result, int_of, items_view, member, yf_result_first, Json, JsonNumber, JsonV};
use crate::text::{concat2, i64_decimal_string, signed_decimal};

verus! {

/// How far back the series goes by default: 548 days, in seconds.
pub const SHARES_WINDOW_SECS: i64 = 47347200;

/// The URL of a shares-outstanding request.
pub fn shares_url(ticker: &str) -> (u: String)
    ensures
        u@ == QUERY2@ + "/ws/fundamentals-timeseries/v1/finance/timeseries/"@ + ticker@,
{
    let head = concat2(QUERY2, "/ws/fundamentals-timeseries/v1/finance/timeseries/");
    concat2(head.as_str(), ticker)
}

/// The default start of the window that ends at `end`: 548 days earlier.
pub fn shares_window_start(end: i64) -> (s: i64)
    requires
        end >= i64::MIN + SHARES_WINDOW_SECS,
    ensures
        s == end - SHARES_WINDOW_SECS,
{
    end - SHARES_WINDOW_SECS
}

/// The query parameters of a shares-outstanding request for the window
/// `[start, end]` (epoch seconds).
pub fn shares_params(ticker: &str, start: i64, end: i64) -> (p: Vec<(String, String)>)
    ensures
        pairs_view(p@) == seq![
            ("symbol"@, ticker@),
            ("period1"@, signed_decimal(start as int)),
            ("period2"@, signed_decimal(end as int)),
        ],
{
    let p = vec![
        ("symbol".to_owned(), ticker.to_owned()),
        ("period1".to_owned(), i64_decimal_string(start)),
        ("period2".to_owned(), i64_decimal_string(end)),
    ];
    assert(pairs_view(p@) =~= seq![
        ("symbol"@, ticker@),
        ("period1"@, signed_decimal(start as int)),
        ("period2"@, signed_decimal(end as int)),
    ]);
    p
}

/// A point of the series: an integer `timestamp` and a numeric `value`.
pub open spec fn point_of(v: JsonV) -> Option<(i64, JsonNumber)> {
    match (member(v, "timestamp"@), member(v, "value"@)) {
        (Some(t), Some(JsonV::Number(n))) => match int_of(t) {
            Some(ts) => Some((ts, n)),
            None => None,
        },
        _ => None,
    }
}

/// The points among `items`, in order; other items are skipped.
pub open spec fn points_of(items: Seq<JsonV>) -> Seq<(i64, JsonNumber)>
    decreases items.len(),
{
    if items.len() == 0 {
        seq![]
    } else {
        let rest = points_of(items.drop_last());
        match point_of(items.last()) {
            Some(p) => rest.push(p),
            None => rest,
        }
    }
}

/// The `shares_out` items of a series reply, none when absent.
pub open spec fn series_items(v: JsonV) -> Seq<JsonV> {
    match first_result(v, "timeseries"@) {
        Some(r) => match member(r, "shares_out"@) {
            Some(JsonV::Array(items)) => items,
            _ => seq![],
        },
        None => seq![],
    }
}

/// `p` inserted into `s` after every point of `s` that is not later than
/// it.
pub open spec fn insert_point(s: Seq<(i64, JsonNumber)>, p: (i64, JsonNumber)) -> Seq<
    (i64, JsonNumber),
>
    decreases s.len(),
{
    if s.len() == 0 {
        seq![p]
    } else if s.last().0 <= p.0 {
        s.push(p)
    } else {
        insert_point(s.drop_last(), p).push(s.last())
    }
}

/// The points sorted by time; points at the same time keep their order.
pub open spec fn sort_points(s: Seq<(i64, JsonNumber)>) -> Seq<(i64, JsonNumber)>
    decreases s.len(),
{
    if s.len() == 0 {
        seq![]
    } else {
        insert_point(sort_points(s.drop_last()), s.last())
    }
}

/// Points in non-decreasing time order.
pub open spec fn time_ordered(s: Seq<(i64, JsonNumber)>) -> bool {
    forall|i: int, j: int| 0 <= i <= j < s.len() ==> s[i].0 <= s[j].0
}

/// The series of a reply: its points in time order (points at the same
/// time in the order sent).
pub open spec fn shares_series_spec(v: JsonV) -> Seq<(i64, JsonNumber)> {
    sort_points(points_of(series_items(v)))
}

/// The point an item holds, if any.
fn point_from(item: &Json) -> (r: Option<(i64, JsonNumber)>)
    ensures
        r == point_of(item@),
{
    let ts = match item.get_key("timestamp") {
        Some(t) => t.as_i64(),
        None => None,
    };
    match (ts, item.get_key("value")) {
        (Some(t), Some(Json::Number(n))) => Some((t, n.clone())),
        _ => {
            proof {
                match (member(item@, "timestamp"@), member(item@, "value"@)) {
                    (Some(t), Some(JsonV::Number(n))) => {
                        assert(ts == int_of(t));
                    },
                    _ => {},
                }
            }
            None
        },
    }
}

/// Inserting into a sorted sequence by moving the new point left past the
/// later ones: the exec loop's view of [`insert_point`].
proof fn lemma_insert_split(s: Seq<(i64, JsonNumber)>, p: (i64, JsonNumber), k: int)
    requires
        0 <= k <= s.len(),
        forall|j: int| k <= j < s.len() ==> #[trigger] s[j].0 > p.0,
        k == 0 || s[k - 1].0 <= p.0,
    ensures
        insert_point(s, p) == s.take(k).push(p) + s.skip(k),
    decreases s.len(),
{
    if s.len() == 0 {
        assert(s.take(k).push(p) + s.skip(k) =~= seq![p]);
    } else if k == s.len() {
        assert(s.take(k) =~= s);
        assert(s.skip(k) =~= Seq::<(i64, JsonNumber)>::empty());
        assert(s.take(k).push(p) + s.skip(k) =~= s.push(p));
    } else {
        assert(s.last().0 > p.0);
        lemma_insert_split(s.drop_last(), p, k);
        assert(s.drop_last().take(k) =~= s.take(k));
        assert((s.take(k).push(p) + s.drop_last().skip(k)).push(s.last()) =~= s.take(k).push(p)
            + s.skip(k));
    }
}

/// Inserting keeps a sequence in time order, and adds just the point.
proof fn lemma_insert_ordered(s: Seq<(i64, JsonNumber)>, p: (i64, JsonNumber))
    requires
        time_ordered(s),
    ensures
        time_ordered(insert_point(s, p)),
        insert_point(s, p).len() == s.len() + 1,
        insert_point(s, p).to_multiset() =~= s.to_multiset().insert(p),
    decreases s.len(),
{
    broadcast use vstd::seq_lib::group_to_multiset_ensures;
    broadcast use vstd::multiset::group_multiset_axioms;

    if s.len() == 0 {
        assert(insert_point(s, p) =~= s.push(p));
    } else if s.last().0 <= p.0 {
        assert(insert_point(s, p) == s.push(p));
        assert forall|i: int, j: int| 0 <= i <= j < s.push(p).len() implies s.push(p)[i].0 <= s.push(
            p,
        )[j].0 by {
            if j < s.len() {
            } else {
                assert(s[i].0 <= s[s.len() - 1].0 || i == s.len());
            }
        }
    } else {
        let t = s.drop_last();
        assert(s =~= t.push(s.last()));
        assert forall|i: int, j: int| 0 <= i <= j < t.len() implies t[i].0 <= t[j].0 by {
            assert(t[i] == s[i] && t[j] == s[j]);
        }
        lemma_insert_ordered(t, p);
        let u = insert_point(t, p);
        assert forall|i: int| 0 <= i < u.len() implies #[trigger] u[i].0 <= s.last().0 by {
            assert(u.contains(u[i]));
            assert(u.to_multiset().count(u[i]) > 0);
            if u[i] != p {
                assert(t.to_multiset().count(u[i]) > 0);
                assert(t.contains(u[i]));
                let k = choose|k: int| 0 <= k < t.len() && t[k] == u[i];
                assert(s[k] == t[k]);
                assert(s[k].0 <= s[s.len() - 1].0);
            }
        }
        assert(insert_point(s, p) == u.push(s.last()));
        assert forall|i: int, j: int| 0 <= i <= j < u.push(s.last()).len() implies u.push(
            s.last(),
        )[i].0 <= u.push(s.last())[j].0 by {
            if j < u.len() {
            } else if i < u.len() {
                assert(u[i].0 <= s.last().0);
            }
        }
    }
}

/// The points of a series sorted by time are in time order, and are the
/// same points.
pub proof fn lemma_sort_points(s: Seq<(i64, JsonNumber)>)
    ensures
        time_ordered(sort_points(s)),
        sort_points(s).len() == s.len(),
        sort_points(s).to_multiset() =~= s.to_multiset(),
    decreases s.len(),
{
    broadcast use vstd::seq_lib::group_to_multiset_ensures;
    broadcast use vstd::multiset::group_multiset_axioms;

    if s.len() == 0 {
        assert(s.to_multiset() =~= Multiset::<(i64, JsonNumber)>::empty());
        assert(sort_points(s).to_multiset() =~= Multiset::<(i64, JsonNumber)>::empty());
    } else {
        lemma_sort_points(s.drop_last());
        lemma_insert_ordered(sort_points(s.drop_last()), s.last());
        assert(s =~= s.drop_last().push(s.last()));
    }
}

/// The points of a shares-outstanding reply, sorted by time (points at the
/// same time in the order sent); items without an integer `timestamp` and
/// a numeric `value` are skipped.
pub fn shares_series(v: &Json) -> (r: Vec<(i64, JsonNumber)>)
    ensures
        r@ == shares_series_spec(v@),
        time_ordered(r@),
        r@.to_multiset() =~= points_of(series_items(v@)).to_multiset(),
{
    let mut out: Vec<(i64, JsonNumber)> = Vec::new();
    let empty: Vec<Json> = Vec::new();
    let items: &Vec<Json> = match yf_result_first(v, "timeseries") {
        Ok(res) => match res.get_key("shares_out") {
            Some(s) => match s.as_array() {
                Some(a) => a,
                None => &empty,
            },
            None => &empty,
        },
        Err(_) => &empty,
    };
    assert(items_view(items@) == series_items(v@)) by {
        assert(items_view(empty@) =~= seq![]);
    }
    let mut i: usize = 0;
    while i < items.len()
        invariant
            i <= items@.len(),
            out@ == sort_points(points_of(items_view(items@.take(i as int)))),
            time_ordered(out@),
        decreases items@.len() - i,
    {
        proof {
            assert(items@.take(i + 1).drop_last() =~= items@.take(i as int));
            assert(items_view(items@.take(i + 1)).drop_last() =~= items_view(items@.take(i as int)));
            assert(items_view(items@.take(i + 1)).last() == items@[i as int]@);
        }
        match point_from(&items[i]) {
            Some(p) => {
                let ghost before = out@;
                proof {
                    let pts = points_of(items_view(items@.take(i as int)));
                    assert(points_of(items_view(items@.take(i + 1))) == pts.push(p));
                    assert(pts.push(p).drop_last() =~= pts);
                }
                proof {
                    lemma_insert_ordered(before, p);
                }
                // find where p goes: after the last point not later than it
                let mut k: usize = out.len();
                while k > 0 && out[k - 1].0 > p.0
                    invariant
                        k <= out@.len(),
                        out@ == before,
                        forall|j: int| k <= j < out@.len() ==> #[trigger] out@[j].0 > p.0,
                    decreases k,
                {
                    k = k - 1;
                }
                proof {
                    lemma_insert_split(before, p, k as int);
                }
                out.insert(k, p);
                assert(out@ =~= before.take(k as int).push(p) + before.skip(k as int));
            },
            None => {},
        }
        i = i + 1;
    }
    assert(items@.take(items@.len() as int) =~= items@);
    proof {
        lemma_sort_points(points_of(series_items(v@)));
    }
    out
}

} // verus!
