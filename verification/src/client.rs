//! Bulk download: gathering the per-ticker outcomes of a concurrent history
//! download into one result, leniently or strictly.

use vstd::prelude::*;

use crate::error::{error_message, YfError};
use crate::text::{push_str, string_from_chars};

verus! {

/// Result of a bulk download: the histories fetched, in ticker order, and
/// in lenient mode the `(ticker, message)` of each failure.
pub struct DownloadResult<H> {
    pub histories: Vec<H>,
    pub errors: Vec<(String, String)>,
}

/// The histories among `outcomes`, in order.
pub open spec fn oks<H>(outcomes: Seq<(String, Result<H, YfError>)>) -> Seq<H>
    decreases outcomes.len(),
{
    if outcomes.len() == 0 {
        seq![]
    } else {
        let rest = oks(outcomes.drop_last());
        match outcomes.last().1 {
            Ok(h) => rest.push(h),
            Err(_) => rest,
        }
    }
}

/// The `(ticker, message)` of each failure among `outcomes`, in order.
pub open spec fn failures<H>(outcomes: Seq<(String, Result<H, YfError>)>) -> Seq<
    (Seq<char>, Seq<char>),
>
    decreases outcomes.len(),
{
    if outcomes.len() == 0 {
        seq![]
    } else {
        let rest = failures(outcomes.drop_last());
        match outcomes.last().1 {
            Ok(_) => rest,
            Err(e) => rest.push((outcomes.last().0@, error_message(e))),
        }
    }
}

/// Gather the outcomes of a bulk download, one `(ticker, outcome)` per ticker
/// in request order.
///
/// In lenient mode every history is kept and every failure is recorded as
/// `(ticker, message)`; the result is always `Ok`. In strict mode the first
/// failure aborts the download with a message naming the ticker.
pub fn collect_downloads<H>(outcomes: Vec<(String, Result<H, YfError>)>, lenient: bool) -> (r:
    Result<DownloadResult<H>, YfError>)
    ensures
        lenient ==> (r matches Ok(d) && d.histories@ == oks(outcomes@) && crate::http::pairs_view(
            d.errors@,
        ) == failures(outcomes@)),
        !lenient && failures(outcomes@).len() == 0 ==> (r matches Ok(d) && d.histories@ == oks(
            outcomes@,
        ) && d.errors@.len() == 0),
        !lenient && failures(outcomes@).len() > 0 ==> (r matches Err(YfError::Msg(m)) && m@
            == "download failed for "@ + failures(outcomes@)[0].0 + ": "@ + failures(
            outcomes@,
        )[0].1),
{
    let mut histories: Vec<H> = Vec::new();
    let mut errors: Vec<(String, String)> = Vec::new();
    let ghost all = outcomes@;
    let ghost n = all.len();
    assert(n == outcomes.len());
    let mut pending = outcomes;
    let mut rest: Vec<(String, Result<H, YfError>)> = Vec::new();
    while pending.len() > 0
        invariant
            n == all.len(),
            n <= usize::MAX,
            pending@ == all.take(pending@.len() as int),
            rest@.len() + pending@.len() == n,
            forall|j: int| 0 <= j < rest@.len() ==> #[trigger] rest@[j] == all[n - 1 - j],
        decreases pending@.len(),
    {
        let x = pending.pop().unwrap();
        rest.push(x);
        assert(pending@ =~= all.take(pending@.len() as int));
    }
    let mut i: usize = 0;
    while rest.len() > 0
        invariant
            n == all.len(),
            all == outcomes@,
            n <= usize::MAX,
            rest@.len() + i == n,
            forall|j: int| 0 <= j < rest@.len() ==> #[trigger] rest@[j] == all[n - 1 - j],
            histories@ == oks(all.take(i as int)),
            crate::http::pairs_view(errors@) == failures(all.take(i as int)),
            !lenient ==> failures(all.take(i as int)).len() == 0,
        decreases rest@.len(),
    {
        let (sym, outcome) = rest.pop().unwrap();
        assert(all.take(i + 1).drop_last() =~= all.take(i as int));
        assert(all.take(i + 1).last() == all[i as int]);
        i = i + 1;
        match outcome {
            Ok(h) => {
                histories.push(h);
            },
            Err(e) => {
                let text = e.message();
                if lenient {
                    errors.push((sym, text));
                    assert(crate::http::pairs_view(errors@) =~= crate::http::pairs_view(
                        errors@.drop_last(),
                    ).push((errors@.last().0@, errors@.last().1@)));
                } else {
                    assert(failures(all.take(i as int)) == failures(all.take(i - 1)).push(
                        (sym@, error_message(e)),
                    ));
                    assert(failures(all.take(i as int))[0] == (sym@, error_message(e)));
                    proof {
                        lemma_failures_prefix(all, i as int, n as int);
                        assert(failures(all)[0] == failures(all.take(i as int))[0]);
                    }
                    assert(failures(all).len() > 0);
                    assert(all == outcomes@);
                    let mut m: Vec<char> = Vec::new();
                    push_str(&mut m, "download failed for ");
                    push_str(&mut m, sym.as_str());
                    push_str(&mut m, ": ");
                    push_str(&mut m, text.as_str());
                    return Err(YfError::Msg(string_from_chars(m.as_slice())));
                }
            },
        }
    }
    assert(all.take(n as int) =~= all);
    Ok(DownloadResult { histories, errors })
}

/// The failures of a prefix are a prefix of the failures.
proof fn lemma_failures_prefix<H>(all: Seq<(String, Result<H, YfError>)>, i: int, n: int)
    requires
        0 <= i <= n == all.len(),
    ensures
        failures(all.take(i)).len() <= failures(all).len(),
        forall|j: int|
            0 <= j < failures(all.take(i)).len() ==> #[trigger] failures(all)[j] == failures(
                all.take(i),
            )[j],
    decreases n - i,
{
    if i < n {
        lemma_failures_prefix(all, i + 1, n);
        assert(all.take(i + 1).drop_last() =~= all.take(i));
    } else {
        assert(all.take(i) =~= all);
    }
}

} // verus!
