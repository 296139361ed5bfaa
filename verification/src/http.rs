//! The request policy of the shared Yahoo session: host constants, the query
//! a request carries (crumb, locale), the request loop's next step after each
//! attempt, and the reading of the login/entitlement endpoint.
//!
//! The session itself (cookie jar, crumb cache, transport) performs the
//! network calls and hands the results of each attempt to these functions.

pub mod retry;

use std::time::Duration;

use vstd::prelude::*;

use crate::config::Locale;
use crate::error::YfError;
use crate::json::{member, str_of, Json, JsonV};
use retry::{backoff_secs, decide_status, decide_transport, secs_duration, Decision};

verus! {

/// Yahoo query host 1.
pub const QUERY1: &'static str = "https://query1.finance.yahoo.com";

/// Yahoo query host 2.
pub const QUERY2: &'static str = "https://query2.finance.yahoo.com";

/// Yahoo Finance site root.
pub const ROOT: &'static str = "https://finance.yahoo.com";

/// Seconds a fetched crumb stays valid in the cache.
pub const CRUMB_TTL: i64 = 60;

/// The OBI subscriptions endpoint, read for login / entitlement state.
pub const SUBSCRIPTIONS_URL: &'static str =
    "https://query1.finance.yahoo.com/ws/obi-integration/v1/subscriptions";

/// Yahoo host URLs.
pub struct Urls {
    pub query1: &'static str,
    pub query2: &'static str,
    pub root: &'static str,
}

/// Host constants, exposed for module implementations.
pub fn urls() -> (u: Urls)
    ensures
        u.query1@ == QUERY1@,
        u.query2@ == QUERY2@,
        u.root@ == ROOT@,
{
    Urls { query1: QUERY1, query2: QUERY2, root: ROOT }
}

/// Key/value pairs as character sequences.
pub open spec fn pairs_view(s: Seq<(String, String)>) -> Seq<(Seq<char>, Seq<char>)> {
    s.map_values(|p: (String, String)| (p.0@, p.1@))
}

/// Request parameters as character sequences.
pub open spec fn params_view(s: Seq<(&str, String)>) -> Seq<(Seq<char>, Seq<char>)> {
    s.map_values(|p: (&str, String)| (p.0@, p.1@))
}

/// The `crumb` parameter, present when the crumb is not empty.
pub open spec fn crumb_params(crumb: Seq<char>) -> Seq<(Seq<char>, Seq<char>)> {
    if crumb.len() > 0 {
        seq![("crumb"@, crumb)]
    } else {
        seq![]
    }
}

/// The `lang` / `region` parameters, present when the language is not empty.
pub open spec fn locale_params(lang: Seq<char>, region: Seq<char>) -> Seq<(Seq<char>, Seq<char>)> {
    if lang.len() > 0 {
        seq![("lang"@, lang), ("region"@, region)]
    } else {
        seq![]
    }
}

/// Copies request parameters into owned pairs.
fn owned_params(params: &[(&str, String)]) -> (q: Vec<(String, String)>)
    ensures
        pairs_view(q@) == params_view(params@),
{
    let mut q: Vec<(String, String)> = Vec::new();
    let mut i: usize = 0;
    while i < params.len()
        invariant
            i <= params@.len(),
            pairs_view(q@) == params_view(params@.take(i as int)),
        decreases params@.len() - i,
    {
        let k: &str = params[i].0;
        let v: String = params[i].1.clone();
        q.push((k.to_owned(), v));
        i = i + 1;
        assert(params_view(params@.take(i as int)) =~= params_view(params@.take(i - 1)).push(
            (params@[i - 1].0@, params@[i - 1].1@),
        ));
        assert(pairs_view(q@) =~= pairs_view(q@.drop_last()).push((q@.last().0@, q@.last().1@)));
    }
    assert(params@.take(params@.len() as int) =~= params@);
    q
}

/// The query of a crumb-authenticated GET: the caller's parameters, then the
/// crumb (if any), then `lang` and `region` (if the language is set).
pub fn json_request_query(params: &[(&str, String)], crumb: &str, locale: &Locale) -> (q: Vec<
    (String, String),
>)
    ensures
        pairs_view(q@) == params_view(params@) + crumb_params(crumb@) + locale_params(
            locale.lang@,
            locale.region@,
        ),
{
    let mut q = owned_params(params);
    let ghost base = pairs_view(q@);
    if !crumb.is_empty() {
        q.push(("crumb".to_owned(), crumb.to_owned()));
    }
    assert(pairs_view(q@) =~= base + crumb_params(crumb@));
    let ghost with_crumb = pairs_view(q@);
    if !locale.lang.as_str().is_empty() {
        q.push(("lang".to_owned(), locale.lang.clone()));
        q.push(("region".to_owned(), locale.region.clone()));
    }
    assert(pairs_view(q@) =~= with_crumb + locale_params(locale.lang@, locale.region@));
    q
}

/// The query of a POST: the caller's parameters, then the crumb (if any).
pub fn post_request_query(params: &[(&str, String)], crumb: &str) -> (q: Vec<(String, String)>)
    ensures
        pairs_view(q@) == params_view(params@) + crumb_params(crumb@),
{
    let mut q = owned_params(params);
    let ghost base = pairs_view(q@);
    if !crumb.is_empty() {
        q.push(("crumb".to_owned(), crumb.to_owned()));
    }
    assert(pairs_view(q@) =~= base + crumb_params(crumb@));
    q
}

/// The `accept-language` header value: `lang-region`.
pub fn accept_language(locale: &Locale) -> (h: String)
    ensures
        h@ == locale.lang@ + "-"@ + locale.region@,
{
    let mut s = locale.lang.clone();
    s.append("-");
    s.append(locale.region.as_str());
    s
}

/// What one attempt of a request produced.
pub enum Attempt {
    /// The request could not be sent or its reply not read.
    Transport(YfError),
    /// The server answered with `status`; `body` is the reply as text.
    Response { status: u16, body: String },
}

/// What the request loop does after an attempt.
pub enum Step {
    /// The request succeeded; `body` is the reply.
    Done { body: String },
    /// Sleep `backoff`, clear the crumb and consent cookie when `reset_auth`,
    /// and send attempt number `attempt`.
    Retry { attempt: u32, backoff: Duration, reset_auth: bool },
    /// The request failed for good.
    Fail { error: YfError },
}

/// The retry that follows attempt number `attempt`.
pub open spec fn retry_step(s: Step, attempt: u32, reset_auth: bool) -> bool {
    s == Step::Retry {
        attempt: (attempt + 1) as u32,
        backoff: secs_duration(backoff_secs(attempt as nat + 1)),
        reset_auth,
    }
}

/// The step after an attempt answered with `status` and `body`: as
/// [`decide_status`] decides, with the reply body on a terminal status error.
pub open spec fn response_step_ok(
    s: Step,
    status: u16,
    body: String,
    attempt: u32,
    retries: u32,
    retry_401: bool,
) -> bool {
    if 200 <= status <= 299 {
        s == Step::Done { body }
    } else if status == 429 {
        s == Step::Fail { error: YfError::RateLimited }
    } else if status == 401 {
        if retry_401 && attempt < retries {
            retry_step(s, attempt, true)
        } else {
            s matches Step::Fail { error: YfError::Msg(m) } && m@
                == "unauthorized (401) after retries"@
        }
    } else if 500 <= status < 600 {
        if attempt < retries {
            retry_step(s, attempt, false)
        } else {
            s == Step::Fail { error: YfError::Status { status, body } }
        }
    } else {
        s == Step::Fail { error: YfError::Status { status, body } }
    }
}

/// The next step of a request loop after attempt number `attempt` (0-based)
/// produced `outcome`, with `retries` extra attempts permitted; `retry_401`
/// for crumb-authenticated requests.
///
/// A transport error is retried while budget remains, otherwise surfaced. A
/// reply is classified by [`decide_status`]; a terminal status error carries
/// the reply body.
pub fn next_step(attempt: u32, retries: u32, retry_401: bool, outcome: Attempt) -> (s: Step)
    ensures
        match outcome {
            Attempt::Transport(e) => if attempt < retries {
                retry_step(s, attempt, false)
            } else {
                s == Step::Fail { error: e }
            },
            Attempt::Response { status, body } => response_step_ok(
                s,
                status,
                body,
                attempt,
                retries,
                retry_401,
            ),
        },
        s matches Step::Retry { attempt: next, .. } ==> next == attempt + 1 && next <= retries,
{
    match outcome {
        Attempt::Transport(e) => match decide_transport(e, attempt, retries) {
            Decision::Retry { backoff, reset_auth } => Step::Retry {
                attempt: attempt + 1,
                backoff,
                reset_auth,
            },
            Decision::GiveUp { error } => Step::Fail { error },
            Decision::Success => Step::Done { body: String::new() },
        },
        Attempt::Response { status, body } => {
            let d = decide_status(status, attempt, retries, retry_401);
            match d {
                Decision::Success => Step::Done { body },
                Decision::Retry { backoff, reset_auth } => Step::Retry {
                    attempt: attempt + 1,
                    backoff,
                    reset_auth,
                },
                Decision::GiveUp { error } => match error {
                    YfError::Status { status, .. } => Step::Fail {
                        error: YfError::Status { status, body },
                    },
                    other => Step::Fail { error: other },
                },
            }
        },
    }
}

// ---------------------------------------------------------------------------
// Login / entitlement
// ---------------------------------------------------------------------------

/// `result.guid` of a subscriptions reply.
pub open spec fn guid_of(v: JsonV) -> Option<JsonV> {
    match member(v, "result"@) {
        Some(r) => member(r, "guid"@),
        None => None,
    }
}

/// Logged in: the reply carries a non-null `result.guid`.
pub open spec fn logged_in(v: JsonV) -> bool {
    match guid_of(v) {
        Some(g) => !(g is Null),
        None => false,
    }
}

/// Whether the session is logged in, from the outcome of reading the
/// subscriptions endpoint (its status and JSON reply, `null` when the reply
/// was not JSON): a 401 or 403 reply, or a 401/403 status error, means not
/// logged in; any other reply is logged in when it carries a non-null
/// `result.guid`; other errors pass through.
pub fn login_state(outcome: Result<(u16, Json), YfError>) -> (r: Result<bool, YfError>)
    ensures
        match outcome {
            Ok((status, v)) => r == Ok::<bool, YfError>(
                status != 401 && status != 403 && logged_in(v@),
            ),
            Err(YfError::Status { status, body }) => if status == 401 || status == 403 {
                r == Ok::<bool, YfError>(false)
            } else {
                r == Err::<bool, YfError>(YfError::Status { status, body })
            },
            Err(e) => r == Err::<bool, YfError>(e),
        },
{
    match outcome {
        Ok((status, v)) => {
            if status == 401 || status == 403 {
                return Ok(false);
            }
            let logged = match v.get_key("result") {
                Some(res) => match res.get_key("guid") {
                    Some(g) => !g.is_null(),
                    None => false,
                },
                None => false,
            };
            Ok(logged)
        },
        Err(YfError::Status { status, body }) => {
            if status == 401 || status == 403 {
                Ok(false)
            } else {
                Err(YfError::Status { status, body })
            }
        },
        Err(e) => Err(e),
    }
}

/// The `action` of a subscription view is `"ACTIVE"`.
pub open spec fn is_active_view(v: JsonV) -> bool {
    match member(v, "action"@) {
        Some(a) => str_of(a) == Some("ACTIVE"@),
        None => false,
    }
}

/// The first active subscription view.
pub open spec fn first_active(views: Seq<JsonV>) -> Option<JsonV>
    decreases views.len(),
{
    if views.len() == 0 {
        None
    } else if is_active_view(views[0]) {
        Some(views[0])
    } else {
        first_active(views.drop_first())
    }
}

/// The name of a tier number: 6 gold, 5 silver, 3 bronze, anything else premium.
pub open spec fn tier_name(tier: i64) -> Seq<char> {
    if tier == 6 {
        "gold"@
    } else if tier == 5 {
        "silver"@
    } else if tier == 3 {
        "bronze"@
    } else {
        "premium"@
    }
}

/// The integer `tier` of a subscription view, 0 when absent.
pub open spec fn view_tier(a: JsonV) -> i64 {
    match member(a, "tier"@) {
        Some(t) => match crate::json::int_of(t) {
            Some(n) => n,
            None => 0,
        },
        None => 0,
    }
}

/// `"free"` without an active view, else the name of the first active view's tier.
pub open spec fn tier_of_views(views: Seq<JsonV>) -> Seq<char> {
    match first_active(views) {
        None => "free"@,
        Some(a) => tier_name(view_tier(a)),
    }
}

/// The subscription tier named by a subscriptions reply: `None` unless
/// `result` is an object with a `guid` member; `"free"` without an active
/// subscription view; otherwise the name of the first active view's integer
/// `tier` (0 when absent).
pub open spec fn tier_of(v: JsonV) -> Option<Seq<char>> {
    match member(v, "result"@) {
        Some(JsonV::Object(ms)) => if member(JsonV::Object(ms), "guid"@) is None {
            None
        } else {
            let views = match member(JsonV::Object(ms), "subscriptionView"@) {
                Some(JsonV::Array(items)) => items,
                _ => Seq::empty(),
            };
            Some(tier_of_views(views))
        },
        _ => None,
    }
}

fn is_active(v: &Json) -> (r: bool)
    ensures
        r == is_active_view(v@),
{
    match v.get_key("action") {
        Some(a) => match a.as_str() {
            Some(s) => crate::text::str_eq(s, "ACTIVE"),
            None => false,
        },
        None => false,
    }
}

/// The account's subscription tier (`gold`/`silver`/`bronze`/`premium`/
/// `free`) from a subscriptions reply, or `None` when not logged in.
pub fn subscription_tier_of(v: &Json) -> (r: Option<String>)
    ensures
        r matches Some(t) ==> tier_of(v@) == Some(t@),
        r is None <==> tier_of(v@) is None,
{
    let ent = match v.get_key("result") {
        Some(e) => e,
        None => {
            return None;
        },
    };
    let members = match ent.as_object() {
        Some(m) => m,
        None => {
            return None;
        },
    };
    if ent.get_key("guid").is_none() {
        return None;
    }
    let empty: Vec<Json> = Vec::new();
    let views: &Vec<Json> = match ent.get_key("subscriptionView") {
        Some(sv) => match sv.as_array() {
            Some(a) => a,
            None => &empty,
        },
        None => &empty,
    };
    proof {
        crate::json::lemma_items_view(views@);
        crate::json::lemma_items_view(empty@);
    }
    let ghost vv = crate::json::items_view(views@);
    assert(match member(ent@, "subscriptionView"@) {
        Some(JsonV::Array(items)) => items,
        _ => Seq::empty(),
    } =~= vv);
    let mut i: usize = 0;
    assert(vv.skip(0) =~= vv);
    while i < views.len()
        invariant
            i <= views@.len(),
            vv == crate::json::items_view(views@),
            vv.len() == views@.len(),
            forall|j: int| 0 <= j < views@.len() ==> #[trigger] vv[j] == views@[j]@,
            first_active(vv) == first_active(vv.skip(i as int)),
            tier_of(v@) == Some(tier_of_views(vv)),
        decreases views@.len() - i,
    {
        assert(vv.skip(i as int).drop_first() =~= vv.skip(i + 1));
        assert(vv.skip(i as int)[0] == vv[i as int]);
        if is_active(&views[i]) {
            let tier: i64 = match views[i].get_key("tier") {
                Some(t) => match t.as_i64() {
                    Some(n) => n,
                    None => 0,
                },
                None => 0,
            };
            let name = if tier == 6 {
                "gold"
            } else if tier == 5 {
                "silver"
            } else if tier == 3 {
                "bronze"
            } else {
                "premium"
            };
            return Some(name.to_owned());
        }
        i = i + 1;
    }
    Some("free".to_owned())
}

/// The logged-in user's `guid` (a string `result.guid`), or `None`.
pub fn user_of(v: &Json) -> (r: Option<String>)
    ensures
        r matches Some(g) ==> (guid_of(v@) matches Some(n) && str_of(n) == Some(g@)),
        r is None ==> (guid_of(v@) matches Some(n) ==> str_of(n) is None),
{
    match v.get_key("result") {
        Some(res) => match res.get_key("guid") {
            Some(g) => match g.as_str() {
                Some(s) => Some(s.to_owned()),
                None => None,
            },
            None => None,
        },
        None => None,
    }
}

/// The crumb of a crumb reply: its text, trimmed.
pub fn crumb_text(body: &str) -> (c: String)
    ensures
        c@ == crate::text::trim(body@),
{
    crate::text::trim_str(body)
}

/// A crumb is kept (in memory and in the cache) only when it is not empty.
pub fn crumb_cacheable(crumb: &str) -> (b: bool)
    ensures
        b == (crumb@.len() > 0),
{
    !crumb.is_empty()
}

/// The cookie string that sets the Yahoo login cookie `name` to `value`.
pub fn login_cookie(name: &str, value: &str) -> (c: String)
    ensures
        c@ == name@ + "="@ + value@ + "; Domain=finance.yahoo.com; Path=/"@,
{
    let head = crate::text::concat3(name, "=", value);
    crate::text::concat2(head.as_str(), "; Domain=finance.yahoo.com; Path=/")
}

} // verus!
