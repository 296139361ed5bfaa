//! The JSON model of Yahoo Finance responses, and the accessors that read a
//! typed field out of one.
//!
//! Yahoo wraps many numeric/date fields in a `{"raw": x, "fmt": ".."}` object.
//! [`get`] and the typed accessors unwrap `raw` automatically, so a caller
//! reads a field without caring whether Yahoo sent a bare value or a wrapped
//! one; [`get_raw`] returns the node itself.
//!
//! Numbers are held as plain integers: an integral number by its value, a
//! fractional one by its IEEE-754 bit pattern together with the values it
//! truncates to as `i64` and `u64` (which is all the parsers here read of it).

use vstd::prelude::*;

use crate::error::YfError;
use crate::text::{push_str, str_eq, string_from_chars};

verus! {

/// A JSON number.
#[derive(Debug)]
pub enum JsonNumber {
    /// A non-negative integer.
    PosInt(u64),
    /// A negative integer.
    NegInt(i64),
    /// A number with a fraction or exponent: its bit pattern as an `f64`, and
    /// that value converted with `as i64` and `as u64` (saturating).
    Float { bits: u64, as_i64: i64, as_u64: u64 },
}

/// A JSON value. Object members keep their order; a lookup finds the first
/// member with the key.
#[derive(Debug)]
pub enum Json {
    Null,
    Bool(bool),
    Number(JsonNumber),
    Str(String),
    Array(Vec<Json>),
    Object(Vec<(String, Json)>),
}

impl Clone for JsonNumber {
    fn clone(&self) -> (r: Self)
        ensures
            r == *self,
    {
        match self {
            JsonNumber::PosInt(u) => JsonNumber::PosInt(*u),
            JsonNumber::NegInt(i) => JsonNumber::NegInt(*i),
            JsonNumber::Float { bits, as_i64, as_u64 } => JsonNumber::Float {
                bits: *bits,
                as_i64: *as_i64,
                as_u64: *as_u64,
            },
        }
    }
}

/// The mathematical value of a [`Json`]: strings as character sequences,
/// arrays and objects as sequences.
pub enum JsonV {
    Null,
    Bool(bool),
    Number(JsonNumber),
    Str(Seq<char>),
    Array(Seq<JsonV>),
    Object(Seq<(Seq<char>, JsonV)>),
}

/// The value of a JSON node.
pub open spec fn json_view(j: Json) -> JsonV
    decreases j, 0nat,
{
    match j {
        Json::Null => JsonV::Null,
        Json::Bool(b) => JsonV::Bool(b),
        Json::Number(n) => JsonV::Number(n),
        Json::Str(s) => JsonV::Str(s@),
        Json::Array(items) => JsonV::Array(items_view(items@)),
        Json::Object(members) => JsonV::Object(members_view(members@)),
    }
}

/// The values of a sequence of nodes.
pub open spec fn items_view(s: Seq<Json>) -> Seq<JsonV>
    decreases s, 1nat,
{
    if s.len() == 0 {
        seq![]
    } else {
        items_view(s.drop_last()).push(json_view(s.last()))
    }
}

/// The values of a sequence of object members.
pub open spec fn members_view(s: Seq<(String, Json)>) -> Seq<(Seq<char>, JsonV)>
    decreases s, 1nat,
{
    if s.len() == 0 {
        seq![]
    } else {
        members_view(s.drop_last()).push((s.last().0@, json_view(s.last().1)))
    }
}

impl View for Json {
    type V = JsonV;

    open spec fn view(&self) -> JsonV {
        json_view(*self)
    }
}

pub proof fn lemma_items_view(s: Seq<Json>)
    ensures
        items_view(s).len() == s.len(),
        forall|i: int| 0 <= i < s.len() ==> #[trigger] items_view(s)[i] == json_view(s[i]),
    decreases s.len(),
{
    if s.len() > 0 {
        lemma_items_view(s.drop_last());
    }
}

pub proof fn lemma_members_view(s: Seq<(String, Json)>)
    ensures
        members_view(s).len() == s.len(),
        forall|i: int|
            0 <= i < s.len() ==> #[trigger] members_view(s)[i] == (s[i].0@, json_view(s[i].1)),
    decreases s.len(),
{
    if s.len() > 0 {
        lemma_members_view(s.drop_last());
    }
}

impl Clone for Json {
    fn clone(&self) -> (r: Self)
        ensures
            r@ == self@,
        decreases self,
    {
        broadcast use vstd::std_specs::vec::axiom_vec_decreases_to_view;
        broadcast use vstd::seq::axiom_seq_index_decreases;

        match self {
            Json::Null => Json::Null,
            Json::Bool(b) => Json::Bool(*b),
            Json::Number(n) => Json::Number(n.clone()),
            Json::Str(s) => Json::Str(s.clone()),
            Json::Array(items) => {
                let mut out: Vec<Json> = Vec::new();
                let mut i: usize = 0;
                while i < items.len()
                    invariant
                        i <= items@.len(),
                        *self == Json::Array(*items),
                        items_view(out@) == items_view(items@.take(i as int)),
                    decreases items@.len() - i,
                {
                    proof {
                        assert(decreases_to!(*self => (*self)->Array_0));
                        assert(decreases_to!(*items => items@));
                        assert(decreases_to!(items@ => items@[i as int]));
                        assert(decreases_to!(*self => items@[i as int]));
                    }
                    let ghost prev = out@;
                    let c = items[i].clone();
                    out.push(c);
                    i = i + 1;
                    assert(items@.take(i as int).drop_last() =~= items@.take(i - 1));
                    assert(out@.drop_last() =~= prev);
                    assert(items_view(out@) == items_view(prev).push(json_view(c)));
                }
                assert(items@.take(items@.len() as int) =~= items@);
                Json::Array(out)
            },
            Json::Object(members) => {
                let mut out: Vec<(String, Json)> = Vec::new();
                let mut i: usize = 0;
                while i < members.len()
                    invariant
                        i <= members@.len(),
                        *self == Json::Object(*members),
                        members_view(out@) == members_view(members@.take(i as int)),
                    decreases members@.len() - i,
                {
                    proof {
                        assert(decreases_to!(*self => (*self)->Object_0));
                        assert(decreases_to!(*members => members@));
                        assert(decreases_to!(members@ => members@[i as int]));
                        assert(decreases_to!(members@[i as int] => members@[i as int].1));
                        assert(decreases_to!(*self => members@[i as int].1));
                    }
                    let ghost prev = out@;
                    let k = members[i].0.clone();
                    let v = members[i].1.clone();
                    out.push((k, v));
                    i = i + 1;
                    assert(members@.take(i as int).drop_last() =~= members@.take(i - 1));
                    assert(out@.drop_last() =~= prev);
                    assert(members_view(out@) == members_view(prev).push((k@, json_view(v))));
                }
                assert(members@.take(members@.len() as int) =~= members@);
                Json::Object(out)
            },
        }
    }
}

/// The value of the first member named `key`.
pub open spec fn member_of(members: Seq<(Seq<char>, JsonV)>, key: Seq<char>) -> Option<JsonV>
    decreases members.len(),
{
    if members.len() == 0 {
        None
    } else if members[0].0 == key {
        Some(members[0].1)
    } else {
        member_of(members.drop_first(), key)
    }
}

/// `v[key]`: the member `key` of an object; `None` for a missing key or a
/// value that is not an object.
pub open spec fn member(v: JsonV, key: Seq<char>) -> Option<JsonV> {
    match v {
        JsonV::Object(members) => member_of(members, key),
        _ => None,
    }
}

/// The node reached by following `path` from `v`, one member per segment.
pub open spec fn dig(v: JsonV, path: Seq<Seq<char>>) -> Option<JsonV>
    decreases path.len(),
{
    if path.len() == 0 {
        Some(v)
    } else {
        match member(v, path[0]) {
            Some(c) => dig(c, path.drop_first()),
            None => None,
        }
    }
}

/// A node with its `{"raw": ..}` wrapper removed: the member `raw` when the
/// node has one, the node itself otherwise.
pub open spec fn unwrap_raw(v: JsonV) -> JsonV {
    match member(v, "raw"@) {
        Some(r) => r,
        None => v,
    }
}

/// The node at `path`, with its `raw` wrapper removed.
pub open spec fn get_at(v: JsonV, path: Seq<Seq<char>>) -> Option<JsonV> {
    match dig(v, path) {
        Some(c) => Some(unwrap_raw(c)),
        None => None,
    }
}

/// A path of string slices, as character sequences.
pub open spec fn path_view(path: Seq<&str>) -> Seq<Seq<char>> {
    path.map_values(|p: &str| p@)
}

/// The value behind an optional reference.
pub open spec fn deref_opt(r: Option<&Json>) -> Option<JsonV> {
    match r {
        Some(x) => Some(x@),
        None => None,
    }
}

/// The string of a string node.
pub open spec fn str_of(v: JsonV) -> Option<Seq<char>> {
    match v {
        JsonV::Str(s) => Some(s),
        _ => None,
    }
}

/// `as_i64`: an integer that fits in `i64`.
pub open spec fn int_of(v: JsonV) -> Option<i64> {
    match v {
        JsonV::Number(JsonNumber::PosInt(u)) => if u <= i64::MAX {
            Some(u as i64)
        } else {
            None
        },
        JsonV::Number(JsonNumber::NegInt(i)) => Some(i),
        _ => None,
    }
}

/// `as_u64`: a non-negative integer.
pub open spec fn uint_of(v: JsonV) -> Option<u64> {
    match v {
        JsonV::Number(JsonNumber::PosInt(u)) => Some(u),
        _ => None,
    }
}

/// A number as `i64`, falling back to the `as i64` conversion of its `f64`
/// value: integers beyond `i64::MAX` saturate, fractions truncate.
pub open spec fn lenient_i64(v: JsonV) -> Option<i64> {
    match v {
        JsonV::Number(JsonNumber::PosInt(u)) => if u <= i64::MAX {
            Some(u as i64)
        } else {
            Some(i64::MAX)
        },
        JsonV::Number(JsonNumber::NegInt(i)) => Some(i),
        JsonV::Number(JsonNumber::Float { as_i64, .. }) => Some(as_i64),
        _ => None,
    }
}

/// A number as `u64`, falling back to the `as u64` conversion of its `f64`
/// value: negative integers become 0, fractions truncate.
pub open spec fn lenient_u64(v: JsonV) -> Option<u64> {
    match v {
        JsonV::Number(JsonNumber::PosInt(u)) => Some(u),
        JsonV::Number(JsonNumber::NegInt(_)) => Some(0),
        JsonV::Number(JsonNumber::Float { as_u64, .. }) => Some(as_u64),
        _ => None,
    }
}

impl Json {
    /// `self[key]` for an object; `None` otherwise.
    pub fn get_key(&self, key: &str) -> (r: Option<&Json>)
        ensures
            deref_opt(r) == member(self@, key@),
    {
        match self {
            Json::Object(members) => {
                let ghost mv = members_view(members@);
                assert(self@ == JsonV::Object(mv));
                proof {
                    lemma_members_view(members@);
                    assert(mv.skip(0) =~= mv);
                }
                let mut i: usize = 0;
                while i < members.len()
                    invariant
                        i <= members@.len(),
                        mv == members_view(members@),
                        self@ == JsonV::Object(mv),
                        mv.len() == members@.len(),
                        forall|j: int|
                            0 <= j < members@.len() ==> #[trigger] mv[j] == (
                                members@[j].0@,
                                json_view(members@[j].1),
                            ),
                        member_of(mv, key@) == member_of(mv.skip(i as int), key@),
                    decreases members@.len() - i,
                {
                    assert(mv.skip(i as int).drop_first() =~= mv.skip(i + 1));
                    assert(mv.skip(i as int)[0] == mv[i as int]);
                    if str_eq(members[i].0.as_str(), key) {
                        assert(mv[i as int].0 == key@);
                        assert(member_of(mv.skip(i as int), key@) == Some(mv[i as int].1));
                        assert(mv[i as int].1 == members@[i as int].1@);
                        return Some(&members[i].1);
                    }
                    i = i + 1;
                }
                None
            },
            _ => None,
        }
    }

    /// The string of a string node.
    pub fn as_str(&self) -> (r: Option<&str>)
        ensures
            r matches Some(s) ==> str_of(self@) == Some(s@),
            r is None ==> str_of(self@) is None,
    {
        match self {
            Json::Str(s) => Some(s.as_str()),
            _ => None,
        }
    }

    /// The items of an array node.
    pub fn as_array(&self) -> (r: Option<&Vec<Json>>)
        ensures
            r matches Some(a) ==> *self == Json::Array(*a) && self@ == JsonV::Array(
                items_view(a@),
            ),
            r is None ==> !(self@ is Array),
    {
        match self {
            Json::Array(a) => Some(a),
            _ => None,
        }
    }

    /// The members of an object node.
    pub fn as_object(&self) -> (r: Option<&Vec<(String, Json)>>)
        ensures
            r matches Some(m) ==> *self == Json::Object(*m) && self@ == JsonV::Object(
                members_view(m@),
            ),
            r is None ==> !(self@ is Object),
    {
        match self {
            Json::Object(m) => Some(m),
            _ => None,
        }
    }

    /// The value of a boolean node.
    pub fn as_bool(&self) -> (r: Option<bool>)
        ensures
            r matches Some(b) ==> self@ == JsonV::Bool(b),
            r is None ==> !(self@ is Bool),
    {
        match self {
            Json::Bool(b) => Some(*b),
            _ => None,
        }
    }

    /// Is this `null`?
    pub fn is_null(&self) -> (r: bool)
        ensures
            r == (self@ is Null),
    {
        match self {
            Json::Null => true,
            _ => false,
        }
    }

    /// An integer that fits in `i64`.
    pub fn as_i64(&self) -> (r: Option<i64>)
        ensures
            r == int_of(self@),
    {
        match self {
            Json::Number(JsonNumber::PosInt(u)) => {
                if *u <= 0x7fff_ffff_ffff_ffffu64 {
                    Some(*u as i64)
                } else {
                    None
                }
            },
            Json::Number(JsonNumber::NegInt(i)) => Some(*i),
            _ => None,
        }
    }

    /// A non-negative integer.
    pub fn as_u64(&self) -> (r: Option<u64>)
        ensures
            r == uint_of(self@),
    {
        match self {
            Json::Number(JsonNumber::PosInt(u)) => Some(*u),
            _ => None,
        }
    }
}

/// Dig a nested path, tolerating missing nodes, without unwrapping `raw`.
pub fn get_raw<'a>(v: &'a Json, path: &[&str]) -> (r: Option<&'a Json>)
    ensures
        deref_opt(r) == dig(v@, path_view(path@)),
{
    let mut cur: &Json = v;
    let mut i: usize = 0;
    assert(path_view(path@).skip(0) =~= path_view(path@));
    while i < path.len()
        invariant
            i <= path@.len(),
            dig(v@, path_view(path@)) == dig(cur@, path_view(path@).skip(i as int)),
        decreases path@.len() - i,
    {
        let ghost rest = path_view(path@).skip(i as int);
        assert(rest[0] == path@[i as int]@);
        assert(rest.drop_first() =~= path_view(path@).skip(i + 1));
        match cur.get_key(path[i]) {
            Some(next) => {
                cur = next;
            },
            None => {
                return None;
            },
        }
        i = i + 1;
    }
    assert(path_view(path@).skip(path@.len() as int).len() == 0);
    Some(cur)
}

/// Dig a nested path, tolerating missing nodes; at the leaf, unwrap the
/// `{"raw": x, "fmt": ".."}` wrapper. An explicit `raw` segment in the path
/// still lands on the raw value.
pub fn get<'a>(v: &'a Json, path: &[&str]) -> (r: Option<&'a Json>)
    ensures
        deref_opt(r) == get_at(v@, path_view(path@)),
{
    match get_raw(v, path) {
        Some(cur) => match cur.get_key("raw") {
            Some(raw) => Some(raw),
            None => Some(cur),
        },
        None => None,
    }
}

/// The string at `path` (after `raw` unwrapping).
pub fn get_str(v: &Json, path: &[&str]) -> (r: Option<String>)
    ensures
        r matches Some(s) ==> (get_at(v@, path_view(path@)) matches Some(n) && str_of(n) == Some(
            s@,
        )),
        r is None ==> (get_at(v@, path_view(path@)) matches Some(n) ==> str_of(n) is None),
{
    match get(v, path) {
        Some(n) => match n.as_str() {
            Some(s) => Some(s.to_owned()),
            None => None,
        },
        None => None,
    }
}

/// Integer accessor with a float fallback (Yahoo often sends integers as
/// floats, e.g. `sharesOutstanding`).
pub fn get_i64(v: &Json, path: &[&str]) -> (r: Option<i64>)
    ensures
        r == (match get_at(v@, path_view(path@)) {
            Some(n) => lenient_i64(n),
            None => None,
        }),
{
    match get(v, path) {
        Some(n) => lenient_i64_of(n),
        None => None,
    }
}

/// Unsigned integer accessor with a float fallback (e.g. screener volume).
pub fn get_u64(v: &Json, path: &[&str]) -> (r: Option<u64>)
    ensures
        r == (match get_at(v@, path_view(path@)) {
            Some(n) => lenient_u64(n),
            None => None,
        }),
{
    match get(v, path) {
        Some(n) => match n {
            Json::Number(JsonNumber::PosInt(u)) => Some(*u),
            Json::Number(JsonNumber::NegInt(_)) => Some(0),
            Json::Number(JsonNumber::Float { as_u64, .. }) => Some(*as_u64),
            _ => None,
        },
        None => None,
    }
}

/// [`lenient_i64`] of one node.
pub fn lenient_i64_of(n: &Json) -> (r: Option<i64>)
    ensures
        r == lenient_i64(n@),
{
    match n {
        Json::Number(JsonNumber::PosInt(u)) => {
            if *u <= 0x7fff_ffff_ffff_ffffu64 {
                Some(*u as i64)
            } else {
                Some(0x7fff_ffff_ffff_ffffi64)
            }
        },
        Json::Number(JsonNumber::NegInt(i)) => Some(*i),
        Json::Number(JsonNumber::Float { as_i64, .. }) => Some(*as_i64),
        _ => None,
    }
}

/// The `result` node of `v[key]`.
pub open spec fn result_node(v: JsonV, key: Seq<char>) -> Option<JsonV> {
    match member(v, key) {
        Some(k) => member(k, "result"@),
        None => None,
    }
}

/// The first item of the `result` array of `v[key]`.
pub open spec fn first_result(v: JsonV, key: Seq<char>) -> Option<JsonV> {
    match result_node(v, key) {
        Some(JsonV::Array(items)) => if items.len() > 0 {
            Some(items[0])
        } else {
            None
        },
        _ => None,
    }
}

fn data_missing(key: &str, tail: &str) -> (e: YfError)
    ensures
        e matches YfError::DataMissing(m) && m@ == key@ + tail@,
{
    let mut m: Vec<char> = Vec::new();
    push_str(&mut m, key);
    push_str(&mut m, tail);
    YfError::DataMissing(string_from_chars(m.as_slice()))
}

/// The `result` node of a Yahoo `finance` / `chart` / `quoteSummary` /
/// `optionChain` / `timeseries` / `marketSummaryResponse` response.
pub fn yf_result<'a>(v: &'a Json, key: &str) -> (r: Result<&'a Json, YfError>)
    ensures
        r matches Ok(n) ==> result_node(v@, key@) == Some(n@),
        r is Err <==> result_node(v@, key@) is None,
        r matches Err(e) ==> (e matches YfError::DataMissing(m) && m@ == key@
            + ".result missing"@),
{
    match v.get_key(key) {
        Some(k) => match k.get_key("result") {
            Some(r) => Ok(r),
            None => Err(data_missing(key, ".result missing")),
        },
        None => Err(data_missing(key, ".result missing")),
    }
}

/// The first element of [`yf_result`]: `DataMissing("<key>.result missing")`
/// without a result node, `DataMissing("<key>.result[0] missing")` when the
/// node is not a non-empty array.
pub fn yf_result_first<'a>(v: &'a Json, key: &str) -> (r: Result<&'a Json, YfError>)
    ensures
        r matches Ok(n) ==> first_result(v@, key@) == Some(n@),
        r is Err <==> first_result(v@, key@) is None,
        r matches Err(e) ==> (e matches YfError::DataMissing(m) && m@ == key@ + (
        if result_node(v@, key@) is None {
            ".result missing"@
        } else {
            ".result[0] missing"@
        })),
{
    let r = match yf_result(v, key) {
        Ok(r) => r,
        Err(_) => return Err(data_missing(key, ".result missing")),
    };
    match r.as_array() {
        Some(items) => {
            proof {
                lemma_items_view(items@);
            }
            if items.len() > 0 {
                Ok(&items[0])
            } else {
                Err(data_missing(key, ".result[0] missing"))
            }
        },
        None => Err(data_missing(key, ".result[0] missing")),
    }
}

/// The string held by the member `key` of an object.
pub open spec fn member_str(v: JsonV, key: Seq<char>) -> Option<Seq<char>> {
    match member(v, key) {
        Some(m) => str_of(m),
        None => None,
    }
}

/// `v[key].as_str()`.
pub fn get_member_str<'a>(v: &'a Json, key: &str) -> (r: Option<&'a str>)
    ensures
        r matches Some(s) ==> member_str(v@, key@) == Some(s@),
        r is None ==> member_str(v@, key@) is None,
{
    match v.get_key(key) {
        Some(m) => m.as_str(),
        None => None,
    }
}

/// `v[key].as_str()`, owned.
pub fn get_member_string(v: &Json, key: &str) -> (r: Option<String>)
    ensures
        opt_string_view(r) == member_str(v@, key@),
{
    match get_member_str(v, key) {
        Some(s) => Some(s.to_owned()),
        None => None,
    }
}

/// An optional string as an optional character sequence.
pub open spec fn opt_string_view(o: Option<String>) -> Option<Seq<char>> {
    match o {
        Some(s) => Some(s@),
        None => None,
    }
}

/// A copy of a sequence of nodes.
pub fn clone_items(a: &Vec<Json>) -> (r: Vec<Json>)
    ensures
        items_view(r@) == items_view(a@),
{
    let mut out: Vec<Json> = Vec::new();
    let mut i: usize = 0;
    while i < a.len()
        invariant
            i <= a@.len(),
            items_view(out@) == items_view(a@.take(i as int)),
        decreases a@.len() - i,
    {
        let ghost prev = out@;
        let c = a[i].clone();
        out.push(c);
        i = i + 1;
        assert(a@.take(i as int).drop_last() =~= a@.take(i - 1));
        assert(out@.drop_last() =~= prev);
    }
    assert(a@.take(a@.len() as int) =~= a@);
    out
}

/// The number at `path` (after `raw` unwrapping): what a floating-point
/// accessor reads, before conversion.
pub open spec fn number_at(v: JsonV, path: Seq<Seq<char>>) -> Option<JsonNumber> {
    match get_at(v, path) {
        Some(JsonV::Number(n)) => Some(n),
        _ => None,
    }
}

/// The number at `path` (after `raw` unwrapping).
pub fn get_number(v: &Json, path: &[&str]) -> (r: Option<JsonNumber>)
    ensures
        r == number_at(v@, path_view(path@)),
{
    match get(v, path) {
        Some(Json::Number(n)) => Some(n.clone()),
        _ => None,
    }
}

/// The string at `path` (after `raw` unwrapping).
pub open spec fn text_at(v: JsonV, path: Seq<Seq<char>>) -> Option<Seq<char>> {
    match get_at(v, path) {
        Some(n) => str_of(n),
        None => None,
    }
}

/// The string at `path` (after `raw` unwrapping), owned.
pub fn get_text(v: &Json, path: &[&str]) -> (r: Option<String>)
    ensures
        opt_string_view(r) == text_at(v@, path_view(path@)),
{
    match get(v, path) {
        Some(n) => match n.as_str() {
            Some(s) => Some(s.to_owned()),
            None => None,
        },
        None => None,
    }
}

/// The string at `v.a.b`.
pub fn text2(v: &Json, a: &str, b: &str) -> (r: Option<String>)
    ensures
        opt_string_view(r) == text_at(v@, seq![a@, b@]),
{
    let p = [a, b];
    assert(path_view(p@) =~= seq![a@, b@]);
    get_text(v, &p)
}

/// The string at `v.a`.
pub fn text1(v: &Json, a: &str) -> (r: Option<String>)
    ensures
        opt_string_view(r) == text_at(v@, seq![a@]),
{
    let p = [a];
    assert(path_view(p@) =~= seq![a@]);
    get_text(v, &p)
}

/// The number at `v.a`.
pub fn num1(v: &Json, a: &str) -> (r: Option<JsonNumber>)
    ensures
        r == number_at(v@, seq![a@]),
{
    let p = [a];
    assert(path_view(p@) =~= seq![a@]);
    get_number(v, &p)
}

/// The number at `v.a.b`.
pub fn num2(v: &Json, a: &str, b: &str) -> (r: Option<JsonNumber>)
    ensures
        r == number_at(v@, seq![a@, b@]),
{
    let p = [a, b];
    assert(path_view(p@) =~= seq![a@, b@]);
    get_number(v, &p)
}

/// The number at `v.a.b.c`.
pub fn num3(v: &Json, a: &str, b: &str, c: &str) -> (r: Option<JsonNumber>)
    ensures
        r == number_at(v@, seq![a@, b@, c@]),
{
    let p = [a, b, c];
    assert(path_view(p@) =~= seq![a@, b@, c@]);
    get_number(v, &p)
}

/// The node at `v.a` (after `raw` unwrapping), `null` when absent.
pub open spec fn node_or_null(v: JsonV, a: Seq<char>) -> JsonV {
    match get_at(v, seq![a]) {
        Some(n) => n,
        None => JsonV::Null,
    }
}

/// The node at `v.a` (after `raw` unwrapping), `null` when absent.
pub fn get_or_null(v: &Json, a: &str) -> (r: Json)
    ensures
        r@ == node_or_null(v@, a@),
{
    let p = [a];
    assert(path_view(p@) =~= seq![a@]);
    match get(v, &p) {
        Some(n) => n.clone(),
        None => Json::Null,
    }
}

/// The number held by the member `key` (no `raw` unwrapping).
pub open spec fn member_number(v: JsonV, key: Seq<char>) -> Option<JsonNumber> {
    match member(v, key) {
        Some(JsonV::Number(n)) => Some(n),
        _ => None,
    }
}

/// `v[key].as_f64()`, before conversion: the number held by the member.
pub fn get_member_number(v: &Json, key: &str) -> (r: Option<JsonNumber>)
    ensures
        r == member_number(v@, key@),
{
    match v.get_key(key) {
        Some(Json::Number(n)) => Some(n.clone()),
        _ => None,
    }
}

/// The boolean held by the member `key`.
pub open spec fn member_bool(v: JsonV, key: Seq<char>) -> Option<bool> {
    match member(v, key) {
        Some(JsonV::Bool(b)) => Some(b),
        _ => None,
    }
}

/// `v[key].as_bool()`.
pub fn get_member_bool(v: &Json, key: &str) -> (r: Option<bool>)
    ensures
        r == member_bool(v@, key@),
{
    match v.get_key(key) {
        Some(n) => n.as_bool(),
        None => None,
    }
}

} // verus!
