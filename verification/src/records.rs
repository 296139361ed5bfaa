//! Reading flat records out of JSON nodes the way a derived deserializer
//! reads a struct of optional fields: from an object by field name
//! (absent or `null` is `None`), or from an array holding exactly one item
//! per field, in order.

use vstd::prelude::*;

use crate::json::{
    deref_opt, items_view, lemma_items_view, member, opt_string_view, Json, JsonNumber, JsonV,
};

verus! {

/// An optional string field read from an optional node: absent or `null`
/// is `None`, a string is itself, anything else makes the record invalid
/// (outer `None`).
pub open spec fn opt_text_field(v: Option<JsonV>) -> Option<Option<Seq<char>>> {
    match v {
        None => Some(None),
        Some(JsonV::Null) => Some(None),
        Some(JsonV::Str(s)) => Some(Some(s)),
        _ => None,
    }
}

/// The nodes of a record's fields: the members named `keys` of an object,
/// or the items of an array with one item per key; `None` for any other
/// node.
pub open spec fn fields_of(q: JsonV, keys: Seq<Seq<char>>) -> Option<Seq<Option<JsonV>>> {
    match q {
        JsonV::Object(_) => Some(keys.map_values(|k: Seq<char>| member(q, k))),
        JsonV::Array(items) => if items.len() == keys.len() {
            Some(items.map_values(|x: JsonV| Some(x)))
        } else {
            None
        },
        _ => None,
    }
}

/// A record of optional strings read from a node: `None` when the node is
/// not a record of `keys` or a field is neither absent, `null` nor a string.
pub open spec fn text_record_of(q: JsonV, keys: Seq<Seq<char>>) -> Option<Seq<Option<Seq<char>>>> {
    match fields_of(q, keys) {
        Some(fs) => if forall|i: int| 0 <= i < fs.len() ==> (#[trigger] opt_text_field(fs[i])) is Some {
            Some(fs.map_values(|f: Option<JsonV>| opt_text_field(f)->0))
        } else {
            None
        },
        None => None,
    }
}

/// Optional strings as optional character sequences.
pub open spec fn opt_strings_view(v: Seq<Option<String>>) -> Seq<Option<Seq<char>>> {
    v.map_values(|o: Option<String>| opt_string_view(o))
}

/// String slices as character sequences.
pub open spec fn keys_view(s: Seq<&str>) -> Seq<Seq<char>> {
    s.map_values(|x: &str| x@)
}

/// [`opt_text_field`] of one optional node.
pub fn opt_text(v: Option<&Json>) -> (r: Result<Option<String>, ()>)
    ensures
        r matches Ok(o) ==> opt_text_field(deref_opt(v)) == Some(opt_string_view(o)),
        r is Err <==> opt_text_field(deref_opt(v)) is None,
{
    match v {
        None => Ok(None),
        Some(Json::Null) => Ok(None),
        Some(Json::Str(s)) => Ok(Some(s.clone())),
        Some(_) => Err(()),
    }
}

/// Reads a record of optional strings named `keys` from a node.
pub fn decode_text_record(q: &Json, keys: &[&str]) -> (r: Option<Vec<Option<String>>>)
    ensures
        r matches Some(v) ==> text_record_of(q@, keys_view(keys@)) == Some(opt_strings_view(v@))
            && v@.len() == keys@.len(),
        r is None <==> text_record_of(q@, keys_view(keys@)) is None,
{
    let ghost ks = keys_view(keys@);
    let n = keys.len();
    let mut out: Vec<Option<String>> = Vec::new();
    let mut i: usize = 0;
    match q {
        Json::Object(_) => {
            let ghost fs = ks.map_values(|k: Seq<char>| member(q@, k));
            assert(fields_of(q@, ks) == Some(fs));
            while i < n
                invariant
                    i <= n,
                    out@.len() == i,
                    n == keys@.len(),
                    ks == keys_view(keys@),
                    fs == ks.map_values(|k: Seq<char>| member(q@, k)),
                    fields_of(q@, ks) == Some(fs),
                    forall|j: int| 0 <= j < i ==> (#[trigger] opt_text_field(fs[j])) is Some,
                    opt_strings_view(out@) == fs.take(i as int).map_values(
                        |f: Option<JsonV>| opt_text_field(f)->0,
                    ),
                decreases n - i,
            {
                let f = q.get_key(keys[i]);
                assert(fs[i as int] == deref_opt(f));
                match opt_text(f) {
                    Ok(o) => {
                        let ghost prev = out@;
                        out.push(o);
                        assert(opt_strings_view(out@) =~= opt_strings_view(prev).push(
                            opt_string_view(o),
                        ));
                        assert(fs.take(i + 1).map_values(|f: Option<JsonV>| opt_text_field(f)->0)
                            =~= fs.take(i as int).map_values(
                            |f: Option<JsonV>| opt_text_field(f)->0,
                        ).push(opt_text_field(fs[i as int])->0));
                    },
                    Err(()) => {
                        assert(opt_text_field(fs[i as int]) is None);
                        return None;
                    },
                }
                i = i + 1;
            }
            assert(fs.take(n as int) =~= fs);
            Some(out)
        },
        Json::Array(items) => {
            proof {
                lemma_items_view(items@);
            }
            if items.len() != n {
                return None;
            }
            let ghost fs = items_view(items@).map_values(|x: JsonV| Some(x));
            assert(fields_of(q@, ks) == Some(fs));
            while i < n
                invariant
                    i <= n,
                    out@.len() == i,
                    n == items@.len(),
                    n == keys@.len(),
                    fs == items_view(items@).map_values(|x: JsonV| Some(x)),
                    ks == keys_view(keys@),
                    fields_of(q@, ks) == Some(fs),
                    items_view(items@).len() == items@.len(),
                    forall|j: int| 0 <= j < items@.len() ==> #[trigger] items_view(items@)[j] == items@[j]@,
                    forall|j: int| 0 <= j < i ==> (#[trigger] opt_text_field(fs[j])) is Some,
                    opt_strings_view(out@) == fs.take(i as int).map_values(
                        |f: Option<JsonV>| opt_text_field(f)->0,
                    ),
                decreases n - i,
            {
                assert(fs[i as int] == Some(items@[i as int]@));
                match opt_text(Some(&items[i])) {
                    Ok(o) => {
                        let ghost prev = out@;
                        out.push(o);
                        assert(opt_strings_view(out@) =~= opt_strings_view(prev).push(
                            opt_string_view(o),
                        ));
                        assert(fs.take(i + 1).map_values(|f: Option<JsonV>| opt_text_field(f)->0)
                            =~= fs.take(i as int).map_values(
                            |f: Option<JsonV>| opt_text_field(f)->0,
                        ).push(opt_text_field(fs[i as int])->0));
                    },
                    Err(()) => {
                        assert(opt_text_field(fs[i as int]) is None);
                        return None;
                    },
                }
                i = i + 1;
            }
            assert(fs.take(n as int) =~= fs);
            Some(out)
        },
        _ => None,
    }
}

/// The `i`-th field of a decoded record.
pub fn field_at(v: &Vec<Option<String>>, i: usize) -> (r: Option<String>)
    requires
        i < v@.len(),
    ensures
        opt_string_view(r) == opt_string_view(v@[i as int]),
{
    match &v[i] {
        Some(s) => Some(s.clone()),
        None => None,
    }
}

/// An optional number field read from an optional node: absent or `null`
/// is `None`, a number is itself, anything else makes the record invalid
/// (outer `None`).
pub open spec fn opt_number_field(v: Option<JsonV>) -> Option<Option<JsonNumber>> {
    match v {
        None => Some(None),
        Some(JsonV::Null) => Some(None),
        Some(JsonV::Number(n)) => Some(Some(n)),
        _ => None,
    }
}

/// [`opt_number_field`] of one optional node.
pub fn opt_number(v: Option<&Json>) -> (r: Result<Option<JsonNumber>, ()>)
    ensures
        r matches Ok(o) ==> opt_number_field(deref_opt(v)) == Some(o),
        r is Err <==> opt_number_field(deref_opt(v)) is None,
{
    match v {
        None => Ok(None),
        Some(Json::Null) => Ok(None),
        Some(Json::Number(n)) => Ok(Some(n.clone())),
        Some(_) => Err(()),
    }
}

/// Whether a node is a record of `keys`: an object, or an array with one
/// item per key.
pub fn is_record(q: &Json, keys: &[&str]) -> (b: bool)
    ensures
        b == fields_of(q@, keys_view(keys@)) is Some,
{
    match q {
        Json::Object(_) => true,
        Json::Array(items) => {
            proof {
                lemma_items_view(items@);
            }
            items.len() == keys.len()
        },
        _ => false,
    }
}

/// The node of field `i` of a record of `keys`.
pub fn field_node<'a>(q: &'a Json, keys: &[&str], i: usize) -> (r: Option<&'a Json>)
    requires
        i < keys@.len(),
        fields_of(q@, keys_view(keys@)) is Some,
    ensures
        deref_opt(r) == fields_of(q@, keys_view(keys@))->0[i as int],
{
    match q {
        Json::Array(items) => {
            proof {
                lemma_items_view(items@);
            }
            Some(&items[i])
        },
        _ => q.get_key(keys[i]),
    }
}

} // verus!
