//! JSON documents as parsed by `serde_json`, seen through a plain model.
use vstd::prelude::*;

verus! {

/// What a JSON document holds, as plain values.
pub enum JsonView {
    Null,
    Bool(bool),
    Number,
    Str(Seq<char>),
    Array(Seq<JsonView>),
    Object(Map<Seq<char>, JsonView>),
}

#[verifier::external_type_specification]
#[verifier::external_body]
pub struct ExValue(serde_json::Value);

/// What a `serde_json::Value` holds (a tree of plain values).
pub uninterp spec fn json_view(v: serde_json::Value) -> JsonView;

/// The document that `serde_json::from_str` reads from a text, if it is JSON.
pub uninterp spec fn json_of_text(s: Seq<char>) -> Option<JsonView>;

/// The document that `serde_json::from_slice` reads from bytes, if they are JSON.
pub uninterp spec fn json_of_bytes(b: Seq<u8>) -> Option<JsonView>;

/// The member `key` of an object, if the document is an object that has it.
pub open spec fn member(j: JsonView, key: Seq<char>) -> Option<JsonView> {
    match j {
        JsonView::Object(m) => if m.contains_key(key) {
            Some(m[key])
        } else {
            None
        },
        _ => None,
    }
}

/// The text of a member that is a JSON string.
pub open spec fn str_member(j: JsonView, key: Seq<char>) -> Option<Seq<char>> {
    match member(j, key) {
        Some(JsonView::Str(s)) => Some(s),
        _ => None,
    }
}

/// Relies on `serde_json::from_str::<Value>`: the document depends on the text alone.
#[verifier::external_body]
pub(crate) fn parse_json_text(s: &str) -> (r: Option<serde_json::Value>)
    ensures
        match r {
            Some(v) => json_of_text(s@) == Some(json_view(v)),
            None => json_of_text(s@).is_none(),
        },
{
    serde_json::from_str::<serde_json::Value>(s).ok()
}

/// Relies on `serde_json::from_slice::<Value>`: the document depends on the bytes alone.
#[verifier::external_body]
pub(crate) fn parse_json_bytes(b: &[u8]) -> (r: Option<serde_json::Value>)
    ensures
        match r {
            Some(v) => json_of_bytes(b@) == Some(json_view(v)),
            None => json_of_bytes(b@).is_none(),
        },
{
    serde_json::from_slice::<serde_json::Value>(b).ok()
}

/// Relies on `Value::get` with a string key: the member of an object, `None`
/// for a missing key or a value that is not an object.
#[verifier::external_body]
pub(crate) fn json_get<'a>(v: &'a serde_json::Value, key: &str) -> (r: Option<&'a serde_json::Value>)
    ensures
        match r {
            Some(f) => member(json_view(*v), key@) == Some(json_view(*f)),
            None => member(json_view(*v), key@).is_none(),
        },
{
    v.get(key)
}

/// Relies on `Value::as_str`: the text of a JSON string, `None` for any other value.
#[verifier::external_body]
pub(crate) fn json_as_str(v: &serde_json::Value) -> (r: Option<&str>)
    ensures
        match r {
            Some(s) => json_view(*v) == JsonView::Str(s@),
            None => !(json_view(*v) is Str),
        },
{
    v.as_str()
}

/// Relies on `Value::as_array`: the items of a JSON array, `None` for any other value.
#[verifier::external_body]
pub(crate) fn json_as_array(v: &serde_json::Value) -> (r: Option<&Vec<serde_json::Value>>)
    ensures
        match r {
            Some(a) => json_view(*v) == JsonView::Array(a@.map_values(|x: serde_json::Value| json_view(x))),
            None => !(json_view(*v) is Array),
        },
{
    v.as_array()
}

/// Relies on `Value::is_null`: whether the value is JSON `null`.
#[verifier::external_body]
pub(crate) fn json_is_null(v: &serde_json::Value) -> (r: bool)
    ensures
        r == (json_view(*v) is Null),
{
    v.is_null()
}

} // verus!

verus! {

/// Each item mapped by `f`, or `None` as soon as one item has no image.
pub open spec fn collect_all<A>(items: Seq<JsonView>, f: spec_fn(JsonView) -> Option<A>) -> Option<Seq<A>>
    decreases items.len(),
{
    if items.len() == 0 {
        Some(seq![])
    } else {
        match (collect_all(items.drop_last(), f), f(items.last())) {
            (Some(done), Some(x)) => Some(done.push(x)),
            _ => None,
        }
    }
}

/// Once a prefix has an item without image, the whole sequence has none.
pub proof fn lemma_collect_all_prefix_none<A>(items: Seq<JsonView>, f: spec_fn(JsonView) -> Option<A>, i: int)
    requires
        0 <= i <= items.len(),
        collect_all(items.take(i), f).is_none(),
    ensures
        collect_all(items, f).is_none(),
    decreases items.len() - i,
{
    if i < items.len() {
        assert(items.take(i + 1).drop_last() =~= items.take(i));
        lemma_collect_all_prefix_none(items, f, i + 1);
    } else {
        assert(items.take(i) =~= items);
    }
}

} // verus!
