use crate::translation::TranslationSet;
use vstd::prelude::*;

verus! {

/// What serde_json's parser makes of one document text: nothing when the
/// text is not a single JSON object, otherwise the object's entries with
/// their keys in the order the parser hands them out, each value as the
/// text it carries. The parse of a text depends on that text alone.
pub uninterp spec fn parsed_object_of(text: Seq<char>) -> Option<Seq<(Seq<char>, Seq<char>)>>;

/// Relies on `serde_json::from_str` reading a `serde_json::Map<String,
/// serde_json::Value>`: it accepts exactly the texts that form a single
/// JSON object, and its `Map` iterates deterministically (it is ordered by
/// key). Each string value is taken as the string it holds; every other
/// value relies on `serde_json::Value::to_string` for its text.
#[verifier::external_body]
pub(crate) fn parse_translation_set(text: &str) -> (r: Option<TranslationSet>)
    ensures
        r is Some <==> parsed_object_of(text@) is Some,
        r is Some ==> r->Some_0@ == parsed_object_of(text@)->Some_0,
{
    let map: serde_json::Map<String, serde_json::Value> = match serde_json::from_str(text) {
        Ok(m) => m,
        Err(_) => return None,
    };
    let entries: Vec<(String, String)> = map
        .into_iter()
        .map(|(k, v)| match v {
            serde_json::Value::String(s) => (k, s),
            other => (k, other.to_string()),
        })
        .collect();
    Some(TranslationSet::from_entries(entries))
}

} // verus!
