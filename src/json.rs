//! JSON text, read and written by serde_json.
use vstd::prelude::*;

verus! {

#[verifier::external_type_specification]
#[verifier::external_body]
pub struct ExJsonError(serde_json::Error);

/// The view of a list of key and value pairs.
pub open spec fn pairs_view(v: Seq<(String, String)>) -> Seq<(Seq<char>, Seq<char>)> {
    v.map_values(|p: (String, String)| (p.0@, p.1@))
}

/// The entries, in key order, of the JSON object of strings that `text`
/// holds; `None` when `text` is not such an object.
pub uninterp spec fn json_string_object(text: Seq<char>) -> Option<Seq<(Seq<char>, Seq<char>)>>;

/// The JSON text of an object of strings with the given entries.
pub uninterp spec fn json_text_of_strings(pairs: Seq<(Seq<char>, Seq<char>)>) -> Seq<char>;

/// Relies on `serde_json::from_str` reading a JSON object whose values are all
/// strings into a `BTreeMap<String, String>`, whose entries are then listed.
#[verifier::external_body]
pub(crate) fn decode_string_object(text: &str) -> (r: Option<Vec<(String, String)>>)
    ensures
        match json_string_object(text@) {
            Some(ps) => r matches Some(v) && pairs_view(v@) == ps,
            None => r is None,
        },
{
    match serde_json::from_str::<std::collections::BTreeMap<String, String>>(text) {
        Ok(m) => Some(m.into_iter().collect()),
        Err(_) => None,
    }
}

/// Relies on `serde_json::to_string` writing a `BTreeMap<&str, &str>` of the
/// pairs as one JSON object; a map with string keys always can be written.
#[verifier::external_body]
pub(crate) fn encode_string_object(pairs: &Vec<(String, String)>) -> (r: Result<
    String,
    serde_json::Error,
>)
    ensures
        r is Ok,
        r matches Ok(t) ==> t@ == json_text_of_strings(pairs_view(pairs@)),
{
    let m: std::collections::BTreeMap<&str, &str> = pairs.iter().map(
        |p| (p.0.as_str(), p.1.as_str()),
    ).collect();
    serde_json::to_string(&m)
}

/// Relies on the `Display` of `serde_json::Error`, which describes the error.
#[verifier::external_body]
pub(crate) fn json_error_text(e: &serde_json::Error) -> String {
    e.to_string()
}

} // verus!
