//! The persistent cache that the webview keeps in one JSON file: an object
//! whose members are the cache's entries.
use vstd::prelude::*;

use crate::json::json_error_text;
use crate::text::{join2, starts_with};

verus! {

#[verifier::external_type_specification]
#[verifier::external_body]
pub struct ExJsonValue(serde_json::Value);

#[verifier::external_type_specification]
#[verifier::external_body]
#[verifier::reject_recursive_types(K)]
#[verifier::reject_recursive_types(V)]
pub struct ExJsonMap<K, V>(serde_json::Map<K, V>);

/// The file that the cache is kept in, in the application's data directory.
pub const CACHE_FILE: &'static str = "persistent-cache.json";

/// The members of a JSON object, by key.
pub uninterp spec fn members(m: serde_json::Map<String, serde_json::Value>) -> Map<
    Seq<char>,
    serde_json::Value,
>;

/// The members of the JSON object that `text` holds; `None` when `text`
/// holds no JSON object.
pub uninterp spec fn json_object_members(text: Seq<char>) -> Option<Map<Seq<char>, serde_json::Value>>;

/// Whether `text` holds one JSON value.
pub uninterp spec fn json_valid(text: Seq<char>) -> bool;

/// The JSON value that `text` holds, when it holds one.
pub uninterp spec fn json_value_of(text: Seq<char>) -> serde_json::Value;

/// The indented JSON text of an object with these members.
pub uninterp spec fn pretty_text_of(ms: Map<Seq<char>, serde_json::Value>) -> Seq<char>;

/// Relies on `serde_json::from_str` reading a JSON object into a
/// `serde_json::Map`.
#[verifier::external_body]
fn parse_object(text: &str) -> (r: Option<serde_json::Map<String, serde_json::Value>>)
    ensures
        match json_object_members(text@) {
            Some(ms) => r matches Some(m) && members(m) == ms,
            None => r is None,
        },
{
    serde_json::from_str::<serde_json::Map<String, serde_json::Value>>(text).ok()
}

/// Relies on `serde_json::from_str` reading one JSON value.
#[verifier::external_body]
fn parse_value(text: &str) -> (r: Result<serde_json::Value, serde_json::Error>)
    ensures
        r is Ok <==> json_valid(text@),
        r matches Ok(v) ==> v == json_value_of(text@),
{
    serde_json::from_str::<serde_json::Value>(text)
}

/// An object without members.
pub open spec fn no_members() -> Map<Seq<char>, serde_json::Value> {
    Map::empty()
}

/// Relies on `serde_json::Map::new`, which makes an empty object.
#[verifier::external_body]
fn empty_object() -> (r: serde_json::Map<
    String,
    serde_json::Value,
>)
    ensures
        members(r) == no_members(),
{
    serde_json::Map::new()
}

/// Relies on `serde_json::Map::get`, which finds the member with the key.
#[verifier::external_body]
fn member(m: &serde_json::Map<String, serde_json::Value>, key: &str) -> (r: Option<
    serde_json::Value,
>)
    ensures
        r is Some <==> members(*m).contains_key(key@),
        r matches Some(v) ==> v == members(*m)[key@],
{
    m.get(key).cloned()
}

/// Relies on `serde_json::Map::insert`, which adds the member or replaces
/// the value of the one with that key.
#[verifier::external_body]
fn put_member(m: &mut serde_json::Map<String, serde_json::Value>, key: String, value: serde_json::Value)
    ensures
        members(*final(m)) == members(*old(m)).insert(key@, value),
{
    m.insert(key, value);
}

/// Relies on `serde_json::to_string_pretty`, which writes the object as
/// indented JSON text; an object with string keys always can be written.
#[verifier::external_body]
fn pretty_text(m: serde_json::Map<String, serde_json::Value>) -> (r: Result<
    String,
    serde_json::Error,
>)
    ensures
        r is Ok,
        r matches Ok(t) ==> t@ == pretty_text_of(members(m)),
{
    serde_json::to_string_pretty(&serde_json::Value::Object(m))
}

/// The entry under `key` among the members of a cache, if there is one.
pub open spec fn entry_of(ms: Option<Map<Seq<char>, serde_json::Value>>, key: Seq<char>) -> Option<
    serde_json::Value,
> {
    match ms {
        Some(ms) => if ms.contains_key(key) {
            Some(ms[key])
        } else {
            None
        },
        None => None,
    }
}

/// The entry under `key` in a cache file that holds `contents`. A file that
/// holds no JSON object holds no entries.
pub fn cache_lookup(contents: &str, key: &str) -> (r: Option<serde_json::Value>)
    ensures
        r == entry_of(json_object_members(contents@), key@),
{
    match parse_object(contents) {
        Some(root) => member(&root, key),
        None => None,
    }
}

/// The members of the cache that a file holding `contents` gives; no file,
/// or one without a JSON object, gives an empty cache.
pub open spec fn cache_members(contents: Option<Seq<char>>) -> Map<Seq<char>, serde_json::Value> {
    match contents {
        Some(c) => match json_object_members(c) {
            Some(ms) => ms,
            None => Map::empty(),
        },
        None => Map::empty(),
    }
}

/// The view of an optional string slice.
pub open spec fn opt_str_view(o: Option<&str>) -> Option<Seq<char>> {
    match o {
        Some(c) => Some(c@),
        None => None,
    }
}

/// The cache that a file gives: its object when `contents` holds one, else
/// an empty one. `None` stands for a missing file.
pub fn cache_root(contents: Option<&str>) -> (r: serde_json::Map<String, serde_json::Value>)
    ensures
        members(r) == cache_members(opt_str_view(contents)),
{
    match contents {
        Some(c) => match parse_object(c) {
            Some(root) => root,
            None => empty_object(),
        },
        None => empty_object(),
    }
}

/// Stores the JSON value that `value` holds under `key`, replacing what was
/// there; when `value` is not JSON, the cache is left as it is and the error
/// says so.
pub fn cache_insert(
    root: &mut serde_json::Map<String, serde_json::Value>,
    key: String,
    value: &str,
) -> (r: Result<(), String>)
    ensures
        r is Ok <==> json_valid(value@),
        r is Ok ==> members(*final(root)) == members(*old(root)).insert(
            key@,
            json_value_of(value@),
        ),
        r is Err ==> *final(root) == *old(root),
        r matches Err(e) ==> starts_with(e@, "Invalid cache payload JSON: "@),
{
    match parse_value(value) {
        Ok(v) => {
            put_member(root, key, v);
            Ok(())
        },
        Err(e) => {
            let msg = join2("Invalid cache payload JSON: ", json_error_text(&e).as_str());
            assert(msg@.subrange(0, "Invalid cache payload JSON: "@.len() as int)
                =~= "Invalid cache payload JSON: "@);
            Err(msg)
        },
    }
}

/// The cache file's new contents: the cache as indented JSON text.
pub fn cache_text(root: serde_json::Map<String, serde_json::Value>) -> (r: Result<String, String>)
    ensures
        r matches Ok(t) && t@ == pretty_text_of(members(root)),
{
    match pretty_text(root) {
        Ok(t) => Ok(t),
        Err(e) => {
            let msg = join2("Failed to serialize cache store: ", json_error_text(&e).as_str());
            Err(msg)
        },
    }
}

/// The new contents of a cache file that held `contents` (`None` for a
/// missing file) once the JSON value that `value` holds is stored under
/// `key`: the indented text of the old cache with that entry set. When
/// `value` is not JSON, the error says so.
pub fn cache_updated(contents: Option<&str>, key: String, value: &str) -> (r: Result<
    String,
    String,
>)
    ensures
        json_valid(value@) ==> (r matches Ok(t) && t@ == pretty_text_of(
            cache_members(opt_str_view(contents)).insert(key@, json_value_of(value@)),
        )),
        !json_valid(value@) ==> (r matches Err(e) && starts_with(
            e@,
            "Invalid cache payload JSON: "@,
        )),
{
    let mut root = cache_root(contents);
    match cache_insert(&mut root, key, value) {
        Ok(()) => cache_text(root),
        Err(e) => Err(e),
    }
}

/// Once a cache holds the entry written under `key`, a lookup of `key`
/// finds that value, and every other entry is as it was.
pub proof fn lemma_written_entry_is_found(
    ms: Map<Seq<char>, serde_json::Value>,
    key: Seq<char>,
    value: serde_json::Value,
    other: Seq<char>,
)
    ensures
        entry_of(Some(ms.insert(key, value)), key) == Some(value),
        other != key ==> entry_of(Some(ms.insert(key, value)), other) == entry_of(Some(ms), other),
{
}

} // verus!
