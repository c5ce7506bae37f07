use vstd::prelude::*;

verus! {

// The engine binaries answer `version` and `inspect` queries with JSON.
// Decoding JSON is delegated to serde_json; each query below is a total
// function of the input bytes, so its result is given a name and the
// callers' contracts are stated over those names.

/// The string at `[section]["Version"]` of the JSON document `b`, if `b`
/// parses and that member is a string.
pub uninterp spec fn json_version_at(b: Seq<u8>, section: Seq<char>) -> Option<Seq<char>>;

/// The string at `["Version"]` of the JSON document `b`.
pub uninterp spec fn json_top_version(b: Seq<u8>) -> Option<Seq<char>>;

/// The number of elements of the JSON document `b`, if `b` parses to an array.
pub uninterp spec fn inspect_count(b: Seq<u8>) -> Option<usize>;

/// Whether element `i` of the JSON array `b` has a non-null `State` member.
pub uninterp spec fn inspect_state_present(b: Seq<u8>, i: usize) -> bool;

/// The string at `[i]["State"]["Status"]` of the JSON array `b`.
pub uninterp spec fn inspect_status_at(b: Seq<u8>, i: usize) -> Option<Seq<char>>;

/// The boolean at `[i]["State"]["Running"]` of the JSON array `b`.
pub uninterp spec fn inspect_running_at(b: Seq<u8>, i: usize) -> Option<bool>;

/// Relies on serde_json::from_slice and Value::as_str: reads the string at
/// `[section]["Version"]`.  The result depends on the bytes alone.
#[verifier::external_body]
pub fn extract_version_at(stdout: &[u8], section: &str) -> (r: Option<String>)
    ensures
        r.deep_view() == json_version_at(stdout@, section@),
{
    match serde_json::from_slice::<serde_json::Value>(stdout) {
        Ok(v) => v[section]["Version"].as_str().map(|s| s.to_string()),
        Err(_) => None,
    }
}

/// Relies on serde_json::from_slice and Value::as_str: reads the string at
/// the top-level `"Version"` member.  The result depends on the bytes alone.
#[verifier::external_body]
pub fn extract_top_version(stdout: &[u8]) -> (r: Option<String>)
    ensures
        r.deep_view() == json_top_version(stdout@),
{
    match serde_json::from_slice::<serde_json::Value>(stdout) {
        Ok(v) => v["Version"].as_str().map(|s| s.to_string()),
        Err(_) => None,
    }
}

/// Relies on serde_json::from_slice and Value::as_array: the length of the
/// top-level array.  The result depends on the bytes alone.
#[verifier::external_body]
pub fn extract_inspect_count(stdout: &[u8]) -> (r: Option<usize>)
    ensures
        r == inspect_count(stdout@),
{
    match serde_json::from_slice::<serde_json::Value>(stdout) {
        Ok(v) => v.as_array().map(|a| a.len()),
        Err(_) => None,
    }
}

/// Relies on serde_json::from_slice and Value::is_null: whether element `i`
/// carries a `State` member.  The result depends on the bytes alone.
#[verifier::external_body]
pub fn extract_state_present(stdout: &[u8], i: usize) -> (r: bool)
    ensures
        r == inspect_state_present(stdout@, i),
{
    match serde_json::from_slice::<serde_json::Value>(stdout) {
        Ok(v) => !v[i]["State"].is_null(),
        Err(_) => false,
    }
}

/// Relies on serde_json::from_slice and Value::as_str: reads the string at
/// `[i]["State"]["Status"]`.  The result depends on the bytes alone.
#[verifier::external_body]
pub fn extract_status_at(stdout: &[u8], i: usize) -> (r: Option<String>)
    ensures
        r.deep_view() == inspect_status_at(stdout@, i),
{
    match serde_json::from_slice::<serde_json::Value>(stdout) {
        Ok(v) => v[i]["State"]["Status"].as_str().map(|s| s.to_string()),
        Err(_) => None,
    }
}

/// Relies on serde_json::from_slice and Value::as_bool: reads the boolean at
/// `[i]["State"]["Running"]`.  The result depends on the bytes alone.
#[verifier::external_body]
pub fn extract_running_at(stdout: &[u8], i: usize) -> (r: Option<bool>)
    ensures
        r == inspect_running_at(stdout@, i),
{
    match serde_json::from_slice::<serde_json::Value>(stdout) {
        Ok(v) => v[i]["State"]["Running"].as_bool(),
        Err(_) => None,
    }
}

} // verus!
