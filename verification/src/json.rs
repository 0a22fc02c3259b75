//! The crate's only contact with `serde_json`.
//!
//! Request bodies are framed by verified code out of encoded string
//! literals; response bodies are read by small trusted wrappers. What an
//! encoding or a parse yields is a function of the text alone, so each
//! result is given an uninterpreted name that the callers' contracts
//! speak of exactly.

use vstd::prelude::*;

verus! {

/// The JSON string literal (quotes and escapes included) that encodes `s`.
pub uninterp spec fn json_string_of(s: Seq<char>) -> Seq<char>;

/// The repository fields `(id, name, owner login)` that a repository
/// resource body decodes to, if it decodes at all.
pub uninterp spec fn repository_of_body(body: Seq<char>) -> Option<(u64, Seq<char>, Seq<char>)>;

/// The `value` field that a variable resource body decodes to, if any.
pub uninterp spec fn variable_value_of_body(body: Seq<char>) -> Option<Seq<char>>;

/// The environment names that an environment-list body decodes to, if it
/// decodes at all.
pub uninterp spec fn environment_names_of_body(body: Seq<char>) -> Option<Seq<Seq<char>>>;

/// Relies on `serde_json::to_string` for `str`: the result is the JSON
/// string literal encoding of `s`, and encoding a string never fails.
#[verifier::external_body]
pub fn json_encode_string(s: &str) -> (r: String)
    ensures
        r@ == json_string_of(s@),
{
    serde_json::to_string(s).unwrap()
}

/// Relies on `serde_json::from_str` and the `Value` accessors to read the
/// `id`, `name` and `owner.login` fields of a repository resource body.
#[verifier::external_body]
pub fn parse_repository_body(body: &str) -> (r: Option<(u64, String, String)>)
    ensures
        match r {
            Some(t) => repository_of_body(body@) == Some((t.0, t.1@, t.2@)),
            None => repository_of_body(body@) is None,
        },
{
    let v: serde_json::Value = serde_json::from_str(body).ok()?;
    let id = v.get("id")?.as_u64()?;
    let name = v.get("name")?.as_str()?.to_string();
    let owner = v.get("owner")?.get("login")?.as_str()?.to_string();
    Some((id, name, owner))
}

/// Relies on `serde_json::from_str` and the `Value` accessors to read the
/// `value` field of a variable resource body.
#[verifier::external_body]
pub fn parse_variable_body(body: &str) -> (r: Option<String>)
    ensures
        match r {
            Some(s) => variable_value_of_body(body@) == Some(s@),
            None => variable_value_of_body(body@) is None,
        },
{
    let v: serde_json::Value = serde_json::from_str(body).ok()?;
    Some(v.get("value")?.as_str()?.to_string())
}

/// Relies on `serde_json::from_str` and the `Value` accessors to read the
/// `name` of each entry under `environments` in an environment-list body.
#[verifier::external_body]
pub fn parse_environments_body(body: &str) -> (r: Option<Vec<String>>)
    ensures
        match r {
            Some(v) => environment_names_of_body(body@) == Some(v.deep_view()),
            None => environment_names_of_body(body@) is None,
        },
{
    let v: serde_json::Value = serde_json::from_str(body).ok()?;
    v.get("environments")?
        .as_array()?
        .iter()
        .map(|e| e.get("name").and_then(|n| n.as_str()).map(|s| s.to_string()))
        .collect()
}

} // verus!
