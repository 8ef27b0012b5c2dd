//! The JSON documents of `serde_json`, as this crate meets them: a response
//! body is parsed into a document, a document is asked for a member and is
//! printed. A document is opaque here; what the calls return is named, and
//! the contracts of the callers speak of those names.

use vstd::prelude::*;

verus! {

#[verifier::external_type_specification]
#[verifier::external_body]
pub struct ExJsonValue(serde_json::Value);

#[verifier::external_type_specification]
#[verifier::external_body]
pub struct ExJsonError(serde_json::Error);

/// What `serde_json::from_str` makes of a text: the document, or the error
/// that says where the text stops being JSON.
pub uninterp spec fn parsed_json(text: Seq<char>) -> Result<serde_json::Value, serde_json::Error>;

/// The message of a `serde_json::Error`, as its `Display` writes it.
pub uninterp spec fn json_error_text(e: serde_json::Error) -> Seq<char>;

/// The member of a document under a key: what `Value::get` finds.
pub uninterp spec fn json_member(v: serde_json::Value, key: Seq<char>) -> Option<serde_json::Value>;

/// The text of a document that is a string: what `Value::as_str` gives.
pub uninterp spec fn json_text(v: serde_json::Value) -> Option<Seq<char>>;

/// The elements of a document that is an array: what `Value::as_array`
/// gives.
pub uninterp spec fn json_items(v: serde_json::Value) -> Option<Seq<serde_json::Value>>;

/// Whether a document is `null`: what `Value::is_null` tells.
pub uninterp spec fn json_null(v: serde_json::Value) -> bool;

/// The document that a JSON pointer leads to: what `Value::pointer` finds.
pub uninterp spec fn json_at(v: serde_json::Value, pointer: Seq<char>) -> Option<
    serde_json::Value,
>;

/// How deep a document is nested. A document owns its members, so each
/// member is nested less deep than the document that holds it.
pub uninterp spec fn json_depth(v: serde_json::Value) -> nat;

/// A document as `serde_json::to_string_pretty` prints it.
pub uninterp spec fn pretty_json(v: serde_json::Value) -> Result<Seq<char>, serde_json::Error>;

/// A document as its `Debug` prints it.
pub uninterp spec fn debug_json(v: serde_json::Value) -> Seq<char>;

/// Calls `serde_json::from_str` for a `Value`. The parser reads the whole
/// text and returns the document or an error; it refuses nesting deeper
/// than its limit with an error too. The result depends on the text alone.
#[verifier::external_body]
pub(crate) fn json_from_str(text: &str) -> (r: Result<serde_json::Value, serde_json::Error>)
    ensures
        r == parsed_json(text@),
{
    serde_json::from_str::<serde_json::Value>(text)
}

/// Writes a `serde_json::Error` with its `Display`: the kind of the error,
/// followed by line and column where it has them.
#[verifier::external_body]
pub(crate) fn json_error_to_string(e: &serde_json::Error) -> (r: String)
    ensures
        r@ == json_error_text(*e),
{
    e.to_string()
}

/// Calls `Value::get` with a text key: the member under that key where the
/// document is an object that has it, and `None` otherwise. The member is
/// a part of the document, and so nested less deep.
#[verifier::external_body]
pub(crate) fn json_get<'a>(v: &'a serde_json::Value, key: &str) -> (r: Option<&'a serde_json::Value>)
    ensures
        match r {
            Some(m) => json_member(*v, key@) == Some(*m) && json_depth(*m) < json_depth(*v),
            None => json_member(*v, key@) is None,
        },
{
    v.get(key)
}

/// Calls `Value::as_str`: the text where the document is a string, and
/// `None` otherwise.
#[verifier::external_body]
pub(crate) fn json_as_str<'a>(v: &'a serde_json::Value) -> (r: Option<&'a str>)
    ensures
        match r {
            Some(s) => json_text(*v) == Some(s@),
            None => json_text(*v) is None,
        },
{
    v.as_str()
}

/// Calls `Value::as_array`: the elements where the document is an array,
/// and `None` otherwise.
#[verifier::external_body]
pub(crate) fn json_as_array<'a>(v: &'a serde_json::Value) -> (r: Option<&'a Vec<serde_json::Value>>)
    ensures
        match r {
            Some(items) => json_items(*v) == Some(items@),
            None => json_items(*v) is None,
        },
{
    v.as_array()
}

/// Calls `Value::is_null`.
#[verifier::external_body]
pub(crate) fn json_is_null(v: &serde_json::Value) -> (r: bool)
    ensures
        r == json_null(*v),
{
    v.is_null()
}

/// Calls `Value::pointer`, which follows a JSON pointer through objects and
/// arrays and gives the document it leads to, or `None` where it leads
/// nowhere.
#[verifier::external_body]
pub(crate) fn json_pointer<'a>(v: &'a serde_json::Value, pointer: &str) -> (r: Option<
    &'a serde_json::Value,
>)
    ensures
        match r {
            Some(m) => json_at(*v, pointer@) == Some(*m),
            None => json_at(*v, pointer@) is None,
        },
{
    v.pointer(pointer)
}

/// Calls `serde_json::to_string_pretty` on a document.
#[verifier::external_body]
pub(crate) fn json_to_string_pretty(v: &serde_json::Value) -> (r: Result<String, serde_json::Error>)
    ensures
        match r {
            Ok(s) => pretty_json(*v) == Ok::<Seq<char>, serde_json::Error>(s@),
            Err(e) => pretty_json(*v) == Err::<Seq<char>, serde_json::Error>(e),
        },
{
    serde_json::to_string_pretty(v)
}

/// Writes a document with its `Debug`.
#[verifier::external_body]
pub(crate) fn json_debug(v: &serde_json::Value) -> (r: String)
    ensures
        r@ == debug_json(*v),
{
    format!("{:?}", v)
}

} // verus!
