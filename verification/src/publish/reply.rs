//! What a publish target's API answered, and the JSON lookups used to read it.

use vstd::prelude::*;

verus! {

/// An HTTP response as the publish targets read it.
pub struct HttpReply {
    /// The numeric status code.
    pub status: u16,
    /// The status as it is displayed: the code and its canonical reason, e.g. `422 Unprocessable Entity`.
    pub status_text: String,
    /// The response body (empty when it could not be read).
    pub body: String,
}

/// A 2xx status.
pub open spec fn is_success_spec(status: u16) -> bool {
    200 <= status <= 299
}

pub fn is_success(status: u16) -> (r: bool)
    ensures
        r == is_success_spec(status),
{
    200 <= status && status <= 299
}

/// What `serde_json` finds in the JSON text `text` at the JSON Pointer `pointer`: `None` when
/// `text` is not a JSON document, `Some(None)` when it holds nothing at `pointer`, and otherwise
/// the value found there, serialized compactly, together with its contents if it is a JSON string.
pub uninterp spec fn json_at(text: Seq<char>, pointer: Seq<char>) -> Option<
    Option<(Seq<char>, Option<Seq<char>>)>,
>;

pub open spec fn found_view(r: Option<Option<(String, Option<String>)>>) -> Option<
    Option<(Seq<char>, Option<Seq<char>>)>,
> {
    match r {
        None => None,
        Some(None) => Some(None),
        Some(Some((text, s))) => Some(
            Some(
                (
                    text@,
                    match s {
                        Some(v) => Some(v@),
                        None => None,
                    },
                ),
            ),
        ),
    }
}

/// `serde_json::from_str::<serde_json::Value>(text)`, then `Value::pointer(pointer)` on the
/// document, converting what is found to its compact serialization (`Display`) and, for a JSON
/// string, `Value::as_str`. The contract names the result (`json_at`) without spelling out JSON.
#[verifier::external_body]
pub(crate) fn json_lookup(text: &str, pointer: &str) -> (r: Option<Option<(String, Option<String>)>>)
    ensures
        found_view(r) == json_at(text@, pointer@),
{
    match serde_json::from_str::<serde_json::Value>(text) {
        Ok(doc) => Some(doc.pointer(pointer).map(|v| (v.to_string(), v.as_str().map(|s| s.to_string())))),
        Err(_) => None,
    }
}

} // verus!
