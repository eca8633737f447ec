use vstd::prelude::*;

verus! {

/// Whether `text` parses as one well-formed document.
///
/// Named rather than spelled out: the grammar is the parser crate's, and
/// whether a text parses depends on the text alone.
pub uninterp spec fn json_ok(text: Seq<char>) -> bool;

/// Relies on serde_json::from_str::<serde_json::Value>: whether a text
/// parses as a document depends on the text alone.
#[verifier::external_body]
pub(crate) fn parses_as_document(text: &str) -> (r: bool)
    ensures
        r == json_ok(text@),
{
    serde_json::from_str::<serde_json::Value>(text).is_ok()
}

} // verus!
