//! Sanitization of untrusted text before it is embedded into the diagram
//! document.

use vstd::prelude::*;

verus! {

/// The input could not be processed by the underlying sanitization pass.
/// This is a client-input error: the request is aborted before any document
/// is rendered or persisted.
#[derive(Debug, PartialEq, Eq, Structural)]
pub struct SanitizeError;

/// The text that the default markup-sanitization ruleset produces for a given
/// input. The transformation is involved (parse as markup, drop every
/// element, re-serialize the remaining text with escaping), but it depends on
/// the input characters alone.
pub uninterp spec fn clean_of(raw: Seq<char>) -> Seq<char>;

/// Holds of text in which no character could open or close a markup tag, so
/// embedding it as text content cannot introduce an element.
pub open spec fn markup_free(s: Seq<char>) -> bool {
    forall|i: int| 0 <= i < s.len() ==> s[i] != '<' && s[i] != '>'
}

/// Relies on sanitize_html::sanitize_str with the DEFAULT ruleset: the result
/// is a function of the input characters alone; the ruleset keeps no element,
/// so the output is the input's text content re-serialized with '&', '<' and
/// '>' escaped as entities, and in particular holds no '<' or '>' character.
/// The call succeeds on every input: its three failure paths are dead ends —
/// parsing reads from an in-memory cursor over a valid string, which cannot
/// raise an I/O error; serializing writes into a byte vector, which cannot
/// either; and the final UTF-8 validation is of the serializer's own output,
/// which is built from valid fragments.
#[verifier::external_body]
fn sanitize_default(raw: &str) -> (r: Result<String, SanitizeError>)
    ensures
        r is Ok,
        r matches Ok(s) ==> s@ == clean_of(raw@),
        r matches Ok(s) ==> markup_free(s@),
{
    match sanitize_html::sanitize_str(&sanitize_html::rules::predefined::DEFAULT, raw) {
        Ok(s) => Ok(s),
        Err(_) => Err(SanitizeError),
    }
}

/// Sanitize one untrusted field. The result is exactly the text that the
/// default ruleset produces for `raw`, and it is free of markup delimiters.
/// The error arm is the documented shape of the interface — a rejected field
/// aborts its whole request — but the default ruleset processes every input,
/// so this function always succeeds.
pub fn sanitize(raw: &str) -> (r: Result<String, SanitizeError>)
    ensures
        r is Ok,
        r matches Ok(s) ==> s@ == clean_of(raw@) && markup_free(s@),
{
    sanitize_default(raw)
}

} // verus!
