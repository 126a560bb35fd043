//! The request-handling core: each route's work between parameter parsing
//! and the wire, and the mapping of outcomes to response status codes.

use crate::render::{
    count_char, lemma_render_no_markup_from_inputs, render, spec_render, DiagramInputs,
};
use crate::sanitize::{clean_of, markup_free, sanitize, SanitizeError};
use crate::store::HistoryStore;
use vstd::prelude::*;

verus! {

/// The document that a request with the given raw fields produces when every
/// field passes sanitization: each field sanitized independently, then
/// substituted into the template.
pub open spec fn spec_document(
    n: Seq<char>,
    r: Seq<char>,
    h0: Seq<char>,
    h1: Seq<char>,
    br: Seq<char>,
) -> Seq<char> {
    spec_render(clean_of(n), clean_of(r), clean_of(h0), clean_of(h1), clean_of(br))
}

/// The document rendered from five empty fields: nothing but the constant
/// template around empty text labels.
pub open spec fn spec_empty_document() -> Seq<char> {
    spec_render(
        Seq::<char>::empty(),
        Seq::<char>::empty(),
        Seq::<char>::empty(),
        Seq::<char>::empty(),
        Seq::<char>::empty(),
    )
}

/// Sanitize each of the five fields independently. If any field were
/// rejected the whole request would abort with the error — no partially
/// sanitized set of fields is ever produced — but the sanitizer accepts
/// every input, so all five fields are always produced.
pub fn sanitize_inputs(inputs: &DiagramInputs) -> (r: Result<DiagramInputs, SanitizeError>)
    ensures
        r is Ok,
        r matches Ok(c) ==> c.network@ == clean_of(inputs.network@) && c.router@ == clean_of(
            inputs.router@,
        ) && c.host0@ == clean_of(inputs.host0@) && c.host1@ == clean_of(inputs.host1@)
            && c.broadcast@ == clean_of(inputs.broadcast@),
        r matches Ok(c) ==> markup_free(c.network@) && markup_free(c.router@) && markup_free(
            c.host0@,
        ) && markup_free(c.host1@) && markup_free(c.broadcast@),
{
    let network = match sanitize(inputs.network.as_str()) {
        Ok(s) => s,
        Err(e) => return Err(e),
    };
    let router = match sanitize(inputs.router.as_str()) {
        Ok(s) => s,
        Err(e) => return Err(e),
    };
    let host0 = match sanitize(inputs.host0.as_str()) {
        Ok(s) => s,
        Err(e) => return Err(e),
    };
    let host1 = match sanitize(inputs.host1.as_str()) {
        Ok(s) => s,
        Err(e) => return Err(e),
    };
    let broadcast = match sanitize(inputs.broadcast.as_str()) {
        Ok(s) => s,
        Err(e) => return Err(e),
    };
    Ok(DiagramInputs { network, router, host0, host1, broadcast })
}

/// The render-only route's work: sanitize the five fields, then render. The
/// route succeeds on every input, and the result is exactly the template
/// with the sanitized fields substituted; the inputs contribute no markup to
/// it — the document holds exactly the tag delimiters of the empty-fields
/// document. The error arm is the route's documented client-error outcome,
/// which this sanitizer never takes.
pub fn render_only(inputs: &DiagramInputs) -> (r: Result<String, SanitizeError>)
    ensures
        r is Ok,
        r matches Ok(doc) ==> doc@ == spec_document(
            inputs.network@,
            inputs.router@,
            inputs.host0@,
            inputs.host1@,
            inputs.broadcast@,
        ),
        r matches Ok(doc) ==> count_char(doc@, '<') == count_char(spec_empty_document(), '<')
            && count_char(doc@, '>') == count_char(spec_empty_document(), '>'),
{
    let clean = match sanitize_inputs(inputs) {
        Ok(c) => c,
        Err(e) => return Err(e),
    };
    let doc = render(&clean);
    proof {
        lemma_render_no_markup_from_inputs(
            clean.network@,
            clean.router@,
            clean.host0@,
            clean.host1@,
            clean.broadcast@,
            '<',
        );
        lemma_render_no_markup_from_inputs(
            clean.network@,
            clean.router@,
            clean.host0@,
            clean.host1@,
            clean.broadcast@,
            '>',
        );
    }
    Ok(doc)
}

/// Law: the render-only route is pure. For given raw fields its contract
/// admits exactly one outcome — success with the document of those fields —
/// so two calls on character-identical fields yield byte-identical
/// responses, with no side effect beyond the returned document.
pub proof fn lemma_render_only_deterministic(
    n: Seq<char>,
    r: Seq<char>,
    h0: Seq<char>,
    h1: Seq<char>,
    br: Seq<char>,
    r1: Result<String, SanitizeError>,
    r2: Result<String, SanitizeError>,
)
    requires
        r1 is Ok,
        r2 is Ok,
        r1 matches Ok(d) ==> d@ == spec_document(n, r, h0, h1, br),
        r2 matches Ok(d) ==> d@ == spec_document(n, r, h0, h1, br),
    ensures
        r1 matches Ok(d1) ==> (r2 matches Ok(d2) ==> d1@ == d2@),
{
}

/// The save route's work: sanitize, render, then upsert the document under
/// the caller's email. The route succeeds on every input: afterwards the
/// store maps the email to exactly the document of this request and no other
/// entry changes. Were a field ever rejected, the request would abort before
/// any write and leave the store as it was.
pub fn save(store: &mut HistoryStore, email: String, inputs: &DiagramInputs) -> (r: Result<
    (),
    SanitizeError,
>)
    ensures
        r is Ok,
        r matches Ok(u) ==> final(store)@ == old(store)@.insert(
            email@,
            spec_document(
                inputs.network@,
                inputs.router@,
                inputs.host0@,
                inputs.host1@,
                inputs.broadcast@,
            ),
        ),
        r is Err ==> final(store)@ == old(store)@,
{
    let doc = match render_only(inputs) {
        Ok(d) => d,
        Err(e) => return Err(e),
    };
    store.upsert(email, doc);
    Ok(())
}

/// The history route's work: a point lookup of the most recently saved
/// document for `email`. Not-found is a documented outcome, distinct from
/// any fault, and comes exactly when no record for `email` exists.
pub fn history(store: &HistoryStore, email: &str) -> (r: Option<String>)
    ensures
        r matches Some(doc) ==> store@.contains_key(email@) && doc@ == store@[email@],
        r is None <==> !store@.contains_key(email@),
{
    store.get_last_input(email)
}

/// The outcome of one save request as the handler boundary sees it.
pub enum SaveOutcome {
    /// The document was rendered and persisted.
    Saved,
    /// A field was rejected by the sanitizer; nothing was persisted.
    BadInput,
    /// The persistence layer faulted; the prior record, if any, stands.
    StorageFault,
}

/// The outcome of one history request as the handler boundary sees it.
pub enum HistoryOutcome {
    /// A record exists; its document is returned verbatim.
    Found(String),
    /// No record exists for the email: the documented no-content outcome.
    NotFound,
    /// The persistence layer faulted.
    StorageFault,
}

/// The status code of the render-only route: success, or a client error
/// when a field was rejected.
pub fn render_only_status(r: &Result<String, SanitizeError>) -> (c: u16)
    ensures
        c == (if r is Ok {
            200int
        } else {
            400int
        }),
{
    match r {
        Ok(_) => 200,
        Err(_) => 400,
    }
}

/// The status code of the save route: success, a client error for rejected
/// input, or a server error for a storage fault.
pub fn save_status(o: &SaveOutcome) -> (c: u16)
    ensures
        c == (match *o {
            SaveOutcome::Saved => 200int,
            SaveOutcome::BadInput => 400int,
            SaveOutcome::StorageFault => 500int,
        }),
{
    match o {
        SaveOutcome::Saved => 200,
        SaveOutcome::BadInput => 400,
        SaveOutcome::StorageFault => 500,
    }
}

/// The status code of the history route: success with a body, the no-content
/// outcome for an unknown email, or a server error for a storage fault.
pub fn history_status(o: &HistoryOutcome) -> (c: u16)
    ensures
        c == (match *o {
            HistoryOutcome::Found(_) => 200int,
            HistoryOutcome::NotFound => 204int,
            HistoryOutcome::StorageFault => 500int,
        }),
{
    match o {
        HistoryOutcome::Found(_) => 200,
        HistoryOutcome::NotFound => 204,
        HistoryOutcome::StorageFault => 500,
    }
}

} // verus!
