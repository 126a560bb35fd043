//! The diagram renderer: a pure substitution of five field values into a
//! constant vector-markup document.

use crate::sanitize::markup_free;
use vstd::prelude::*;

verus! {

/// The five labeled fields of one diagram request: a network, its router,
/// two hosts and the broadcast address. Each is an arbitrary string from an
/// untrusted client; the renderer itself performs no escaping, so callers
/// sanitize each field first.
pub struct DiagramInputs {
    pub network: String,
    pub router: String,
    pub host0: String,
    pub host1: String,
    pub broadcast: String,
}

/// The template up to the network text label.
pub const TPL_HEAD: &'static str = "
    <svg viewBox=\"0 0 174 174\" xmlns=\"http://www.w3.org/2000/svg\" xml:space=\"preserve\" style=\"fill-rule:evenodd;clip-rule:evenodd;stroke-linecap:round;stroke-linejoin:round;stroke-miterlimit:1.5\">
    <path d=\"M161.3 29.526c0-.842-.684-1.526-1.526-1.526H86.526c-.842 0-1.526.684-1.526 1.526v73.248c0 .842.684 1.526 1.526 1.526h73.248c.842 0 1.526-.684 1.526-1.526V29.526Z\" style=\"fill:#fff;stroke:#000;stroke-width:.44px\" transform=\"translate(-191.096 -62.38) scale(2.25819)\"/>
    <text x=\"120\" y=\"195.375\" style=\"font-family:&quot;Roboto-Regular&quot;,&quot;Roboto&quot;;font-size:5px\" transform=\"translate(-65 -188.15)\">Network: ";

/// The template between the network and broadcast text labels.
pub const TPL_AFTER_NETWORK: &'static str = "</text>
    <text x=\"120\" y=\"195.375\" style=\"font-family:&quot;Roboto-Regular&quot;,&quot;Roboto&quot;;font-size:5px\" transform=\"translate(-65 -24.85)\">Broadcast: ";

/// The template between the broadcast and router text labels.
pub const TPL_AFTER_BROADCAST: &'static str = "</text>
    <text x=\"120\" y=\"195.375\" style=\"font-family:&quot;Roboto-Regular&quot;,&quot;Roboto&quot;;font-size:5px\" transform=\"translate(-51 -166.54)\">";

/// The template between the router and first-host text labels.
pub const TPL_AFTER_ROUTER: &'static str = "</text>
    <circle cx=\"18\" cy=\"16\" r=\"14\" style=\"fill:#fff;stroke:#000;stroke-width:.9px\" transform=\"translate(67.071 29.746) scale(1.10714)\"/>
    <path d=\"M88 49.46h-2v5h-1l2 4 2-4h-1v-5Zm-3-1v-2h-5v-1l-4 2 4 2v-1h5Zm1-3h2v-5h1l-2-4-2 4h1v5Zm3 1v2h5v1l4-2-4-2v1h-5Z\"/>
    <text x=\"136.029\" y=\"195.375\" style=\"font-family:&quot;Roboto-Regular&quot;,&quot;Roboto&quot;;font-size:5px\" transform=\"translate(-57 -91.92)\">Switch</text>
    <path style=\"fill:#fff;stroke:#000;stroke-width:1.03px\" transform=\"translate(71.5 74.866) scale(.96875)\" d=\"M0 3h32v20H0z\"/>
    <path d=\"M90 80.46v-1l4 2-4 2v-1h-7v-2h7Zm-7 6v1l-4-2 4-2v1h7v2h-7Zm7 2v-1l4 2-4 2v-1h-7v-2h7Zm-7 6v1l-4-2 4-2v1h7v2h-7Z\"/>
    <text x=\"120\" y=\"195.375\" style=\"font-family:&quot;Roboto-Regular&quot;,&quot;Roboto&quot;;font-size:5px\" transform=\"translate(-17 -50.022)\">";

/// The template between the first-host and second-host text labels.
pub const TPL_AFTER_HOST1: &'static str = "</text>
    <path d=\"M32 4.1A2.11 2.11 0 0 0 29.903 2H2.097A2.11 2.11 0 0 0 0 4.1v16.8A2.11 2.11 0 0 0 2.097 23h27.806A2.11 2.11 0 0 0 32 20.9V4.1Z\" style=\"fill:#fff;stroke:#000;stroke-width:1.1px\" transform=\"matrix(.90625 0 0 .90476 104.5 114.918)\"/>
    <path d=\"M32 12.5C32 6.705 31.753 2 31.448 2H.552C.247 2 0 6.705 0 12.5S.247 23 .552 23h30.896c.305 0 .552-4.705.552-10.5Z\" style=\"stroke:#000;stroke-width:1.56px\" transform=\"matrix(.90625 0 0 .04762 104.5 137.133)\"/>
    <text x=\"120\" y=\"195.375\" style=\"font-family:&quot;Roboto-Regular&quot;,&quot;Roboto&quot;;font-size:5px\" transform=\"translate(-81 -50.022)\">";

/// The template after the second-host text label.
pub const TPL_TAIL: &'static str = "</text>
    <path d=\"M32 4.1A2.11 2.11 0 0 0 29.903 2H2.097A2.11 2.11 0 0 0 0 4.1v16.8A2.11 2.11 0 0 0 2.097 23h27.806A2.11 2.11 0 0 0 32 20.9V4.1Z\" style=\"fill:#fff;stroke:#000;stroke-width:1.1px\" transform=\"matrix(.90625 0 0 .90476 40.5 114.918)\"/>
    <path d=\"M32 12.5C32 6.705 31.753 2 31.448 2H.552C.247 2 0 6.705 0 12.5S.247 23 .552 23h30.896c.305 0 .552-4.705.552-10.5Z\" style=\"stroke:#000;stroke-width:1.56px\" transform=\"matrix(.90625 0 0 .04762 40.5 137.133)\"/>
    <circle cx=\"189\" cy=\"166\" r=\"1\" transform=\"translate(-107 -32.84)\"/><circle cx=\"189\" cy=\"166\" r=\"1\" transform=\"translate(-102 -32.84)\"/><circle cx=\"189\" cy=\"166\" r=\"1\" transform=\"translate(-97 -32.84)\"/>
    <path d=\"M200 110V96m-32 53c.889-21.778-1.322-30.48 16-29\" style=\"fill:none;stroke:#000;stroke-width:1px\" transform=\"translate(-113 -32.84)\"/>
    <path d=\"M168 149c.889-21.778-1.322-30.48 16-29\" style=\"fill:none;stroke:#000;stroke-width:1px\" transform=\"matrix(-1 0 0 1 287 -32.84)\"/>
    </svg>";

/// The document rendered for five field values: the constant template with
/// the values substituted at the five text-label positions, in the order in
/// which the labels stand in the template.
pub open spec fn spec_render(
    n: Seq<char>,
    r: Seq<char>,
    h0: Seq<char>,
    h1: Seq<char>,
    br: Seq<char>,
) -> Seq<char> {
    TPL_HEAD@ + n + TPL_AFTER_NETWORK@ + br + TPL_AFTER_BROADCAST@ + r + TPL_AFTER_ROUTER@ + h1
        + TPL_AFTER_HOST1@ + h0 + TPL_TAIL@
}

/// Render the diagram document for the given fields. A pure function: it
/// always succeeds, for any five strings, and its output is exactly the
/// template with the fields embedded as text content. No escaping happens
/// here; the caller must already have neutralized markup-significant
/// content.
pub fn render(inputs: &DiagramInputs) -> (out: String)
    ensures
        out@ == spec_render(
            inputs.network@,
            inputs.router@,
            inputs.host0@,
            inputs.host1@,
            inputs.broadcast@,
        ),
{
    let mut out = String::from_str(TPL_HEAD);
    out.append(inputs.network.as_str());
    out.append(TPL_AFTER_NETWORK);
    out.append(inputs.broadcast.as_str());
    out.append(TPL_AFTER_BROADCAST);
    out.append(inputs.router.as_str());
    out.append(TPL_AFTER_ROUTER);
    out.append(inputs.host1.as_str());
    out.append(TPL_AFTER_HOST1);
    out.append(inputs.host0.as_str());
    out.append(TPL_TAIL);
    out
}

/// Law: the renderer is a pure function of its five field values. Its
/// contract pins the output to `spec_render` of those values, so two calls
/// on character-identical fields yield character-identical documents.
pub proof fn lemma_render_deterministic(
    a: DiagramInputs,
    b: DiagramInputs,
    out_a: Seq<char>,
    out_b: Seq<char>,
)
    requires
        a.network@ == b.network@,
        a.router@ == b.router@,
        a.host0@ == b.host0@,
        a.host1@ == b.host1@,
        a.broadcast@ == b.broadcast@,
        out_a == spec_render(a.network@, a.router@, a.host0@, a.host1@, a.broadcast@),
        out_b == spec_render(b.network@, b.router@, b.host0@, b.host1@, b.broadcast@),
    ensures
        out_a == out_b,
{
}

/// Number of occurrences of the character `c` in `s`.
pub open spec fn count_char(s: Seq<char>, c: char) -> nat
    decreases s.len(),
{
    if s.len() == 0 {
        0
    } else {
        count_char(s.drop_last(), c) + if s.last() == c {
            1nat
        } else {
            0nat
        }
    }
}

/// Occurrences in a concatenation are the occurrences in the parts.
pub proof fn lemma_count_char_concat(a: Seq<char>, b: Seq<char>, c: char)
    ensures
        count_char(a + b, c) == count_char(a, c) + count_char(b, c),
    decreases b.len(),
{
    if b.len() == 0 {
        assert(a + b =~= a);
    } else {
        assert((a + b).drop_last() =~= a + b.drop_last());
        assert((a + b).last() == b.last());
        lemma_count_char_concat(a, b.drop_last(), c);
    }
}

/// Markup-free text holds no tag delimiter at all.
pub proof fn lemma_markup_free_count(s: Seq<char>, c: char)
    requires
        markup_free(s),
        c == '<' || c == '>',
    ensures
        count_char(s, c) == 0,
    decreases s.len(),
{
    if s.len() > 0 {
        assert(markup_free(s.drop_last()));
        lemma_markup_free_count(s.drop_last(), c);
    }
}

/// Law: markup-free fields contribute no markup to the rendered document.
/// The document rendered from five markup-free fields holds exactly as many
/// tag delimiters as the document rendered from five empty fields — every
/// '<' and '>' comes from the constant template, none from the inputs.
pub proof fn lemma_render_no_markup_from_inputs(
    n: Seq<char>,
    r: Seq<char>,
    h0: Seq<char>,
    h1: Seq<char>,
    br: Seq<char>,
    c: char,
)
    requires
        markup_free(n),
        markup_free(r),
        markup_free(h0),
        markup_free(h1),
        markup_free(br),
        c == '<' || c == '>',
    ensures
        count_char(spec_render(n, r, h0, h1, br), c) == count_char(
            spec_render(
                Seq::<char>::empty(),
                Seq::<char>::empty(),
                Seq::<char>::empty(),
                Seq::<char>::empty(),
                Seq::<char>::empty(),
            ),
            c,
        ),
{
    lemma_count_char_parts(n, r, h0, h1, br, c);
    lemma_count_char_parts(
        Seq::<char>::empty(),
        Seq::<char>::empty(),
        Seq::<char>::empty(),
        Seq::<char>::empty(),
        Seq::<char>::empty(),
        c,
    );
    lemma_markup_free_count(n, c);
    lemma_markup_free_count(r, c);
    lemma_markup_free_count(h0, c);
    lemma_markup_free_count(h1, c);
    lemma_markup_free_count(br, c);
    assert(markup_free(Seq::<char>::empty()));
    lemma_markup_free_count(Seq::<char>::empty(), c);
}

/// Occurrences in a rendered document, split over its eleven parts.
proof fn lemma_count_char_parts(
    n: Seq<char>,
    r: Seq<char>,
    h0: Seq<char>,
    h1: Seq<char>,
    br: Seq<char>,
    c: char,
)
    ensures
        count_char(spec_render(n, r, h0, h1, br), c) == count_char(TPL_HEAD@, c) + count_char(
            n,
            c,
        ) + count_char(TPL_AFTER_NETWORK@, c) + count_char(br, c) + count_char(
            TPL_AFTER_BROADCAST@,
            c,
        ) + count_char(r, c) + count_char(TPL_AFTER_ROUTER@, c) + count_char(h1, c) + count_char(
            TPL_AFTER_HOST1@,
            c,
        ) + count_char(h0, c) + count_char(TPL_TAIL@, c),
{
    let s1 = TPL_HEAD@ + n;
    let s2 = s1 + TPL_AFTER_NETWORK@;
    let s3 = s2 + br;
    let s4 = s3 + TPL_AFTER_BROADCAST@;
    let s5 = s4 + r;
    let s6 = s5 + TPL_AFTER_ROUTER@;
    let s7 = s6 + h1;
    let s8 = s7 + TPL_AFTER_HOST1@;
    let s9 = s8 + h0;
    lemma_count_char_concat(TPL_HEAD@, n, c);
    lemma_count_char_concat(s1, TPL_AFTER_NETWORK@, c);
    lemma_count_char_concat(s2, br, c);
    lemma_count_char_concat(s3, TPL_AFTER_BROADCAST@, c);
    lemma_count_char_concat(s4, r, c);
    lemma_count_char_concat(s5, TPL_AFTER_ROUTER@, c);
    lemma_count_char_concat(s6, h1, c);
    lemma_count_char_concat(s7, TPL_AFTER_HOST1@, c);
    lemma_count_char_concat(s8, h0, c);
    lemma_count_char_concat(s9, TPL_TAIL@, c);
}

} // verus!
