//! Rewriting captured toolchain output for the web client.
//!
//! The toolchain colours its output with ANSI escape sequences. Before the
//! output goes back to the caller, it is converted to HTML; if the converter
//! rejects the text, the raw text is returned unchanged.

use vstd::prelude::*;

verus! {

/// What the ANSI-to-HTML converter returns for a given text: `Some` with the
/// HTML when the text converts, `None` when the converter rejects it. The
/// result depends on the text alone.
pub uninterp spec fn ansi_html_of(s: Seq<char>) -> Option<Seq<char>>;

/// Relies on ansi_to_html::convert: escapes the HTML metacharacters and
/// rewrites ANSI escape sequences to HTML tags; a pure function of the input
/// string, failing exactly on texts it cannot parse.
#[verifier::external_body]
fn ansi_convert(s: &str) -> (r: Option<String>)
    ensures
        r.deep_view() == ansi_html_of(s@),
{
    ansi_to_html::convert(s).ok()
}

/// What one captured stream looks like to the caller: the HTML rendering when
/// the text converts, the raw text unchanged otherwise.
pub open spec fn spec_render(s: Seq<char>) -> Seq<char> {
    match ansi_html_of(s) {
        Some(h) => h,
        None => s,
    }
}

/// Rewrites one captured stream for the caller. Total: a text the converter
/// rejects is passed through unchanged rather than failing the request.
pub fn render_output(raw: String) -> (r: String)
    ensures
        r@ == spec_render(raw@),
{
    match ansi_convert(raw.as_str()) {
        Some(h) => h,
        None => raw,
    }
}

} // verus!
