//! Markdown-to-HTML transformation: a deterministic pure function of the
//! input text, so cached output never goes stale and repeated rendering is
//! byte-identical.

use vstd::prelude::*;

verus! {

/// The HTML that GitHub-flavored Markdown rendering produces for a text: a
/// function of the text alone.
pub uninterp spec fn gfm_html_of(text: Seq<char>) -> Seq<char>;

/// Relies on `markdown::to_html_with_options` with `markdown::Options::gfm()`:
/// the output depends on the input text alone, and with MDX off the call
/// never fails (its documentation: "`to_html_with_options()` never errors
/// with normal markdown because markdown does not have syntax errors").
#[verifier::external_body]
fn gfm_to_html(text: &str) -> (r: String)
    ensures
        r@ == gfm_html_of(text@),
{
    match markdown::to_html_with_options(text, &markdown::Options::gfm()) {
        Ok(html) => html,
        // Unreachable without MDX; see the doc comment.
        Err(_) => String::new(),
    }
}

/// Renders GitHub-flavored Markdown (tables, strikethrough, task lists) to
/// HTML.
pub fn markdown_to_html(text: &str) -> (r: String)
    ensures
        r@ == gfm_html_of(text@),
{
    gfm_to_html(text)
}

/// Transforming the same Markdown text twice yields byte-identical HTML:
/// the rendered output is a function of the input text alone.
pub proof fn lemma_markdown_transform_repeatable(a: Seq<char>, b: Seq<char>)
    requires
        a == b,
    ensures
        gfm_html_of(a) == gfm_html_of(b),
{
}

} // verus!
