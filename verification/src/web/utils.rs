//! Rendering the markdown of the site's content.
use vstd::prelude::*;

use pulldown_cmark::{html, Options, Parser};

verus! {

/// The HTML that pulldown-cmark renders from the markdown `input` with every
/// extension it offers on (`Options::all()`): tables, footnotes,
/// strikethrough, task lists, smart punctuation, heading attributes and the
/// rest.
pub uninterp spec fn extended_markdown_html(input: Seq<char>) -> Seq<char>;

/// `html::push_html` into an empty string of `Parser::new_ext(input,
/// Options::all())`: the HTML of `input` read with every extension on.
#[verifier::external_body]
fn push_extended_markdown_html(input: &str) -> (out: String)
    ensures
        out@ == extended_markdown_html(input@),
{
    let mut out = String::new();
    html::push_html(&mut out, Parser::new_ext(input, Options::all()));
    out
}

/// The HTML of markdown content, every markdown extension on.
pub fn render_md(input: &str) -> (out: String)
    ensures
        out@ == extended_markdown_html(input@),
{
    push_extended_markdown_html(input)
}

} // verus!
