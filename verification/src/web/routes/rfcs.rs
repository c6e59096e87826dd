use vstd::prelude::*;

use pulldown_cmark::{html, Options, Parser};

verus! {

/// The extensions of RFC files: `md` and `markdown`.
pub fn is_markdown_extension(extension: &str) -> (b: bool)
    ensures
        b == (extension@ == "md"@ || extension@ == "markdown"@),
{
    let e = extension.to_owned();
    let md = "md".to_owned();
    let markdown = "markdown".to_owned();
    e == md || e == markdown
}

/// The HTML that pulldown-cmark renders from the markdown `md` with no
/// extension on (`Options::empty()`): plain CommonMark.
pub uninterp spec fn commonmark_html(md: Seq<char>) -> Seq<char>;

/// `html::push_html` into an empty string of `Parser::new_ext(md,
/// Options::empty())`: the HTML of `md` read as plain CommonMark.
#[verifier::external_body]
fn push_commonmark_html(md: &str) -> (out: String)
    ensures
        out@ == commonmark_html(md@),
{
    let mut out = String::new();
    html::push_html(&mut out, Parser::new_ext(md, Options::empty()));
    out
}

/// The HTML of the RFC index's introduction, read as plain CommonMark.
pub fn render_md(md: &str) -> (out: String)
    ensures
        out@ == commonmark_html(md@),
{
    push_commonmark_html(md)
}

} // verus!
