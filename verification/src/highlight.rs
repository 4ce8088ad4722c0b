use vstd::prelude::*;
use crate::errors::RenderError;
use syntect::easy::HighlightLines;
use syntect::highlighting::ThemeSet;
use syntect::html::{styled_line_to_highlighted_html, IncludeBackground};
use syntect::parsing::SyntaxSet;
use syntect::util::LinesWithEndings;

verus! {

/// The markup fragment that the code highlighter produces for a code block
/// with the given raw text and language hint. The highlighter works from
/// fixed grammar and theme data compiled into it, so the fragment is a
/// function of the two texts alone.
pub uninterp spec fn highlight_of(code: Seq<char>, lang: Seq<char>) -> Seq<char>;

/// Whether the code highlighter succeeds on a code block with the given raw
/// text and language hint. Resolving the hint cannot fail (plain text is
/// always available); only styling a line can, and deterministically so.
pub uninterp spec fn highlight_ok(code: Seq<char>, lang: Seq<char>) -> bool;

/// The code-highlighter adapter, an external collaborator. Relies on
/// syntect: `SyntaxSet::load_defaults_newlines` and `ThemeSet::load_defaults`
/// load fixed data compiled into the crate (the defaults include the
/// plain-text grammar and the "base16-ocean.dark" theme); the hint resolves
/// by token, then by file extension, then falls back to plain text, so
/// resolution never fails; `HighlightLines::highlight_line` styles the block
/// one line at a time (line terminators kept), and
/// `styled_line_to_highlighted_html` turns each line into a markup fragment
/// without background styling; the fragments are concatenated in line order.
/// The result therefore depends on the code text and the hint alone.
#[verifier::external_body]
pub(crate) fn highlight_block(code: &str, lang: &str) -> (r: Result<String, RenderError>)
    ensures
        (r matches Ok(f) ==> f@ == highlight_of(code@, lang@)),
        (r is Ok) == highlight_ok(code@, lang@),
{
    let ps = SyntaxSet::load_defaults_newlines();
    let ts = ThemeSet::load_defaults();
    let theme = ts.themes.get("base16-ocean.dark").ok_or(RenderError::Highlight)?;
    let syntax = ps
        .find_syntax_by_token(lang)
        .or_else(|| ps.find_syntax_by_extension(lang))
        .unwrap_or_else(|| ps.find_syntax_plain_text());
    let mut hl = HighlightLines::new(syntax, theme);
    let mut out = String::new();
    for line in LinesWithEndings::from(code) {
        let v = hl.highlight_line(line, &ps).map_err(|_| RenderError::Highlight)?;
        let h = styled_line_to_highlighted_html(&v[..], IncludeBackground::No);
        out.push_str(&h.map_err(|_| RenderError::Highlight)?);
    }
    Ok(out)
}

} // verus!
