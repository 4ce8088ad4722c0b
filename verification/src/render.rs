use vstd::prelude::*;
use vstd::string::*;
use crate::errors::RenderError;
use crate::escape::{escape_html, escape_seq};
use crate::events::{MdEvent, MdTag};
use crate::highlight::{highlight_block, highlight_of, highlight_ok};
use crate::template::{get_html_template, html_template};
use crate::tokenize::{md_events_of, tokenize};

verus! {

/// The state of the markup renderer: outside any fenced code block, or
/// inside one, accumulating its raw text and holding its language hint.
pub ghost enum ModeSpec {
    Normal,
    InCode { code: Seq<char>, lang: Seq<char> },
}

/// The renderer state as carried by the single pass over the events.
pub enum RenderMode {
    Normal,
    InCode { code: String, lang: String },
}

impl View for RenderMode {
    type V = ModeSpec;

    open spec fn view(&self) -> ModeSpec {
        match self {
            RenderMode::Normal => ModeSpec::Normal,
            RenderMode::InCode { code, lang } => ModeSpec::InCode {
                code: code@,
                lang: lang@,
            },
        }
    }
}

pub open spec fn heading_open_seq(level: u8) -> Seq<char> {
    if level == 1 {
        "<h1>"@
    } else if level == 2 {
        "<h2>"@
    } else if level == 3 {
        "<h3>"@
    } else if level == 4 {
        "<h4>"@
    } else if level == 5 {
        "<h5>"@
    } else if level == 6 {
        "<h6>"@
    } else {
        Seq::empty()
    }
}

pub open spec fn heading_close_seq(level: u8) -> Seq<char> {
    if level == 1 {
        "</h1>"@
    } else if level == 2 {
        "</h2>"@
    } else if level == 3 {
        "</h3>"@
    } else if level == 4 {
        "</h4>"@
    } else if level == 5 {
        "</h5>"@
    } else if level == 6 {
        "</h6>"@
    } else {
        Seq::empty()
    }
}

/// The markup that opens a container, per the mapping table. A fenced code
/// block opens no markup here: the state machine handles it.
pub open spec fn open_seq(t: MdTag) -> Seq<char> {
    match t {
        MdTag::Paragraph => "<p>"@,
        MdTag::Heading(level) => heading_open_seq(level),
        MdTag::BlockQuote => "<blockquote>"@,
        MdTag::CodeBlock(_) => Seq::empty(),
        MdTag::List(ordered) => if ordered {
            "<ol>"@
        } else {
            "<ul>"@
        },
        MdTag::Item => "<li>"@,
        MdTag::Table => "<table>"@,
        MdTag::TableHead => "<thead>"@,
        MdTag::TableRow => "<tr>"@,
        MdTag::TableCell => "<td>"@,
        MdTag::Emphasis => "<em>"@,
        MdTag::Strong => "<strong>"@,
        MdTag::Link(url, title) => "<a href=\""@ + url@ + "\" title=\""@ + escape_seq(title@)
            + "\">"@,
        MdTag::Image(url, title) => "<img src=\""@ + url@ + "\" alt=\""@ + escape_seq(title@)
            + "\" />"@,
        MdTag::Other => Seq::empty(),
    }
}

/// The markup that closes a container. An image is self-closing and a
/// fenced code block is handled by the state machine: both close nothing.
pub open spec fn close_seq(t: MdTag) -> Seq<char> {
    match t {
        MdTag::Paragraph => "</p>"@,
        MdTag::Heading(level) => heading_close_seq(level),
        MdTag::BlockQuote => "</blockquote>"@,
        MdTag::CodeBlock(_) => Seq::empty(),
        MdTag::List(ordered) => if ordered {
            "</ol>"@
        } else {
            "</ul>"@
        },
        MdTag::Item => "</li>"@,
        MdTag::Table => "</table>"@,
        MdTag::TableHead => "</thead>"@,
        MdTag::TableRow => "</tr>"@,
        MdTag::TableCell => "</td>"@,
        MdTag::Emphasis => "</em>"@,
        MdTag::Strong => "</strong>"@,
        MdTag::Link(_, _) => "</a>"@,
        MdTag::Image(_, _) => Seq::empty(),
        MdTag::Other => Seq::empty(),
    }
}

pub open spec fn code_block_open() -> Seq<char> {
    "<div class=\"code-block\"><pre><code>"@
}

pub open spec fn code_block_close() -> Seq<char> {
    "</code></pre></div>"@
}

/// The markup of the events whose output does not depend on the renderer
/// state. Literal text and the fenced-code-block fences are handled by the
/// state machine and contribute nothing here.
pub open spec fn flow_seq(ev: MdEvent) -> Seq<char> {
    match ev {
        MdEvent::Start(t) => open_seq(t),
        MdEvent::End(t) => close_seq(t),
        MdEvent::Text(_) => Seq::empty(),
        MdEvent::CodeSpan(s) => "<code class=\"inline-code\">"@ + escape_seq(s@) + "</code>"@,
        MdEvent::SoftBreak => " "@,
        MdEvent::HardBreak => "<br />"@,
        MdEvent::Rule => "<hr />"@,
        MdEvent::Other => Seq::empty(),
    }
}

/// One transition of the two-state renderer: from the current mode and one
/// event to the next mode and the markup emitted for that event. `None`
/// means the conversion fails there (highlighting failed); no document is
/// produced.
///
/// A fenced-code-block start opens a fresh accumulator and captures the
/// language hint. While inside, literal text appends to the accumulator
/// verbatim. The matching end highlights the accumulated text, emits the
/// fragment inside the fixed code-block container, and discards the
/// accumulator. A code-block end seen outside any code block is not covered
/// by the mapping table and emits nothing. Every other event emits its
/// markup whatever the mode.
pub open spec fn step_of(m: ModeSpec, ev: MdEvent) -> Option<(ModeSpec, Seq<char>)> {
    match ev {
        MdEvent::Start(MdTag::CodeBlock(lang)) => Some(
            (ModeSpec::InCode { code: Seq::empty(), lang: lang@ }, Seq::<char>::empty()),
        ),
        MdEvent::End(MdTag::CodeBlock(_)) => match m {
            ModeSpec::InCode { code, lang } => if highlight_ok(code, lang) {
                Some(
                    (
                        ModeSpec::Normal,
                        code_block_open() + highlight_of(code, lang) + code_block_close(),
                    ),
                )
            } else {
                None
            },
            ModeSpec::Normal => Some((m, Seq::<char>::empty())),
        },
        MdEvent::Text(t) => match m {
            ModeSpec::InCode { code, lang } => Some(
                (ModeSpec::InCode { code: code + t@, lang }, Seq::<char>::empty()),
            ),
            ModeSpec::Normal => Some((m, escape_seq(t@))),
        },
        _ => Some((m, flow_seq(ev))),
    }
}

/// The renderer state and the markup emitted after the first `n` events,
/// starting in `Normal` with an empty document body.
pub open spec fn fold_of(evs: Seq<MdEvent>, n: int) -> Option<(ModeSpec, Seq<char>)>
    decreases n,
{
    if n <= 0 {
        Some((ModeSpec::Normal, Seq::<char>::empty()))
    } else {
        match fold_of(evs, n - 1) {
            Option::None => None,
            Option::Some(st) => match step_of(st.0, evs[n - 1]) {
                Option::None => None,
                Option::Some(st2) => Some((st2.0, st.1 + st2.1)),
            },
        }
    }
}

/// The document body produced from a whole event stream, or `None` when the
/// conversion fails.
pub open spec fn body_of(evs: Seq<MdEvent>) -> Option<Seq<char>> {
    match fold_of(evs, evs.len() as int) {
        Option::Some(st) => Some(st.1),
        Option::None => None,
    }
}

pub open spec fn doc_prefix() -> Seq<char> {
    html_template() + "<body><div class=\"container\">"@
}

pub open spec fn doc_suffix() -> Seq<char> {
    "</div></body></html>"@
}

/// The complete styled-markup document for an event stream: the styling
/// template, the opening boilerplate, the rendered body and the closing
/// boilerplate — or `None` when the conversion fails.
pub open spec fn doc_of(evs: Seq<MdEvent>) -> Option<Seq<char>> {
    match body_of(evs) {
        Option::Some(b) => Some(doc_prefix() + b + doc_suffix()),
        Option::None => None,
    }
}

/// Once a step fails, the whole conversion fails: the fold stays `None`.
pub proof fn lemma_fold_none_persists(evs: Seq<MdEvent>, a: int, b: int)
    requires
        0 <= a <= b,
        fold_of(evs, a) is None,
    ensures
        fold_of(evs, b) is None,
    decreases b - a,
{
    if a < b {
        lemma_fold_none_persists(evs, a, b - 1);
    }
}

fn heading_open_str(level: u8) -> (r: &'static str)
    ensures
        r@ == heading_open_seq(level),
{
    proof {
        reveal_strlit("");
        assert(""@ =~= Seq::<char>::empty());
    }
    if level == 1 {
        "<h1>"
    } else if level == 2 {
        "<h2>"
    } else if level == 3 {
        "<h3>"
    } else if level == 4 {
        "<h4>"
    } else if level == 5 {
        "<h5>"
    } else if level == 6 {
        "<h6>"
    } else {
        ""
    }
}

fn heading_close_str(level: u8) -> (r: &'static str)
    ensures
        r@ == heading_close_seq(level),
{
    proof {
        reveal_strlit("");
        assert(""@ =~= Seq::<char>::empty());
    }
    if level == 1 {
        "</h1>"
    } else if level == 2 {
        "</h2>"
    } else if level == 3 {
        "</h3>"
    } else if level == 4 {
        "</h4>"
    } else if level == 5 {
        "</h5>"
    } else if level == 6 {
        "</h6>"
    } else {
        ""
    }
}

/// Emit the opening markup of a container onto `out`.
fn emit_open(t: &MdTag, out: &mut String)
    ensures
        final(out)@ == old(out)@ + open_seq(*t),
{
    match t {
        MdTag::Paragraph => out.append("<p>"),
        MdTag::Heading(level) => out.append(heading_open_str(*level)),
        MdTag::BlockQuote => out.append("<blockquote>"),
        MdTag::CodeBlock(_) => {
            proof {
                assert(old(out)@ + open_seq(*t) =~= old(out)@);
            }
        },
        MdTag::List(ordered) => if *ordered {
            out.append("<ol>")
        } else {
            out.append("<ul>")
        },
        MdTag::Item => out.append("<li>"),
        MdTag::Table => out.append("<table>"),
        MdTag::TableHead => out.append("<thead>"),
        MdTag::TableRow => out.append("<tr>"),
        MdTag::TableCell => out.append("<td>"),
        MdTag::Emphasis => out.append("<em>"),
        MdTag::Strong => out.append("<strong>"),
        MdTag::Link(url, title) => {
            out.append("<a href=\"");
            out.append(url.as_str());
            out.append("\" title=\"");
            let e = escape_html(title.as_str());
            out.append(e.as_str());
            out.append("\">");
            proof {
                assert(out@ =~= old(out)@ + open_seq(*t));
            }
        },
        MdTag::Image(url, title) => {
            out.append("<img src=\"");
            out.append(url.as_str());
            out.append("\" alt=\"");
            let e = escape_html(title.as_str());
            out.append(e.as_str());
            out.append("\" />");
            proof {
                assert(out@ =~= old(out)@ + open_seq(*t));
            }
        },
        MdTag::Other => {
            proof {
                assert(old(out)@ + open_seq(*t) =~= old(out)@);
            }
        },
    }
}

/// Emit the closing markup of a container onto `out`.
fn emit_close(t: &MdTag, out: &mut String)
    ensures
        final(out)@ == old(out)@ + close_seq(*t),
{
    match t {
        MdTag::Paragraph => out.append("</p>"),
        MdTag::Heading(level) => out.append(heading_close_str(*level)),
        MdTag::BlockQuote => out.append("</blockquote>"),
        MdTag::CodeBlock(_) => {
            proof {
                assert(old(out)@ + close_seq(*t) =~= old(out)@);
            }
        },
        MdTag::List(ordered) => if *ordered {
            out.append("</ol>")
        } else {
            out.append("</ul>")
        },
        MdTag::Item => out.append("</li>"),
        MdTag::Table => out.append("</table>"),
        MdTag::TableHead => out.append("</thead>"),
        MdTag::TableRow => out.append("</tr>"),
        MdTag::TableCell => out.append("</td>"),
        MdTag::Emphasis => out.append("</em>"),
        MdTag::Strong => out.append("</strong>"),
        MdTag::Link(_, _) => out.append("</a>"),
        MdTag::Image(_, _) => {
            proof {
                assert(old(out)@ + close_seq(*t) =~= old(out)@);
            }
        },
        MdTag::Other => {
            proof {
                assert(old(out)@ + close_seq(*t) =~= old(out)@);
            }
        },
    }
}

/// One pass of the renderer over a single event: take the current mode,
/// emit this event's markup onto `out`, and hand back the next mode, or the
/// conversion failure.
fn step_exec(m: RenderMode, ev: &MdEvent, out: &mut String) -> (r: Result<RenderMode, RenderError>)
    ensures
        (r matches Ok(m2) ==> {
            &&& step_of(m@, *ev) matches Some(st)
            &&& m2@ == st.0
            &&& final(out)@ == old(out)@ + st.1
        }),
        (r matches Err(e) ==> {
            &&& step_of(m@, *ev) is None
            &&& e == RenderError::Highlight
            &&& final(out)@ == old(out)@
        }),
{
    match ev {
        MdEvent::Start(MdTag::CodeBlock(lang)) => {
            proof {
                assert(out@ + Seq::<char>::empty() =~= out@);
            }
            Ok(RenderMode::InCode { code: String::new(), lang: lang.clone() })
        },
        MdEvent::End(MdTag::CodeBlock(_)) => match m {
            RenderMode::InCode { code, lang } => {
                match highlight_block(code.as_str(), lang.as_str()) {
                    Ok(frag) => {
                        out.append("<div class=\"code-block\"><pre><code>");
                        out.append(frag.as_str());
                        out.append("</code></pre></div>");
                        proof {
                            assert(out@ =~= old(out)@ + (code_block_open() + highlight_of(
                                code@,
                                lang@,
                            ) + code_block_close()));
                        }
                        Ok(RenderMode::Normal)
                    },
                    Err(e) => Err(e),
                }
            },
            RenderMode::Normal => {
                proof {
                    assert(out@ + Seq::<char>::empty() =~= out@);
                }
                Ok(RenderMode::Normal)
            },
        },
        MdEvent::Text(t) => match m {
            RenderMode::InCode { mut code, lang } => {
                code.append(t.as_str());
                proof {
                    assert(out@ + Seq::<char>::empty() =~= out@);
                }
                Ok(RenderMode::InCode { code, lang })
            },
            RenderMode::Normal => {
                let e = escape_html(t.as_str());
                out.append(e.as_str());
                Ok(RenderMode::Normal)
            },
        },
        MdEvent::CodeSpan(t) => {
            out.append("<code class=\"inline-code\">");
            let e = escape_html(t.as_str());
            out.append(e.as_str());
            out.append("</code>");
            proof {
                assert(out@ =~= old(out)@ + flow_seq(*ev));
            }
            Ok(m)
        },
        MdEvent::Start(t) => {
            emit_open(t, out);
            Ok(m)
        },
        MdEvent::End(t) => {
            emit_close(t, out);
            Ok(m)
        },
        MdEvent::SoftBreak => {
            out.append(" ");
            Ok(m)
        },
        MdEvent::HardBreak => {
            out.append("<br />");
            Ok(m)
        },
        MdEvent::Rule => {
            out.append("<hr />");
            Ok(m)
        },
        MdEvent::Other => {
            proof {
                assert(out@ + Seq::<char>::empty() =~= out@);
            }
            Ok(m)
        },
    }
}

/// The markup renderer: one left-to-right pass over the event stream,
/// producing the complete styled-markup document, or the conversion failure
/// when highlighting a fenced code block fails (no partial document is
/// returned).
pub fn render_events(events: &Vec<MdEvent>) -> (r: Result<String, RenderError>)
    ensures
        (r matches Ok(s) ==> doc_of(events@) == Some(s@)),
        (r matches Err(e) ==> doc_of(events@) is None && e == RenderError::Highlight),
{
    let mut out = get_html_template();
    out.append("<body><div class=\"container\">");
    proof {
        assert(out@ =~= doc_prefix() + Seq::<char>::empty());
    }
    let mut mode = RenderMode::Normal;
    let n = events.len();
    let mut i: usize = 0;
    while i < n
        invariant
            i <= n,
            n == events@.len(),
            fold_of(events@, i as int) matches Some(st) && st.0 == mode@ && out@ == doc_prefix()
                + st.1,
        decreases n - i,
    {
        let ev = &events[i];
        let ghost pre = fold_of(events@, i as int)->Some_0;
        match step_exec(mode, ev, &mut out) {
            Ok(m2) => {
                proof {
                    let st2 = step_of(pre.0, events@[i as int])->Some_0;
                    assert(fold_of(events@, i + 1) matches Some(q) && q.0 == m2@ && q.1 == pre.1
                        + st2.1);
                    assert(doc_prefix() + (pre.1 + st2.1) =~= (doc_prefix() + pre.1) + st2.1);
                }
                mode = m2;
            },
            Err(e) => {
                proof {
                    assert(fold_of(events@, i + 1) is None);
                    lemma_fold_none_persists(events@, i + 1, events@.len() as int);
                }
                return Err(e);
            },
        }
        i = i + 1;
    }
    out.append("</div></body></html>");
    proof {
        let st = fold_of(events@, n as int)->Some_0;
        assert(out@ =~= doc_prefix() + st.1 + doc_suffix());
    }
    Ok(out)
}

/// Convert markdown source text into the complete styled-markup document:
/// tokenize the text, then render the event stream. Fails exactly when
/// highlighting one of the fenced code blocks fails, and then no document
/// is produced.
pub fn markdown_to_html(markdown: &str) -> (r: Result<String, RenderError>)
    ensures
        (r matches Ok(s) ==> doc_of(md_events_of(markdown@)) == Some(s@)),
        (r matches Err(e) ==> doc_of(md_events_of(markdown@)) is None && e
            == RenderError::Highlight),
{
    let events = tokenize(markdown);
    render_events(&events)
}

/// A needle occurs at a given position of a haystack.
pub open spec fn seq_contains_at(hay: Seq<char>, at: int, needle: Seq<char>) -> bool {
    0 <= at && at + needle.len() <= hay.len() && hay.subrange(at, at + needle.len() as int)
        == needle
}

/// The fold only appends: what is emitted after `m` events stands
/// unchanged at the front of what is emitted after `n` events.
pub proof fn lemma_fold_prefix(evs: Seq<MdEvent>, m: int, n: int)
    requires
        0 <= m <= n,
        fold_of(evs, n) is Some,
    ensures
        fold_of(evs, m) is Some,
        fold_of(evs, m)->Some_0.1.len() <= fold_of(evs, n)->Some_0.1.len(),
        fold_of(evs, n)->Some_0.1.take(fold_of(evs, m)->Some_0.1.len() as int) == fold_of(
            evs,
            m,
        )->Some_0.1,
    decreases n - m,
{
    if m < n {
        assert(fold_of(evs, n - 1) is Some);
        lemma_fold_prefix(evs, m, n - 1);
        let a = fold_of(evs, m)->Some_0.1;
        let b = fold_of(evs, n - 1)->Some_0.1;
        let c = fold_of(evs, n)->Some_0.1;
        assert(c.take(b.len() as int) =~= b);
        assert(c.take(a.len() as int) =~= b.take(a.len() as int));
    } else {
        let a = fold_of(evs, m)->Some_0.1;
        assert(a.take(a.len() as int) =~= a);
    }
}

proof fn lemma_contains_at_prefix(a: Seq<char>, b: Seq<char>, at: int, x: Seq<char>)
    requires
        a.len() <= b.len(),
        b.take(a.len() as int) == a,
        seq_contains_at(a, at, x),
    ensures
        seq_contains_at(b, at, x),
{
    assert(b.subrange(at, at + x.len() as int) =~= a.subrange(at, at + x.len() as int));
}

proof fn lemma_contains_at_shift(
    pre: Seq<char>,
    mid: Seq<char>,
    suf: Seq<char>,
    at: int,
    x: Seq<char>,
)
    requires
        seq_contains_at(mid, at, x),
    ensures
        seq_contains_at(pre + mid + suf, pre.len() + at, x),
{
    assert((pre + mid + suf).subrange(pre.len() + at, pre.len() + at + x.len() as int)
        =~= mid.subrange(at, at + x.len() as int));
}

/// Law: for every heading start/end event pair of a level the source can
/// carry (1 through 6), the finished document contains the opening marker
/// of that level and, after it, the closing marker of that level.
pub proof fn lemma_heading_markers(evs: Seq<MdEvent>, i: int, j: int, level: u8, d: Seq<char>)
    requires
        doc_of(evs) == Some(d),
        0 <= i < j < evs.len(),
        evs[i] == MdEvent::Start(MdTag::Heading(level)),
        evs[j] == MdEvent::End(MdTag::Heading(level)),
        1 <= level <= 6,
    ensures
        exists|p: int, q: int|
            {
                &&& seq_contains_at(d, p, heading_open_seq(level))
                &&& seq_contains_at(d, q, heading_close_seq(level))
                &&& p + heading_open_seq(level).len() <= q
            },
{
    let n = evs.len() as int;
    let open = heading_open_seq(level);
    let close = heading_close_seq(level);
    assert(fold_of(evs, n) is Some);
    let outn = fold_of(evs, n)->Some_0.1;
    lemma_fold_prefix(evs, j + 1, n);
    lemma_fold_prefix(evs, j, j + 1);
    lemma_fold_prefix(evs, i + 1, j);
    lemma_fold_prefix(evs, i, i + 1);
    let sti = fold_of(evs, i)->Some_0;
    let sti1 = fold_of(evs, i + 1)->Some_0;
    let stj = fold_of(evs, j)->Some_0;
    let stj1 = fold_of(evs, j + 1)->Some_0;
    let p = sti.1.len() as int;
    let q = stj.1.len() as int;
    assert(sti1.1 == sti.1 + open);
    assert(stj1.1 == stj.1 + close);
    assert(seq_contains_at(sti1.1, p, open)) by {
        assert(sti1.1.subrange(p, p + open.len() as int) =~= open);
    }
    assert(seq_contains_at(stj1.1, q, close)) by {
        assert(stj1.1.subrange(q, q + close.len() as int) =~= close);
    }
    lemma_fold_prefix(evs, i + 1, j + 1);
    lemma_fold_prefix(evs, i + 1, n);
    lemma_contains_at_prefix(sti1.1, outn, p, open);
    lemma_contains_at_prefix(stj1.1, outn, q, close);
    assert(p + open.len() <= q);
    lemma_contains_at_shift(doc_prefix(), outn, doc_suffix(), p, open);
    lemma_contains_at_shift(doc_prefix(), outn, doc_suffix(), q, close);
    assert(d == doc_prefix() + outn + doc_suffix());
    let pfull = doc_prefix().len() + p;
    let qfull = doc_prefix().len() + q;
    assert(seq_contains_at(d, pfull, open) && seq_contains_at(d, qfull, close) && pfull
        + open.len() <= qfull);
}

} // verus!
