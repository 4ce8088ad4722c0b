use vstd::prelude::*;
use crate::events::{MdEvent, MdTag};
use pulldown_cmark::{CodeBlockKind, Event, Options, Parser, Tag};

verus! {

#[verifier::external_type_specification]
#[verifier::external_body]
pub struct ExEvent<'a>(Event<'a>);

#[verifier::external_type_specification]
#[verifier::external_body]
pub struct ExTag<'a>(Tag<'a>);

/// The event stream that the document tokenizer reports for a source text.
/// The tokenizer holds no state besides the text and uses a fixed option
/// set, so the stream is a function of the text alone.
pub uninterp spec fn md_events_of(text: Seq<char>) -> Seq<MdEvent>;

/// Relies on pulldown-cmark's `Tag`: tells the block-level containers
/// apart, moving their plain fields over; every other container is handed
/// on unchanged.
#[verifier::external_body]
fn block_tag_of<'a>(t: Tag<'a>) -> MdTag {
    match t {
        Tag::Paragraph => MdTag::Paragraph,
        Tag::Heading(level, _, _) => MdTag::Heading(level as u8),
        Tag::BlockQuote => MdTag::BlockQuote,
        Tag::CodeBlock(CodeBlockKind::Fenced(lang)) => MdTag::CodeBlock(lang.to_string()),
        Tag::CodeBlock(_) => MdTag::CodeBlock(String::new()),
        Tag::List(Some(_)) => MdTag::List(true),
        Tag::List(None) => MdTag::List(false),
        Tag::Item => MdTag::Item,
        other => rest_tag_of(other),
    }
}

/// Relies on pulldown-cmark's `Tag`: tells the remaining containers apart,
/// moving their plain fields over; a container outside the mapping table
/// becomes `MdTag::Other`.
#[verifier::external_body]
fn rest_tag_of<'a>(t: Tag<'a>) -> MdTag {
    match t {
        Tag::Table(_) => MdTag::Table,
        Tag::TableHead => MdTag::TableHead,
        Tag::TableRow => MdTag::TableRow,
        Tag::TableCell => MdTag::TableCell,
        Tag::Emphasis => MdTag::Emphasis,
        Tag::Strong => MdTag::Strong,
        Tag::Link(_, url, title) => MdTag::Link(url.to_string(), title.to_string()),
        Tag::Image(_, url, title) => MdTag::Image(url.to_string(), title.to_string()),
        _ => MdTag::Other,
    }
}

/// Relies on pulldown-cmark's `Event`: tells the event kinds apart, moving
/// their plain fields over; an event outside the mapping table becomes
/// `MdEvent::Other`.
#[verifier::external_body]
fn event_of<'a>(e: Event<'a>) -> MdEvent {
    match e {
        Event::Start(t) => MdEvent::Start(block_tag_of(t)),
        Event::End(t) => MdEvent::End(block_tag_of(t)),
        Event::Text(s) => MdEvent::Text(s.to_string()),
        Event::Code(s) => MdEvent::CodeSpan(s.to_string()),
        Event::SoftBreak => MdEvent::SoftBreak,
        Event::HardBreak => MdEvent::HardBreak,
        Event::Rule => MdEvent::Rule,
        _ => MdEvent::Other,
    }
}

/// The document tokenizer, an external collaborator. Relies on
/// pulldown-cmark's `Parser`: it turns the source text into the ordered,
/// finite event stream, with strikethrough, tables, footnotes and task
/// lists enabled; parsing reads nothing but the text, so the stream is a
/// function of the text alone.
#[verifier::external_body]
pub(crate) fn tokenize(text: &str) -> (events: Vec<MdEvent>)
    ensures
        events@ == md_events_of(text@),
{
    let mut options = Options::empty();
    options.insert(Options::ENABLE_STRIKETHROUGH);
    options.insert(Options::ENABLE_TABLES);
    options.insert(Options::ENABLE_FOOTNOTES);
    options.insert(Options::ENABLE_TASKLISTS);
    Parser::new_ext(text, options).map(event_of).collect()
}

} // verus!
