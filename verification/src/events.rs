use vstd::prelude::*;

verus! {

/// A container tag of the source document, reduced to plain values.
///
/// `CodeBlock` carries the language hint of a fenced code block, empty when
/// none was given. `List` carries whether the list is ordered. `Link` and
/// `Image` carry the raw target and the title. `Other` stands for every
/// container the mapping table does not cover; it renders to nothing.
pub enum MdTag {
    Paragraph,
    Heading(u8),
    BlockQuote,
    CodeBlock(String),
    List(bool),
    Item,
    Table,
    TableHead,
    TableRow,
    TableCell,
    Emphasis,
    Strong,
    Link(String, String),
    Image(String, String),
    Other,
}

/// One structural unit of the source document, as the tokenizer reports it.
///
/// `Text` is literal text; `CodeSpan` is an inline code span. `Other` stands
/// for every event the mapping table does not cover; it renders to nothing.
pub enum MdEvent {
    Start(MdTag),
    End(MdTag),
    Text(String),
    CodeSpan(String),
    SoftBreak,
    HardBreak,
    Rule,
    Other,
}

} // verus!
