use vstd::prelude::*;

verus! {

/// Why building the styled-markup document failed. Highlighting a fenced
/// code block is the only step of the markup renderer that can fail; the
/// failure is propagated and no partial document is returned.
#[derive(Clone, Copy, PartialEq, Eq, Structural, Debug)]
pub enum RenderError {
    Highlight,
}

} // verus!
