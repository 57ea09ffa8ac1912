//! The blocks that a loaded document is made of.

use vstd::prelude::*;

verus! {

/// One unit of a loaded document, in document order: a chapter heading or a
/// run of body text.
pub enum LabeledBlock {
    Heading(String),
    Body(String),
}

/// The mathematical value of a [`LabeledBlock`].
pub enum BlockSpec {
    Heading(Seq<char>),
    Body(Seq<char>),
}

impl View for LabeledBlock {
    type V = BlockSpec;

    open spec fn view(&self) -> BlockSpec {
        match self {
            LabeledBlock::Heading(text) => BlockSpec::Heading(text@),
            LabeledBlock::Body(text) => BlockSpec::Body(text@),
        }
    }
}

impl DeepView for LabeledBlock {
    type V = BlockSpec;

    open spec fn deep_view(&self) -> BlockSpec {
        self@
    }
}

impl BlockSpec {
    /// The text of the block.
    pub open spec fn text(self) -> Seq<char> {
        match self {
            BlockSpec::Heading(text) => text,
            BlockSpec::Body(text) => text,
        }
    }
}

impl LabeledBlock {
    /// Whether the block is a chapter heading.
    pub fn is_heading(&self) -> (r: bool)
        ensures
            r == (self@ is Heading),
    {
        match self {
            LabeledBlock::Heading(_) => true,
            LabeledBlock::Body(_) => false,
        }
    }

    /// The text of the block.
    pub fn text(&self) -> (r: &str)
        ensures
            r@ == self@.text(),
    {
        match self {
            LabeledBlock::Heading(text) => text.as_str(),
            LabeledBlock::Body(text) => text.as_str(),
        }
    }
}

} // verus!
