//! What flow layout asks of a block-level node.

use crate::align::RawAlign;
use crate::frame::Frame;
use crate::geom::Axes;
use crate::regions::Regions;
use crate::style::StyleChain;
use vstd::prelude::*;

verus! {

/// Why a node could not be laid out.
#[derive(Clone, Debug, PartialEq, Eq)]
pub struct LayoutError {
    /// Where in the source the failure arose.
    pub span: u64,
    /// What went wrong.
    pub message: String,
}

/// Whether a node takes part in the vertical flow or in a line of text.
#[derive(Clone, Copy, Debug, PartialEq, Eq, Structural, Hash)]
pub enum Level {
    /// The node sits in a line of text.
    Inline,
    /// The node is stacked with other blocks.
    Block,
}

/// What a node that places its content answers when asked about it.
#[derive(Clone, Copy, Debug, PartialEq, Eq, Structural, Hash)]
pub struct Placement {
    /// Whether the content is taken out of the flow around it.
    pub out_of_flow: bool,
}

/// What a node that aligns its content answers when asked about it.
#[derive(Clone, Copy, Debug, PartialEq, Eq, Hash)]
pub struct Alignment {
    /// How the content is aligned on each axis, where that is given.
    pub aligns: Axes<Option<RawAlign>>,
}

/// A node that can be laid out into regions.
///
/// Flow layout relies on nothing about what an implementation returns: it
/// accepts any frames, in any number.
pub trait Layout {
    /// Lays the node out into the given regions, producing one frame for
    /// each region that it takes up.
    fn layout(&self, regions: &Regions, styles: StyleChain) -> Result<Vec<Frame>, LayoutError>;

    /// Whether this is an inline-level or a block-level node.
    fn level(&self) -> Level;

    /// The placement of this node, if it is one that places its content.
    fn as_placement(&self) -> (placement: Option<Placement>)
        default_ensures
            placement is None,
    {
        None
    }

    /// The alignment of this node, if it is one that aligns its content.
    fn as_alignment(&self) -> (alignment: Option<Alignment>)
        default_ensures
            alignment is None,
    {
        None
    }
}

} // verus!
