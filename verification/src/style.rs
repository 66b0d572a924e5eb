//! The styles that flow layout reads.

use crate::align::{Align, Dir};
use crate::geom::Abs;
use vstd::prelude::*;

verus! {

/// The resolved styles in effect for one piece of content.
#[derive(Clone, Copy, Debug, PartialEq, Eq, Structural, Hash)]
pub struct StyleChain {
    /// The font size, which `em` lengths are measured in.
    pub font_size: Abs,
    /// The horizontal alignment of paragraphs.
    pub par_align: Align,
    /// The direction of text.
    pub dir: Dir,
}

/// Style overrides attached to one piece of content. A style that is not
/// set is inherited.
#[derive(Clone, Copy, Debug, PartialEq, Eq, Structural, Hash)]
pub struct StyleMap {
    /// The font size, if overridden.
    pub font_size: Option<Abs>,
    /// The paragraph alignment, if overridden.
    pub par_align: Option<Align>,
    /// The text direction, if overridden.
    pub dir: Option<Dir>,
}

impl StyleMap {
    /// The map that overrides nothing.
    pub fn new() -> (r: StyleMap)
        ensures
            r == (StyleMap { font_size: None, par_align: None, dir: None }),
    {
        StyleMap { font_size: None, par_align: None, dir: None }
    }

    pub open spec fn spec_chain(self, outer: StyleChain) -> StyleChain {
        StyleChain {
            font_size: match self.font_size {
                Some(v) => v,
                None => outer.font_size,
            },
            par_align: match self.par_align {
                Some(v) => v,
                None => outer.par_align,
            },
            dir: match self.dir {
                Some(v) => v,
                None => outer.dir,
            },
        }
    }

    /// The styles that result from applying these overrides on top of
    /// `outer`.
    pub fn chain(&self, outer: &StyleChain) -> (r: StyleChain)
        ensures
            r == self.spec_chain(*outer),
    {
        StyleChain {
            font_size: match self.font_size {
                Some(v) => v,
                None => outer.font_size,
            },
            par_align: match self.par_align {
                Some(v) => v,
                None => outer.par_align,
            },
            dir: match self.dir {
                Some(v) => v,
                None => outer.dir,
            },
        }
    }
}

} // verus!
