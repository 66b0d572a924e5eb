//! Alignment along an axis.

use crate::geom::Abs;
use crate::style::StyleChain;
use vstd::prelude::*;

verus! {

/// Where to put content along an axis that has room to spare.
///
/// The variants are ordered from the start of the axis to its end.
#[derive(Clone, Copy, Debug, PartialEq, Eq, Structural, Hash)]
pub enum Align {
    /// At the start of the axis: left, or top.
    Start,
    /// In the middle of the axis.
    Center,
    /// At the end of the axis: right, or bottom.
    End,
}

impl Align {
    /// The place of this alignment in the order from start to end.
    pub open spec fn rank(self) -> int {
        match self {
            Align::Start => 0,
            Align::Center => 1,
            Align::End => 2,
        }
    }

    pub open spec fn spec_max(self, other: Align) -> Align {
        if self.rank() >= other.rank() {
            self
        } else {
            other
        }
    }

    /// The alignment of the two that lies further toward the end of the axis.
    #[verifier::when_used_as_spec(spec_max)]
    pub fn max(self, other: Align) -> (r: Align)
        ensures
            r == self.spec_max(other),
    {
        match (self, other) {
            (Align::End, _) => Align::End,
            (_, Align::End) => Align::End,
            (Align::Center, _) => Align::Center,
            (_, Align::Center) => Align::Center,
            _ => Align::Start,
        }
    }

    pub open spec fn spec_position(self, free: Abs) -> Abs {
        match self {
            Align::Start => Abs::Finite(0),
            Align::Center => free.spec_half(),
            Align::End => free,
        }
    }

    /// The offset of content that is aligned this way in a container that has
    /// `free` room to spare: none of it at the start, half of it in the
    /// middle, all of it at the end.
    #[verifier::when_used_as_spec(spec_position)]
    pub fn position(self, free: Abs) -> (r: Abs)
        ensures
            r == self.spec_position(free),
    {
        match self {
            Align::Start => Abs::Finite(0),
            Align::Center => free.half(),
            Align::End => free,
        }
    }
}

/// The direction in which text runs.
#[derive(Clone, Copy, Debug, PartialEq, Eq, Structural, Hash)]
pub enum Dir {
    /// From the start of the axis to its end.
    Ltr,
    /// From the end of the axis to its start.
    Rtl,
}

/// An alignment as written, before the text direction is known.
#[derive(Clone, Copy, Debug, PartialEq, Eq, Structural, Hash)]
pub enum RawAlign {
    /// Where text starts.
    Start,
    /// Where text ends.
    End,
    /// A fixed alignment.
    Specific(Align),
}

impl RawAlign {
    pub open spec fn spec_resolve(self, styles: StyleChain) -> Align {
        match self {
            RawAlign::Specific(align) => align,
            RawAlign::Start => match styles.dir {
                Dir::Ltr => Align::Start,
                Dir::Rtl => Align::End,
            },
            RawAlign::End => match styles.dir {
                Dir::Ltr => Align::End,
                Dir::Rtl => Align::Start,
            },
        }
    }

    /// The alignment that this stands for under the text direction of
    /// `styles`.
    pub fn resolve(self, styles: &StyleChain) -> (r: Align)
        ensures
            r == self.spec_resolve(*styles),
    {
        match self {
            RawAlign::Specific(align) => align,
            RawAlign::Start => match styles.dir {
                Dir::Ltr => Align::Start,
                Dir::Rtl => Align::End,
            },
            RawAlign::End => match styles.dir {
                Dir::Ltr => Align::End,
                Dir::Rtl => Align::Start,
            },
        }
    }
}

} // verus!
