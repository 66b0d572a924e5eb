//! The regions that content is laid out into.

use crate::geom::{Abs, Axes, Size};
use vstd::prelude::*;

verus! {

/// A region whose remaining height is at most this many raw units is full.
pub const EPSILON: i64 = 1;

/// A sequence of regions to lay out into: one to start with, and the heights
/// of those that follow it. All regions are as wide as the first.
#[derive(Debug, PartialEq, Eq)]
pub struct Regions {
    /// What is left of the current region. The height may be infinite.
    pub first: Size,
    /// The heights of the regions that follow, in order.
    pub backlog: Vec<Abs>,
    /// Whether a frame laid out into a region should fill it on each axis, or
    /// shrink to fit its content.
    pub expand: Axes<bool>,
}

/// What a [`Regions`] holds, as a mathematical value.
pub ghost struct RegionsView {
    pub first: Size,
    pub backlog: Seq<Abs>,
    pub expand: Axes<bool>,
}

impl RegionsView {
    /// Whether the current region has no room left.
    pub open spec fn is_full(self) -> bool {
        self.first.y.ext() <= EPSILON
    }

    /// The regions after the current one was left behind. Where no region
    /// follows, the current one stays, with what is left of it.
    pub open spec fn next(self) -> RegionsView {
        if self.backlog.len() > 0 {
            RegionsView {
                first: Size { x: self.first.x, y: self.backlog[0] },
                backlog: self.backlog.drop_first(),
                expand: self.expand,
            }
        } else {
            self
        }
    }
}

impl View for Regions {
    type V = RegionsView;

    open spec fn view(&self) -> RegionsView {
        RegionsView { first: self.first, backlog: self.backlog@, expand: self.expand }
    }
}

impl Regions {
    /// A single region of the given size.
    pub fn one(size: Size, expand: Axes<bool>) -> (r: Regions)
        ensures
            r@ == (RegionsView { first: size, backlog: Seq::empty(), expand }),
    {
        Regions { first: size, backlog: Vec::new(), expand }
    }

    /// A region of the given size, followed by one region for each height in
    /// `backlog`.
    pub fn with_backlog(size: Size, backlog: Vec<Abs>, expand: Axes<bool>) -> (r: Regions)
        ensures
            r@ == (RegionsView { first: size, backlog: backlog@, expand }),
    {
        Regions { first: size, backlog, expand }
    }

    /// Whether the current region has no room left.
    pub fn is_full(&self) -> (b: bool)
        ensures
            b == self@.is_full(),
    {
        self.first.y.le(Abs::Finite(EPSILON))
    }

    /// Advances to the next region, if there is one.
    pub fn next(&mut self)
        ensures
            final(self)@ == old(self)@.next(),
    {
        if self.backlog.len() > 0 {
            let height = self.backlog.remove(0);
            self.first.y = height;
        }
    }

    /// A copy of these regions.
    pub fn duplicate(&self) -> (r: Regions)
        ensures
            r@ == self@,
    {
        let mut backlog: Vec<Abs> = Vec::new();
        let mut i: usize = 0;
        while i < self.backlog.len()
            invariant
                i <= self.backlog.len(),
                backlog@ == self.backlog@.take(i as int),
            decreases self.backlog.len() - i,
        {
            backlog.push(self.backlog[i]);
            i += 1;
        }
        assert(self.backlog@.take(i as int) =~= self.backlog@);
        Regions { first: self.first, backlog, expand: self.expand }
    }
}

} // verus!
