//! The lengths that spacing is written in: relative to the font size,
//! relative to the region, or a share of what is left over.

use crate::geom::Abs;
use crate::style::StyleChain;
use vstd::prelude::*;

verus! {

/// How many parts of a [`Ratio`] make up the whole.
pub const RATIO_WHOLE: u64 = 1_000_000;

/// How many parts of an [`Em`] make up the font size.
pub const EM_WHOLE: u64 = 1_000;

/// A ratio of a whole, in millionths.
#[derive(Clone, Copy, Debug, PartialEq, Eq, Structural, Hash)]
pub struct Ratio {
    /// The number of millionths.
    pub parts: i64,
}

impl Ratio {
    pub open spec fn spec_of(self, whole: Abs) -> Abs {
        whole.spec_portion(self.parts, RATIO_WHOLE)
    }

    /// This ratio of `whole`, rounded toward zero. Of an infinite whole it is
    /// zero.
    #[verifier::when_used_as_spec(spec_of)]
    pub fn of(self, whole: Abs) -> (r: Abs)
        ensures
            r == self.spec_of(whole),
    {
        whole.portion(self.parts, RATIO_WHOLE)
    }
}

/// A length relative to the font size, in thousandths of it.
#[derive(Clone, Copy, Debug, PartialEq, Eq, Structural, Hash)]
pub struct Em {
    /// The number of thousandths of the font size.
    pub parts: i64,
}

impl Em {
    pub open spec fn spec_at(self, font_size: Abs) -> Abs {
        font_size.spec_portion(self.parts, EM_WHOLE)
    }

    /// This length at the given font size, rounded toward zero. At an
    /// infinite font size it is zero.
    #[verifier::when_used_as_spec(spec_at)]
    pub fn at(self, font_size: Abs) -> (r: Abs)
        ensures
            r == self.spec_at(font_size),
    {
        font_size.portion(self.parts, EM_WHOLE)
    }
}

/// A length with an absolute part and a part relative to the font size.
#[derive(Clone, Copy, Debug, PartialEq, Eq, Structural, Hash)]
pub struct Length {
    /// The absolute part.
    pub abs: Abs,
    /// The part relative to the font size.
    pub em: Em,
}

impl Length {
    pub open spec fn spec_resolve(self, styles: StyleChain) -> Abs {
        self.abs.spec_plus(self.em.spec_at(styles.font_size))
    }

    /// The absolute length that this is at the font size of `styles`.
    pub fn resolve(self, styles: &StyleChain) -> (r: Abs)
        ensures
            r == self.spec_resolve(*styles),
    {
        self.abs.plus(self.em.at(styles.font_size))
    }
}

/// A length with a part relative to a whole that is not yet known.
#[derive(Clone, Copy, Debug, PartialEq, Eq, Structural, Hash)]
pub struct Rel {
    /// The part relative to the whole.
    pub rel: Ratio,
    /// The part that does not depend on the whole.
    pub abs: Length,
}

impl Rel {
    pub open spec fn spec_resolve(self, styles: StyleChain) -> RelAbs {
        RelAbs { rel: self.rel, abs: self.abs.spec_resolve(styles) }
    }

    /// This length with its font-relative part made absolute.
    pub fn resolve(self, styles: &StyleChain) -> (r: RelAbs)
        ensures
            r == self.spec_resolve(*styles),
    {
        RelAbs { rel: self.rel, abs: self.abs.resolve(styles) }
    }
}

/// A relative length whose font-relative part has been resolved.
#[derive(Clone, Copy, Debug, PartialEq, Eq, Structural, Hash)]
pub struct RelAbs {
    /// The part relative to the whole.
    pub rel: Ratio,
    /// The absolute part.
    pub abs: Abs,
}

impl RelAbs {
    pub open spec fn spec_relative_to(self, whole: Abs) -> Abs {
        self.rel.spec_of(whole).spec_plus(self.abs)
    }

    /// The absolute length that this is relative to `whole`.
    #[verifier::when_used_as_spec(spec_relative_to)]
    pub fn relative_to(self, whole: Abs) -> (r: Abs)
        ensures
            r == self.spec_relative_to(whole),
    {
        self.rel.of(whole).plus(self.abs)
    }
}

/// A fractional weight: a claim on a share of the space that is left over.
/// Only the proportions between weights matter.
#[derive(Clone, Copy, Debug, PartialEq, Eq, Structural, Hash)]
pub struct Fr {
    /// The weight.
    pub weight: u64,
}

impl Fr {
    pub open spec fn spec_zero() -> Fr {
        Fr { weight: 0 }
    }

    /// The weight that claims nothing.
    #[verifier::when_used_as_spec(spec_zero)]
    pub fn zero() -> (r: Fr)
        ensures
            r == (Fr { weight: 0 }),
    {
        Fr { weight: 0 }
    }

    pub open spec fn spec_is_positive(self) -> bool {
        self.weight > 0
    }

    /// Whether this weight claims anything.
    #[verifier::when_used_as_spec(spec_is_positive)]
    pub fn is_positive(self) -> (b: bool)
        ensures
            b == (self.weight > 0),
    {
        self.weight > 0
    }

    pub open spec fn spec_plus(self, rhs: Fr) -> Fr {
        Fr {
            weight: if self.weight + rhs.weight > u64::MAX {
                u64::MAX
            } else {
                (self.weight + rhs.weight) as u64
            },
        }
    }

    /// The sum of two weights, which stops at the largest weight there is.
    #[verifier::when_used_as_spec(spec_plus)]
    pub fn plus(self, rhs: Fr) -> (r: Fr)
        ensures
            r == self.spec_plus(rhs),
    {
        Fr { weight: self.weight.saturating_add(rhs.weight) }
    }

    pub open spec fn spec_share(self, total: Fr, remaining: Abs) -> Abs {
        remaining.spec_scaled(self.weight, total.weight)
    }

    /// The share of `remaining` that this weight claims when all the weights
    /// sum up to `total`: `remaining` times this weight over `total`, rounded
    /// toward zero. It is zero where `total` is zero or `remaining` is
    /// infinite.
    #[verifier::when_used_as_spec(spec_share)]
    pub fn share(self, total: Fr, remaining: Abs) -> (r: Abs)
        ensures
            r == self.spec_share(total, remaining),
    {
        remaining.scaled(self.weight, total.weight)
    }
}

/// Spacing between the children of a flow.
#[derive(Clone, Copy, Debug, PartialEq, Eq, Structural, Hash)]
pub enum Spacing {
    /// Spacing whose extent is known once the styles and the region are.
    Relative(Rel),
    /// Spacing that takes a share of what the region has left over.
    Fractional(Fr),
}

} // verus!
