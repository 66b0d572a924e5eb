//! The order of lengths, of spacing and of the children of a flow.
//!
//! Lengths of one kind are ordered by their value. Lengths that mix kinds
//! are ordered where only one kind is at play on both sides, and spacing of
//! different kinds is not ordered at all. Among the children of a flow only
//! spacing is ordered.

use crate::flow::FlowChild;
use crate::geom::Abs;
use crate::length::{Em, Fr, Length, Ratio, Rel, Spacing};
use core::cmp::Ordering;
use vstd::prelude::*;
use vstd::std_specs::cmp::PartialOrdSpec;

verus! {

/// How the integer `a` compares to the integer `b`.
pub open spec fn int_order(a: int, b: int) -> Ordering {
    if a < b {
        Ordering::Less
    } else if a == b {
        Ordering::Equal
    } else {
        Ordering::Greater
    }
}

/// How the number `a` compares to the number `b`.
pub open spec fn number_order(a: i64, b: i64) -> Ordering {
    if a < b {
        Ordering::Less
    } else if a == b {
        Ordering::Equal
    } else {
        Ordering::Greater
    }
}

/// How the weight `a` compares to the weight `b`.
pub open spec fn weight_order(a: u64, b: u64) -> Ordering {
    if a < b {
        Ordering::Less
    } else if a == b {
        Ordering::Equal
    } else {
        Ordering::Greater
    }
}

fn order_of(a: i64, b: i64) -> (r: Ordering)
    ensures
        r == number_order(a, b),
{
    if a < b {
        Ordering::Less
    } else if a == b {
        Ordering::Equal
    } else {
        Ordering::Greater
    }
}

impl PartialOrd for Abs {
    /// Lengths are ordered along the number line, the infinities at its two
    /// ends.
    fn partial_cmp(&self, other: &Self) -> (r: Option<Ordering>) {
        match (*self, *other) {
            (Abs::Finite(a), Abs::Finite(b)) => Some(order_of(a, b)),
            (Abs::NegInf, Abs::NegInf) => Some(Ordering::Equal),
            (Abs::PosInf, Abs::PosInf) => Some(Ordering::Equal),
            (Abs::NegInf, _) => Some(Ordering::Less),
            (_, Abs::PosInf) => Some(Ordering::Less),
            _ => Some(Ordering::Greater),
        }
    }
}

impl vstd::std_specs::cmp::PartialOrdSpecImpl for Abs {
    open spec fn obeys_partial_cmp_spec() -> bool {
        true
    }

    open spec fn partial_cmp_spec(&self, other: &Self) -> Option<Ordering> {
        Some(int_order(self.ext(), other.ext()))
    }
}

impl PartialOrd for Ratio {
    fn partial_cmp(&self, other: &Self) -> (r: Option<Ordering>) {
        Some(order_of(self.parts, other.parts))
    }
}

impl vstd::std_specs::cmp::PartialOrdSpecImpl for Ratio {
    open spec fn obeys_partial_cmp_spec() -> bool {
        true
    }

    open spec fn partial_cmp_spec(&self, other: &Self) -> Option<Ordering> {
        Some(number_order(self.parts, other.parts))
    }
}

impl PartialOrd for Em {
    fn partial_cmp(&self, other: &Self) -> (r: Option<Ordering>) {
        Some(order_of(self.parts, other.parts))
    }
}

impl vstd::std_specs::cmp::PartialOrdSpecImpl for Em {
    open spec fn obeys_partial_cmp_spec() -> bool {
        true
    }

    open spec fn partial_cmp_spec(&self, other: &Self) -> Option<Ordering> {
        Some(number_order(self.parts, other.parts))
    }
}

impl PartialOrd for Fr {
    fn partial_cmp(&self, other: &Self) -> (r: Option<Ordering>) {
        if self.weight < other.weight {
            Some(Ordering::Less)
        } else if self.weight == other.weight {
            Some(Ordering::Equal)
        } else {
            Some(Ordering::Greater)
        }
    }
}

impl vstd::std_specs::cmp::PartialOrdSpecImpl for Fr {
    open spec fn obeys_partial_cmp_spec() -> bool {
        true
    }

    open spec fn partial_cmp_spec(&self, other: &Self) -> Option<Ordering> {
        Some(weight_order(self.weight, other.weight))
    }
}

impl PartialOrd for Length {
    /// Two lengths are ordered by their absolute parts where neither has a
    /// part relative to the font size, and by those parts where neither has
    /// an absolute part.
    fn partial_cmp(&self, other: &Self) -> (r: Option<Ordering>) {
        if self.em.parts == 0 && other.em.parts == 0 {
            self.abs.partial_cmp(&other.abs)
        } else if self.abs == Abs::Finite(0) && other.abs == Abs::Finite(0) {
            self.em.partial_cmp(&other.em)
        } else {
            None
        }
    }
}

impl vstd::std_specs::cmp::PartialOrdSpecImpl for Length {
    open spec fn obeys_partial_cmp_spec() -> bool {
        true
    }

    open spec fn partial_cmp_spec(&self, other: &Self) -> Option<Ordering> {
        if self.em.parts == 0 && other.em.parts == 0 {
            PartialOrdSpec::partial_cmp_spec(&self.abs, &other.abs)
        } else if self.abs == Abs::Finite(0) && other.abs == Abs::Finite(0) {
            PartialOrdSpec::partial_cmp_spec(&self.em, &other.em)
        } else {
            None
        }
    }
}

impl PartialOrd for Rel {
    /// Two relative lengths are ordered by their fixed parts where neither
    /// has a part relative to the whole, and by those parts where neither
    /// has a fixed part.
    fn partial_cmp(&self, other: &Self) -> (r: Option<Ordering>) {
        let zero = Length { abs: Abs::Finite(0), em: Em { parts: 0 } };
        if self.rel.parts == 0 && other.rel.parts == 0 {
            self.abs.partial_cmp(&other.abs)
        } else if self.abs == zero && other.abs == zero {
            self.rel.partial_cmp(&other.rel)
        } else {
            None
        }
    }
}

impl vstd::std_specs::cmp::PartialOrdSpecImpl for Rel {
    open spec fn obeys_partial_cmp_spec() -> bool {
        true
    }

    open spec fn partial_cmp_spec(&self, other: &Self) -> Option<Ordering> {
        let zero = Length { abs: Abs::Finite(0), em: Em { parts: 0 } };
        if self.rel.parts == 0 && other.rel.parts == 0 {
            PartialOrdSpec::partial_cmp_spec(&self.abs, &other.abs)
        } else if self.abs == zero && other.abs == zero {
            PartialOrdSpec::partial_cmp_spec(&self.rel, &other.rel)
        } else {
            None
        }
    }
}

impl PartialOrd for Spacing {
    /// Spacing is ordered among relative spacing and among fractional
    /// spacing, and not across the two.
    fn partial_cmp(&self, other: &Self) -> (r: Option<Ordering>) {
        match (self, other) {
            (Spacing::Relative(a), Spacing::Relative(b)) => a.partial_cmp(b),
            (Spacing::Fractional(a), Spacing::Fractional(b)) => a.partial_cmp(b),
            _ => None,
        }
    }
}

impl vstd::std_specs::cmp::PartialOrdSpecImpl for Spacing {
    open spec fn obeys_partial_cmp_spec() -> bool {
        true
    }

    open spec fn partial_cmp_spec(&self, other: &Self) -> Option<Ordering> {
        match (*self, *other) {
            (Spacing::Relative(a), Spacing::Relative(b)) => PartialOrdSpec::partial_cmp_spec(&a, &b),
            (Spacing::Fractional(a), Spacing::Fractional(b)) => PartialOrdSpec::partial_cmp_spec(&a, &b),
            _ => None,
        }
    }
}

impl<N: PartialEq> PartialOrd for FlowChild<N> {
    /// Two children are ordered where both are spacing and the spacing is.
    fn partial_cmp(&self, other: &Self) -> (r: Option<Ordering>) {
        match (self, other) {
            (FlowChild::Spacing(a), FlowChild::Spacing(b)) => a.partial_cmp(b),
            _ => None,
        }
    }
}

impl<N: PartialEq> vstd::std_specs::cmp::PartialOrdSpecImpl for FlowChild<N> {
    open spec fn obeys_partial_cmp_spec() -> bool {
        true
    }

    open spec fn partial_cmp_spec(&self, other: &Self) -> Option<Ordering> {
        match (*self, *other) {
            (FlowChild::Spacing(a), FlowChild::Spacing(b)) => PartialOrdSpec::partial_cmp_spec(&a, &b),
            _ => None,
        }
    }
}

} // verus!
