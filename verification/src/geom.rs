//! Lengths, sizes and points.

use vstd::prelude::*;

verus! {

/// How many raw units make up one point.
pub const UNITS_PER_PT: i64 = 1_000_000;

/// Truncating division of `n` by a positive `d`: the quotient rounded toward zero.
pub open spec fn div_trunc(n: int, d: int) -> int {
    if n >= 0 {
        n / d
    } else {
        -((-n) / d)
    }
}

/// An absolute length: a whole number of raw units (millionths of a point),
/// or one of the two infinities.
///
/// Arithmetic on lengths never fails. A result that leaves the range of the
/// finite lengths becomes the infinity on that side, and an infinite operand
/// decides the result (the left one, where both are infinite).
#[derive(Clone, Copy, Debug, PartialEq, Eq, Structural, Hash)]
pub enum Abs {
    /// Less than every finite length.
    NegInf,
    /// A finite length in raw units.
    Finite(i64),
    /// More than every finite length.
    PosInf,
}

impl Abs {
    /// The place of this length on the number line, the infinities lying just
    /// outside the finite range.
    pub open spec fn ext(self) -> int {
        match self {
            Abs::NegInf => i64::MIN - 1,
            Abs::Finite(v) => v as int,
            Abs::PosInf => i64::MAX + 1,
        }
    }

    /// The length that stands for the integer `v`: `v` raw units where that is
    /// in range, else the infinity on the side of `v`.
    pub open spec fn of(v: int) -> Abs {
        if v > i64::MAX {
            Abs::PosInf
        } else if v < i64::MIN {
            Abs::NegInf
        } else {
            Abs::Finite(v as i64)
        }
    }

    pub open spec fn spec_zero() -> Abs {
        Abs::Finite(0)
    }

    /// The zero length.
    #[verifier::when_used_as_spec(spec_zero)]
    pub fn zero() -> (r: Abs)
        ensures
            r == Abs::Finite(0),
    {
        Abs::Finite(0)
    }

    pub open spec fn spec_inf() -> Abs {
        Abs::PosInf
    }

    /// The infinite length.
    #[verifier::when_used_as_spec(spec_inf)]
    pub fn inf() -> (r: Abs)
        ensures
            r == Abs::PosInf,
    {
        Abs::PosInf
    }

    pub open spec fn spec_raw(units: i64) -> Abs {
        Abs::Finite(units)
    }

    /// A finite length of `units` raw units.
    #[verifier::when_used_as_spec(spec_raw)]
    pub fn raw(units: i64) -> (r: Abs)
        ensures
            r == Abs::Finite(units),
    {
        Abs::Finite(units)
    }

    pub open spec fn spec_pt(points: i32) -> Abs {
        Abs::Finite((points * UNITS_PER_PT) as i64)
    }

    /// A length of `points` whole points.
    #[verifier::when_used_as_spec(spec_pt)]
    pub fn pt(points: i32) -> (r: Abs)
        ensures
            r == Abs::of(points * UNITS_PER_PT),
            r == Abs::spec_pt(points),
    {
        let wide: i64 = points as i64;
        Abs::Finite(wide * UNITS_PER_PT)
    }

    pub open spec fn spec_is_finite(self) -> bool {
        self is Finite
    }

    /// Whether this length is finite.
    #[verifier::when_used_as_spec(spec_is_finite)]
    pub fn is_finite(self) -> (b: bool)
        ensures
            b == (self is Finite),
    {
        match self {
            Abs::Finite(_) => true,
            _ => false,
        }
    }

    pub open spec fn spec_le(self, rhs: Abs) -> bool {
        self.ext() <= rhs.ext()
    }

    /// Whether this length is at most `rhs`.
    #[verifier::when_used_as_spec(spec_le)]
    pub fn le(self, rhs: Abs) -> (b: bool)
        ensures
            b == (self.ext() <= rhs.ext()),
    {
        match (self, rhs) {
            (Abs::NegInf, _) => true,
            (_, Abs::PosInf) => true,
            (Abs::Finite(a), Abs::Finite(b)) => a <= b,
            _ => false,
        }
    }

    pub open spec fn spec_min(self, rhs: Abs) -> Abs {
        if self.ext() <= rhs.ext() {
            self
        } else {
            rhs
        }
    }

    /// The smaller of two lengths.
    #[verifier::when_used_as_spec(spec_min)]
    pub fn min(self, rhs: Abs) -> (r: Abs)
        ensures
            r == self.spec_min(rhs),
    {
        if self.le(rhs) {
            self
        } else {
            rhs
        }
    }

    pub open spec fn spec_max(self, rhs: Abs) -> Abs {
        if self.ext() >= rhs.ext() {
            self
        } else {
            rhs
        }
    }

    /// The larger of two lengths.
    #[verifier::when_used_as_spec(spec_max)]
    pub fn max(self, rhs: Abs) -> (r: Abs)
        ensures
            r == self.spec_max(rhs),
    {
        if rhs.le(self) {
            self
        } else {
            rhs
        }
    }

    pub open spec fn spec_plus(self, rhs: Abs) -> Abs {
        match (self, rhs) {
            (Abs::Finite(a), Abs::Finite(b)) => Abs::of(a + b),
            (Abs::Finite(_), _) => rhs,
            _ => self,
        }
    }

    /// The sum of two lengths.
    #[verifier::when_used_as_spec(spec_plus)]
    pub fn plus(self, rhs: Abs) -> (r: Abs)
        ensures
            r == self.spec_plus(rhs),
    {
        match (self, rhs) {
            (Abs::Finite(a), Abs::Finite(b)) => match a.checked_add(b) {
                Some(v) => Abs::Finite(v),
                None => if a > 0 {
                    Abs::PosInf
                } else {
                    Abs::NegInf
                },
            },
            (Abs::Finite(_), _) => rhs,
            _ => self,
        }
    }

    pub open spec fn spec_neg(self) -> Abs {
        match self {
            Abs::NegInf => Abs::PosInf,
            Abs::Finite(v) => Abs::of(-v),
            Abs::PosInf => Abs::NegInf,
        }
    }

    /// The length of the same size in the other direction.
    #[verifier::when_used_as_spec(spec_neg)]
    pub fn neg(self) -> (r: Abs)
        ensures
            r == self.spec_neg(),
    {
        match self {
            Abs::NegInf => Abs::PosInf,
            Abs::Finite(v) => if v == i64::MIN {
                Abs::PosInf
            } else {
                Abs::Finite(-v)
            },
            Abs::PosInf => Abs::NegInf,
        }
    }

    pub open spec fn spec_minus(self, rhs: Abs) -> Abs {
        match (self, rhs) {
            (Abs::Finite(a), Abs::Finite(b)) => Abs::of(a - b),
            (Abs::Finite(_), _) => rhs.spec_neg(),
            _ => self,
        }
    }

    /// The difference of two lengths.
    #[verifier::when_used_as_spec(spec_minus)]
    pub fn minus(self, rhs: Abs) -> (r: Abs)
        ensures
            r == self.spec_minus(rhs),
    {
        match (self, rhs) {
            (Abs::Finite(a), Abs::Finite(b)) => match a.checked_sub(b) {
                Some(v) => Abs::Finite(v),
                None => if b < 0 {
                    Abs::PosInf
                } else {
                    Abs::NegInf
                },
            },
            (Abs::Finite(_), _) => rhs.neg(),
            _ => self,
        }
    }

    pub open spec fn spec_half(self) -> Abs {
        match self {
            Abs::Finite(v) => Abs::Finite(div_trunc(v as int, 2) as i64),
            _ => self,
        }
    }

    /// Half of this length, rounded toward zero; an infinity stays as it is.
    #[verifier::when_used_as_spec(spec_half)]
    pub fn half(self) -> (r: Abs)
        ensures
            r == self.spec_half(),
            self is Finite ==> r == Abs::of(div_trunc(self.ext(), 2)),
    {
        match self {
            Abs::Finite(v) => Abs::Finite(v / 2),
            _ => self,
        }
    }

    pub open spec fn spec_scaled(self, num: u64, den: u64) -> Abs {
        match self {
            Abs::Finite(v) if den != 0 => Abs::of(div_trunc(v * num, den as int)),
            _ => Abs::Finite(0),
        }
    }

    /// This length times `num` over `den`, rounded toward zero.
    ///
    /// The product is taken exactly before it is divided. Where the quotient
    /// is not defined, that is where `den` is zero or this length is
    /// infinite, the result is zero.
    #[verifier::when_used_as_spec(spec_scaled)]
    pub fn scaled(self, num: u64, den: u64) -> (r: Abs)
        ensures
            r == self.spec_scaled(num, den),
    {
        match self {
            Abs::Finite(v) => {
                if den == 0 {
                    return Abs::Finite(0);
                }
                let quot = quotient(magnitude(v), num as u128, den);
                assert(v < 0 ==> -(v * num) == magnitude_of(v) * num && v * num <= 0)
                    by (nonlinear_arith)
                    requires
                        v < 0 ==> magnitude_of(v) == -v,
                        num >= 0,
                ;
                directed(v < 0, quot)
            },
            _ => Abs::Finite(0),
        }
    }

    pub open spec fn spec_portion(self, parts: i64, whole: u64) -> Abs {
        match self {
            Abs::Finite(v) if whole != 0 => Abs::of(div_trunc(v * parts, whole as int)),
            _ => Abs::Finite(0),
        }
    }

    /// As many `whole`-th parts of this length as `parts` says, which may be
    /// negative, rounded toward zero.
    ///
    /// The product is taken exactly before it is divided. Where the quotient
    /// is not defined, that is where `whole` is zero or this length is
    /// infinite, the result is zero.
    #[verifier::when_used_as_spec(spec_portion)]
    pub fn portion(self, parts: i64, whole: u64) -> (r: Abs)
        ensures
            r == self.spec_portion(parts, whole),
    {
        match self {
            Abs::Finite(v) => {
                if whole == 0 {
                    return Abs::Finite(0);
                }
                let quot = quotient(magnitude(v), magnitude(parts), whole);
                let negative = (v < 0) != (parts < 0);
                assert(if negative {
                    -(v * parts) == magnitude_of(v) * magnitude_of(parts) && v * parts <= 0
                } else {
                    v * parts == magnitude_of(v) * magnitude_of(parts)
                }) by (nonlinear_arith)
                    requires
                        magnitude_of(v) == if v < 0 {
                            -v
                        } else {
                            v as int
                        },
                        magnitude_of(parts) == if parts < 0 {
                            -parts
                        } else {
                            parts as int
                        },
                        negative == ((v < 0) != (parts < 0)),
                ;
                directed(negative, quot)
            },
            _ => Abs::Finite(0),
        }
    }
}

/// The distance of `v` from zero.
pub open spec fn magnitude_of(v: i64) -> nat {
    if v < 0 {
        (-v) as nat
    } else {
        v as nat
    }
}

fn magnitude(v: i64) -> (r: u128)
    ensures
        r == magnitude_of(v),
        r <= 0x8000_0000_0000_0000,
{
    let wide: i128 = v as i128;
    if v < 0 {
        (-wide) as u128
    } else {
        wide as u128
    }
}

/// The whole part of `a` times `b` over `den`.
fn quotient(a: u128, b: u128, den: u64) -> (r: u128)
    requires
        a <= 0x8000_0000_0000_0000,
        b <= 0xffff_ffff_ffff_ffff,
        den > 0,
    ensures
        r == (a * b) / (den as int),
{
    assert(a * b <= 0x8000_0000_0000_0000 * 0xffff_ffff_ffff_ffff) by (nonlinear_arith)
        requires
            a <= 0x8000_0000_0000_0000,
            b <= 0xffff_ffff_ffff_ffff,
    ;
    (a * b) / (den as u128)
}

/// The length that lies `mag` units from zero, on the negative side if
/// `negative` is set.
fn directed(negative: bool, mag: u128) -> (r: Abs)
    ensures
        r == Abs::of(
            if negative {
                -mag
            } else {
                mag as int
            },
        ),
{
    if negative {
        if mag > 0x8000_0000_0000_0000 {
            Abs::NegInf
        } else {
            let signed: i128 = mag as i128;
            Abs::Finite((-signed) as i64)
        }
    } else {
        if mag > 0x7fff_ffff_ffff_ffff {
            Abs::PosInf
        } else {
            Abs::Finite(mag as i64)
        }
    }
}

/// A width and a height.
#[derive(Clone, Copy, Debug, PartialEq, Eq, Structural, Hash)]
pub struct Size {
    /// The width.
    pub x: Abs,
    /// The height.
    pub y: Abs,
}

impl Size {
    pub open spec fn spec_new(x: Abs, y: Abs) -> Size {
        Size { x, y }
    }

    /// The size `x` wide and `y` high.
    #[verifier::when_used_as_spec(spec_new)]
    pub fn new(x: Abs, y: Abs) -> (r: Size)
        ensures
            r == (Size { x, y }),
    {
        Size { x, y }
    }

    pub open spec fn spec_zero() -> Size {
        Size { x: Abs::Finite(0), y: Abs::Finite(0) }
    }

    /// The size that is zero on both axes.
    #[verifier::when_used_as_spec(spec_zero)]
    pub fn zero() -> (r: Size)
        ensures
            r == Size::spec_zero(),
    {
        Size { x: Abs::Finite(0), y: Abs::Finite(0) }
    }
}

/// A position, measured from the top left corner of a frame.
#[derive(Clone, Copy, Debug, PartialEq, Eq, Structural, Hash)]
pub struct Point {
    /// The distance from the left edge.
    pub x: Abs,
    /// The distance from the top edge.
    pub y: Abs,
}

impl Point {
    pub open spec fn spec_new(x: Abs, y: Abs) -> Point {
        Point { x, y }
    }

    /// The point at `x` and `y`.
    #[verifier::when_used_as_spec(spec_new)]
    pub fn new(x: Abs, y: Abs) -> (r: Point)
        ensures
            r == (Point { x, y }),
    {
        Point { x, y }
    }

    pub open spec fn spec_zero() -> Point {
        Point { x: Abs::Finite(0), y: Abs::Finite(0) }
    }

    /// The origin.
    #[verifier::when_used_as_spec(spec_zero)]
    pub fn zero() -> (r: Point)
        ensures
            r == Point::spec_zero(),
    {
        Point { x: Abs::Finite(0), y: Abs::Finite(0) }
    }
}

/// A pair of values, one for each axis.
#[derive(Clone, Copy, Debug, PartialEq, Eq, Hash)]
pub struct Axes<T> {
    /// The value for the horizontal axis.
    pub x: T,
    /// The value for the vertical axis.
    pub y: T,
}

impl<T> Axes<T> {
    /// The pair of `x` and `y`.
    pub fn new(x: T, y: T) -> (r: Axes<T>)
        ensures
            r == (Axes { x, y }),
    {
        Axes { x, y }
    }
}

impl Axes<bool> {
    pub open spec fn spec_select(self, yes: Size, no: Size) -> Size {
        Size { x: if self.x { yes.x } else { no.x }, y: if self.y { yes.y } else { no.y } }
    }

    /// Picks, for each axis, the component of `yes` where the flag is set and
    /// the component of `no` where it is not.
    #[verifier::when_used_as_spec(spec_select)]
    pub fn select(self, yes: Size, no: Size) -> (r: Size)
        ensures
            r == self.spec_select(yes, no),
    {
        Size { x: if self.x { yes.x } else { no.x }, y: if self.y { yes.y } else { no.y } }
    }
}

} // verus!
