use flow_layout::align::Align;
use flow_layout::frame::{Frame, Role};
use flow_layout::geom::{Abs, Axes, Point, Size, UNITS_PER_PT};
use flow_layout::length::{Em, Fr, Length, Ratio, Rel, RelAbs};
use flow_layout::regions::{Regions, EPSILON};
use flow_layout::style::{StyleChain, StyleMap};
use flow_layout::align::Dir;

#[test]
fn a_point_is_a_million_units() {
    assert_eq!(UNITS_PER_PT, 1_000_000);
    assert_eq!(Abs::pt(3), Abs::raw(3_000_000));
    assert_eq!(Abs::pt(-3), Abs::Finite(-3_000_000));
    assert_eq!(Abs::pt(i32::MAX), Abs::Finite(2_147_483_647_000_000));
    assert_eq!(Abs::pt(i32::MIN), Abs::Finite(-2_147_483_648_000_000));
    assert_eq!(Abs::zero(), Abs::Finite(0));
    assert_eq!(Abs::inf(), Abs::PosInf);
}

#[test]
fn sums_leave_the_finite_range_for_infinity() {
    assert_eq!(Abs::raw(2).plus(Abs::raw(3)), Abs::raw(5));
    assert_eq!(Abs::raw(i64::MAX).plus(Abs::raw(1)), Abs::PosInf);
    assert_eq!(Abs::raw(i64::MAX).plus(Abs::raw(0)), Abs::raw(i64::MAX));
    assert_eq!(Abs::raw(i64::MIN).plus(Abs::raw(-1)), Abs::NegInf);
    assert_eq!(Abs::raw(i64::MIN).plus(Abs::raw(i64::MAX)), Abs::raw(-1));
    assert_eq!(Abs::raw(7).plus(Abs::PosInf), Abs::PosInf);
    assert_eq!(Abs::raw(7).plus(Abs::NegInf), Abs::NegInf);
    assert_eq!(Abs::PosInf.plus(Abs::raw(-7)), Abs::PosInf);
    assert_eq!(Abs::PosInf.plus(Abs::NegInf), Abs::PosInf);
    assert_eq!(Abs::NegInf.plus(Abs::PosInf), Abs::NegInf);
}

#[test]
fn differences_leave_the_finite_range_for_infinity() {
    assert_eq!(Abs::raw(2).minus(Abs::raw(3)), Abs::raw(-1));
    assert_eq!(Abs::raw(-1).minus(Abs::raw(i64::MIN)), Abs::raw(i64::MAX));
    assert_eq!(Abs::raw(0).minus(Abs::raw(i64::MIN)), Abs::PosInf);
    assert_eq!(Abs::raw(-2).minus(Abs::raw(i64::MAX)), Abs::NegInf);
    assert_eq!(Abs::raw(7).minus(Abs::PosInf), Abs::NegInf);
    assert_eq!(Abs::raw(7).minus(Abs::NegInf), Abs::PosInf);
    assert_eq!(Abs::PosInf.minus(Abs::raw(7)), Abs::PosInf);
    assert_eq!(Abs::PosInf.minus(Abs::PosInf), Abs::PosInf);
    assert_eq!(Abs::NegInf.minus(Abs::NegInf), Abs::NegInf);
}

#[test]
fn negation_turns_a_length_around() {
    assert_eq!(Abs::raw(5).neg(), Abs::raw(-5));
    assert_eq!(Abs::raw(i64::MAX).neg(), Abs::raw(-i64::MAX));
    assert_eq!(Abs::raw(i64::MIN).neg(), Abs::PosInf);
    assert_eq!(Abs::PosInf.neg(), Abs::NegInf);
    assert_eq!(Abs::NegInf.neg(), Abs::PosInf);
}

#[test]
fn halves_round_toward_zero() {
    assert_eq!(Abs::raw(7).half(), Abs::raw(3));
    assert_eq!(Abs::raw(-7).half(), Abs::raw(-3));
    assert_eq!(Abs::raw(8).half(), Abs::raw(4));
    assert_eq!(Abs::raw(i64::MIN).half(), Abs::raw(i64::MIN / 2));
    assert_eq!(Abs::PosInf.half(), Abs::PosInf);
    assert_eq!(Abs::NegInf.half(), Abs::NegInf);
}

#[test]
fn lengths_compare_with_the_infinities_at_the_ends() {
    assert!(Abs::raw(1).le(Abs::raw(1)));
    assert!(Abs::raw(1).le(Abs::raw(2)));
    assert!(!Abs::raw(2).le(Abs::raw(1)));
    assert!(Abs::NegInf.le(Abs::raw(i64::MIN)));
    assert!(!Abs::raw(i64::MIN).le(Abs::NegInf));
    assert!(Abs::raw(i64::MAX).le(Abs::PosInf));
    assert!(!Abs::PosInf.le(Abs::raw(i64::MAX)));
    assert!(Abs::PosInf.le(Abs::PosInf));
    assert!(Abs::NegInf.le(Abs::NegInf));
    assert!(!Abs::PosInf.le(Abs::NegInf));
    assert_eq!(Abs::raw(1).min(Abs::raw(2)), Abs::raw(1));
    assert_eq!(Abs::raw(1).max(Abs::raw(2)), Abs::raw(2));
    assert_eq!(Abs::PosInf.min(Abs::raw(2)), Abs::raw(2));
    assert_eq!(Abs::NegInf.max(Abs::raw(2)), Abs::raw(2));
    assert_eq!(Abs::NegInf.min(Abs::raw(2)), Abs::NegInf);
    assert!(Abs::raw(1).is_finite());
    assert!(!Abs::PosInf.is_finite());
    assert!(!Abs::NegInf.is_finite());
}

#[test]
fn scaling_multiplies_before_it_divides() {
    assert_eq!(Abs::raw(10).scaled(1, 3), Abs::raw(3));
    assert_eq!(Abs::raw(10).scaled(2, 3), Abs::raw(6));
    assert_eq!(Abs::raw(-10).scaled(2, 3), Abs::raw(-6));
    assert_eq!(Abs::raw(i64::MAX).scaled(u64::MAX, u64::MAX), Abs::raw(i64::MAX));
    assert_eq!(Abs::raw(i64::MIN).scaled(u64::MAX, u64::MAX), Abs::raw(i64::MIN));
    assert_eq!(Abs::raw(i64::MAX).scaled(2, 1), Abs::PosInf);
    assert_eq!(Abs::raw(i64::MIN).scaled(2, 1), Abs::NegInf);
    assert_eq!(Abs::raw(i64::MIN).scaled(1, 1), Abs::raw(i64::MIN));
    assert_eq!(Abs::raw(5).scaled(0, 7), Abs::zero());
}

#[test]
fn portions_may_be_negative() {
    assert_eq!(Abs::raw(10).portion(2, 3), Abs::raw(6));
    assert_eq!(Abs::raw(10).portion(-2, 3), Abs::raw(-6));
    assert_eq!(Abs::raw(-10).portion(2, 3), Abs::raw(-6));
    assert_eq!(Abs::raw(-10).portion(-2, 3), Abs::raw(6));
    assert_eq!(Abs::raw(i64::MIN).portion(i64::MIN, u64::MAX), Abs::raw(0x4000_0000_0000_0000));
    assert_eq!(Abs::raw(i64::MIN).portion(-1, 1), Abs::PosInf);
    assert_eq!(Abs::raw(i64::MIN).portion(1, 1), Abs::raw(i64::MIN));
    assert_eq!(Abs::raw(10).portion(1, 0), Abs::zero());
    assert_eq!(Abs::PosInf.portion(-1, 2), Abs::zero());
}

#[test]
fn scaling_is_zero_where_it_is_not_defined() {
    assert_eq!(Abs::raw(10).scaled(1, 0), Abs::zero());
    assert_eq!(Abs::PosInf.scaled(1, 2), Abs::zero());
    assert_eq!(Abs::NegInf.scaled(1, 2), Abs::zero());
}

#[test]
fn shares_are_proportional_to_weights() {
    let total = Fr { weight: 4 };
    assert_eq!(Fr { weight: 1 }.share(total, Abs::pt(100)), Abs::pt(25));
    assert_eq!(Fr { weight: 3 }.share(total, Abs::pt(100)), Abs::pt(75));
    assert_eq!(Fr { weight: 1 }.share(Fr { weight: 3 }, Abs::raw(100)), Abs::raw(33));
    assert_eq!(Fr { weight: 2 }.share(Fr { weight: 3 }, Abs::raw(100)), Abs::raw(66));
    // What is left over may be negative, and is shared out all the same.
    assert_eq!(Fr { weight: 1 }.share(Fr { weight: 2 }, Abs::pt(-50)), Abs::pt(-25));
}

#[test]
fn shares_are_zero_without_weights_or_bounds() {
    assert_eq!(Fr::zero().share(Fr::zero(), Abs::pt(100)), Abs::zero());
    assert_eq!(Fr { weight: 1 }.share(Fr::zero(), Abs::pt(100)), Abs::zero());
    assert_eq!(Fr { weight: 1 }.share(Fr { weight: 2 }, Abs::PosInf), Abs::zero());
    assert_eq!(Fr { weight: 1 }.share(Fr { weight: 2 }, Abs::NegInf), Abs::zero());
}

#[test]
fn weights_add_up_to_the_largest_weight_at_most() {
    assert_eq!(Fr { weight: 2 }.plus(Fr { weight: 3 }), Fr { weight: 5 });
    assert_eq!(Fr { weight: u64::MAX }.plus(Fr { weight: 3 }), Fr { weight: u64::MAX });
    assert!(Fr { weight: 1 }.is_positive());
    assert!(!Fr::zero().is_positive());
}

#[test]
fn ratios_and_ems_take_their_part() {
    assert_eq!(Ratio { parts: 500_000 }.of(Abs::pt(80)), Abs::pt(40));
    assert_eq!(Ratio { parts: -250_000 }.of(Abs::pt(80)), Abs::pt(-20));
    assert_eq!(Ratio { parts: 1 }.of(Abs::raw(1_999_999)), Abs::raw(1));
    assert_eq!(Ratio { parts: -1 }.of(Abs::raw(1_999_999)), Abs::raw(-1));
    assert_eq!(Ratio { parts: 500_000 }.of(Abs::PosInf), Abs::zero());
    assert_eq!(Ratio { parts: i64::MIN }.of(Abs::raw(1_000_000)), Abs::raw(i64::MIN));
    assert_eq!(Ratio { parts: i64::MIN }.of(Abs::raw(-1_000_000)), Abs::PosInf);
    assert_eq!(Ratio { parts: i64::MIN }.of(Abs::raw(2_000_000)), Abs::NegInf);
    assert_eq!(Ratio { parts: 0 }.of(Abs::raw(-5)), Abs::zero());
    assert_eq!(Em { parts: 1_500 }.at(Abs::pt(10)), Abs::pt(15));
    assert_eq!(Em { parts: -500 }.at(Abs::pt(10)), Abs::pt(-5));
    assert_eq!(Em { parts: 1_000 }.at(Abs::PosInf), Abs::zero());
}

#[test]
fn relative_lengths_resolve_in_two_steps() {
    let styles = StyleChain { font_size: Abs::pt(12), par_align: Align::Start, dir: Dir::Ltr };
    let length = Length { abs: Abs::pt(3), em: Em { parts: 2_000 } };
    assert_eq!(length.resolve(&styles), Abs::pt(27));
    let rel = Rel { rel: Ratio { parts: 100_000 }, abs: length };
    let resolved = rel.resolve(&styles);
    assert_eq!(resolved, RelAbs { rel: Ratio { parts: 100_000 }, abs: Abs::pt(27) });
    assert_eq!(resolved.relative_to(Abs::pt(200)), Abs::pt(47));
    assert_eq!(resolved.relative_to(Abs::PosInf), Abs::pt(27));
}

#[test]
fn alignment_positions_content_in_the_free_space() {
    assert_eq!(Align::Start.position(Abs::pt(80)), Abs::zero());
    assert_eq!(Align::Center.position(Abs::pt(80)), Abs::pt(40));
    assert_eq!(Align::End.position(Abs::pt(80)), Abs::pt(80));
    assert_eq!(Align::Center.position(Abs::pt(-80)), Abs::pt(-40));
    assert_eq!(Align::End.position(Abs::PosInf), Abs::PosInf);
    assert_eq!(Align::Start.max(Align::Center), Align::Center);
    assert_eq!(Align::End.max(Align::Center), Align::End);
    assert_eq!(Align::Start.max(Align::Start), Align::Start);
    assert_eq!(Align::Center.max(Align::End), Align::End);
}

#[test]
fn overrides_win_over_inherited_styles() {
    let outer = StyleChain { font_size: Abs::pt(12), par_align: Align::Start, dir: Dir::Ltr };
    assert_eq!(StyleMap::new().chain(&outer), outer);
    let map = StyleMap { font_size: Some(Abs::pt(9)), par_align: None, dir: Some(Dir::Rtl) };
    assert_eq!(
        map.chain(&outer),
        StyleChain { font_size: Abs::pt(9), par_align: Align::Start, dir: Dir::Rtl }
    );
}

#[test]
fn axes_select_per_axis() {
    let yes = Size::new(Abs::pt(1), Abs::pt(2));
    let no = Size::new(Abs::pt(3), Abs::pt(4));
    assert_eq!(Axes::new(true, false).select(yes, no), Size::new(Abs::pt(1), Abs::pt(4)));
    assert_eq!(Axes::new(false, true).select(yes, no), Size::new(Abs::pt(3), Abs::pt(2)));
    assert_eq!(Size::zero(), Size::new(Abs::zero(), Abs::zero()));
    assert_eq!(Point::zero(), Point::new(Abs::zero(), Abs::zero()));
}

#[test]
fn frames_hold_their_children_in_order() {
    let mut frame = Frame::new(Size::new(Abs::pt(10), Abs::pt(20)));
    assert_eq!(frame.size(), Size::new(Abs::pt(10), Abs::pt(20)));
    assert_eq!(frame.width(), Abs::pt(10));
    assert_eq!(frame.height(), Abs::pt(20));
    assert_eq!(frame.role(), None);
    assert!(frame.children.is_empty());
    frame.push_frame(Point::new(Abs::pt(1), Abs::pt(2)), Frame::new(Size::zero()));
    frame.push_frame(Point::zero(), Frame::new(Size::new(Abs::pt(5), Abs::pt(5))));
    assert_eq!(frame.children.len(), 2);
    assert_eq!(frame.children[0].0, Point::new(Abs::pt(1), Abs::pt(2)));
    assert_eq!(frame.children[1].1.size, Size::new(Abs::pt(5), Abs::pt(5)));
}

#[test]
fn a_weak_role_yields_to_a_specific_one() {
    let mut frame = Frame::new(Size::zero());
    frame.apply_role(Role::GenericBlock);
    assert_eq!(frame.role(), Some(Role::GenericBlock));
    frame.apply_role(Role::GenericInline);
    assert_eq!(frame.role(), Some(Role::GenericBlock));
    frame.apply_role(Role::Paragraph);
    assert_eq!(frame.role(), Some(Role::Paragraph));
    frame.apply_role(Role::Heading);
    assert_eq!(frame.role(), Some(Role::Paragraph));
    frame.apply_role(Role::GenericBlock);
    assert_eq!(frame.role(), Some(Role::Paragraph));
    assert!(Role::GenericBlock.is_weak());
    assert!(Role::GenericInline.is_weak());
    assert!(!Role::Paragraph.is_weak());
    assert!(!Role::Heading.is_weak());
}

#[test]
fn a_region_is_full_within_an_epsilon() {
    let region = |height: Abs| Regions::one(Size::new(Abs::pt(10), height), Axes::new(false, false));
    assert_eq!(EPSILON, 1);
    assert!(region(Abs::zero()).is_full());
    assert!(region(Abs::raw(1)).is_full());
    assert!(!region(Abs::raw(2)).is_full());
    assert!(region(Abs::pt(-5)).is_full());
    assert!(region(Abs::NegInf).is_full());
    assert!(!region(Abs::PosInf).is_full());
}

#[test]
fn regions_advance_through_the_backlog() {
    let mut regions = Regions::with_backlog(
        Size::new(Abs::pt(10), Abs::pt(20)),
        vec![Abs::pt(30), Abs::PosInf],
        Axes::new(true, false),
    );
    let copy = regions.duplicate();
    assert_eq!(copy, regions);
    regions.next();
    assert_eq!(regions.first, Size::new(Abs::pt(10), Abs::pt(30)));
    assert_eq!(regions.backlog, vec![Abs::PosInf]);
    regions.next();
    assert_eq!(regions.first, Size::new(Abs::pt(10), Abs::PosInf));
    assert!(regions.backlog.is_empty());
    regions.next();
    assert_eq!(regions.first, Size::new(Abs::pt(10), Abs::PosInf));
    assert_eq!(regions.expand, Axes::new(true, false));
    assert_eq!(copy.backlog.len(), 2);
}
