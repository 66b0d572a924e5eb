use flow_layout::flow::FlowChild;
use flow_layout::geom::Abs;
use flow_layout::length::{Em, Fr, Length, Ratio, Rel, Spacing};
use std::cmp::Ordering;

fn length(abs: i32, em: i64) -> Length {
    Length { abs: Abs::pt(abs), em: Em { parts: em } }
}

fn relative(rel: i64, abs: i32, em: i64) -> Spacing {
    Spacing::Relative(Rel { rel: Ratio { parts: rel }, abs: length(abs, em) })
}

#[test]
fn lengths_are_ordered_along_the_number_line() {
    assert_eq!(Abs::pt(1).partial_cmp(&Abs::pt(2)), Some(Ordering::Less));
    assert_eq!(Abs::pt(2).partial_cmp(&Abs::pt(2)), Some(Ordering::Equal));
    assert_eq!(Abs::pt(3).partial_cmp(&Abs::pt(2)), Some(Ordering::Greater));
    assert_eq!(Abs::NegInf.partial_cmp(&Abs::raw(i64::MIN)), Some(Ordering::Less));
    assert_eq!(Abs::PosInf.partial_cmp(&Abs::raw(i64::MAX)), Some(Ordering::Greater));
    assert_eq!(Abs::PosInf.partial_cmp(&Abs::PosInf), Some(Ordering::Equal));
    assert_eq!(Abs::NegInf.partial_cmp(&Abs::NegInf), Some(Ordering::Equal));
    assert_eq!(Abs::NegInf.partial_cmp(&Abs::PosInf), Some(Ordering::Less));
    assert_eq!(Abs::PosInf.partial_cmp(&Abs::NegInf), Some(Ordering::Greater));
    assert_eq!(Abs::pt(1).partial_cmp(&Abs::PosInf), Some(Ordering::Less));
    assert_eq!(Abs::pt(1).partial_cmp(&Abs::NegInf), Some(Ordering::Greater));
    assert!(Abs::pt(1) < Abs::pt(2));
}

#[test]
fn mixed_lengths_are_ordered_where_one_kind_is_at_play() {
    assert_eq!(length(1, 0).partial_cmp(&length(2, 0)), Some(Ordering::Less));
    assert_eq!(length(0, 500).partial_cmp(&length(0, 100)), Some(Ordering::Greater));
    assert_eq!(length(1, 500).partial_cmp(&length(2, 0)), None);
    assert_eq!(length(1, 500).partial_cmp(&length(1, 500)), None);
}

#[test]
fn spacing_is_ordered_within_its_kind() {
    assert_eq!(relative(0, 1, 0).partial_cmp(&relative(0, 2, 0)), Some(Ordering::Less));
    assert_eq!(relative(10, 0, 0).partial_cmp(&relative(5, 0, 0)), Some(Ordering::Greater));
    assert_eq!(relative(10, 1, 0).partial_cmp(&relative(5, 0, 0)), None);
    assert_eq!(relative(0, 1, 100).partial_cmp(&relative(0, 1, 0)), None);
    let one = Spacing::Fractional(Fr { weight: 1 });
    let two = Spacing::Fractional(Fr { weight: 2 });
    assert_eq!(one.partial_cmp(&two), Some(Ordering::Less));
    assert_eq!(two.partial_cmp(&two), Some(Ordering::Equal));
    assert_eq!(two.partial_cmp(&one), Some(Ordering::Greater));
    assert_eq!(one.partial_cmp(&relative(0, 1, 0)), None);
    assert_eq!(relative(0, 1, 0).partial_cmp(&one), None);
}

#[test]
fn children_are_ordered_where_both_are_spacing() {
    let small: FlowChild<u8> = FlowChild::Spacing(relative(0, 1, 0));
    let large: FlowChild<u8> = FlowChild::Spacing(relative(0, 2, 0));
    assert_eq!(small.partial_cmp(&large), Some(Ordering::Less));
    assert_eq!(large.partial_cmp(&small), Some(Ordering::Greater));
    assert_eq!(small.partial_cmp(&small), Some(Ordering::Equal));
    assert_eq!(small.partial_cmp(&FlowChild::Colbreak), None);
    assert_eq!(FlowChild::<u8>::Colbreak.partial_cmp(&FlowChild::Colbreak), None);
    assert_eq!(FlowChild::Node(1u8).partial_cmp(&FlowChild::Node(1u8)), None);
    assert_eq!(FlowChild::Node(1u8).partial_cmp(&small), None);
    assert!(FlowChild::Node(1u8) == FlowChild::Node(1u8));
    assert!(small != large);
}
