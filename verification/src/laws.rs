//! What holds of flow layout in general.

use crate::align::Align;
use crate::content::{Alignment, Placement};
use crate::model::{flow_run, node_aligns, ChildKind, FlowState, Outcome, Staged};
use crate::frame::{FrameView, Role};
use crate::geom::{div_trunc, Abs, Axes, Point, Size};
use crate::length::{Fr, Spacing};
use crate::regions::RegionsView;
use crate::style::{StyleChain, StyleMap};
use vstd::prelude::*;

verus! {

/// The running totals depend only on the items they are taken over.
proof fn lemma_totals_of_prefix(a: FlowState, b: FlowState, n: int)
    requires
        n <= a.items.len(),
        n <= b.items.len(),
        forall|i: int| 0 <= i < n ==> a.items[i] == b.items[i],
    ensures
        a.weight_at(n) == b.weight_at(n),
        a.width_at(n) == b.width_at(n),
    decreases n,
{
    if n > 0 {
        lemma_totals_of_prefix(a, b, n - 1);
    }
}

/// Layout begins in a well-formed state.
pub proof fn lemma_start_wf(regions: RegionsView)
    ensures
        FlowState::start(regions).wf(),
{
}

/// Laying out spacing keeps the state well-formed.
pub proof fn lemma_spacing_wf(state: FlowState, spacing: Spacing, styles: StyleChain)
    requires
        state.wf(),
    ensures
        state.spacing(spacing, styles).wf(),
{
    lemma_totals_of_prefix(state, state.spacing(spacing, styles), state.items.len() as int);
}

/// Finishing a region keeps the state well-formed.
pub proof fn lemma_finish_region_wf(state: FlowState)
    requires
        state.wf(),
    ensures
        state.finish_region().wf(),
        state.prepared().wf(),
{
}

/// Staging the frames of a node keeps the state well-formed.
pub proof fn lemma_node_wf(
    state: FlowState,
    placement: Option<Placement>,
    alignment: Option<Alignment>,
    frames: Seq<FrameView>,
    styles: StyleChain,
)
    requires
        state.wf(),
    ensures
        state.node(placement, alignment, frames, styles).wf(),
{
    lemma_totals_of_prefix(state, state.placed(frames), state.items.len() as int);
    lemma_flowed_wf(state, frames, node_aligns(alignment, styles), frames.len() as int);
}

proof fn lemma_staged_wf(state: FlowState, frame: FrameView, aligns: Axes<Align>)
    requires
        state.wf(),
    ensures
        state.staged(frame, aligns).wf(),
{
    lemma_totals_of_prefix(state, state.staged(frame, aligns), state.items.len() as int);
}

proof fn lemma_flowed_wf(state: FlowState, frames: Seq<FrameView>, aligns: Axes<Align>, n: int)
    requires
        state.wf(),
    ensures
        state.flowed(frames, aligns, n).wf(),
    decreases n,
{
    if n <= 0 {
    } else if n == 1 {
        lemma_staged_wf(state, frames[0], aligns);
    } else {
        lemma_flowed_wf(state, frames, aligns, n - 1);
        let before = state.flowed(frames, aligns, n - 1);
        lemma_finish_region_wf(before);
        lemma_staged_wf(before.finish_region(), frames[n - 1], aligns);
    }
}

/// Laying out a child keeps the state well-formed.
pub proof fn lemma_child_wf(
    state: FlowState,
    kind: ChildKind,
    styles: StyleChain,
    outcome: Outcome,
)
    requires
        state.wf(),
    ensures
        state.child(kind, styles, outcome) matches Ok(next) ==> next.wf(),
{
    match kind {
        ChildKind::Spacing(spacing) => lemma_spacing_wf(state, spacing, styles),
        ChildKind::Colbreak => lemma_finish_region_wf(state),
        ChildKind::Node => {
            lemma_finish_region_wf(state);
            if let Ok(frames) = outcome.frames {
                lemma_node_wf(
                    state.prepared(),
                    outcome.placement,
                    outcome.alignment,
                    frames,
                    styles,
                );
            }
        },
    }
}

/// Whatever the children of a flow are and whatever they answer, the state
/// of the layouter is well-formed after each of them.
pub proof fn lemma_flow_run_wf(
    children: Seq<(ChildKind, StyleMap)>,
    outcomes: Seq<Outcome>,
    regions: RegionsView,
    styles: StyleChain,
    n: int,
)
    ensures
        flow_run(children, outcomes, regions, styles, n) matches Ok(state) ==> state.wf(),
    decreases n,
{
    if n <= 0 {
        lemma_start_wf(regions);
    } else {
        lemma_flow_run_wf(children, outcomes, regions, styles, n - 1);
        if let Ok(state) = flow_run(children, outcomes, regions, styles, n - 1) {
            lemma_child_wf(
                state,
                children[n - 1].0,
                children[n - 1].1.spec_chain(styles),
                outcomes[n - 1],
            );
        }
    }
}

/// The sum of the weights is at least each weight that went into it.
proof fn lemma_weight_at_least(state: FlowState, i: int, n: int)
    requires
        0 <= i < n <= state.items.len(),
        state.items[i] is Fractional,
    ensures
        state.weight_at(n).weight >= state.items[i]->Fractional_0.weight,
    decreases n,
{
    if i < n - 1 {
        lemma_weight_at_least(state, i, n - 1);
    }
}

/// Fractional spacing forces full consumption: where a bounded region holds
/// a fractional spacer of positive weight, the frame for the region is
/// exactly as high as the region was to begin with, whether or not the flow
/// expands.
pub proof fn lemma_fractional_spacing_fills_region(state: FlowState, i: int)
    requires
        state.wf(),
        state.full.y is Finite,
        0 <= i < state.items.len(),
        state.items[i] matches Staged::Fractional(v) && v.weight > 0,
    ensures
        state.region_frame().size.y == state.full.y,
        state.finish_region().finished.last().size.y == state.full.y,
{
    lemma_weight_at_least(state, i, state.items.len() as int);
}

/// Without fractional spacing of positive weight, and in any unbounded
/// region, the frame is as high as the region where the flow expands
/// vertically and as high as its content where it does not.
pub proof fn lemma_frame_height_without_fractions(state: FlowState)
    requires
        state.fr.weight == 0 || !(state.full.y is Finite),
    ensures
        state.region_frame().size.y == if state.expand.y {
            state.full.y
        } else {
            state.used.y
        },
        state.region_frame().size.x == if state.expand.x {
            state.full.x
        } else {
            state.used.x
        },
{
}

/// Finishing a region that holds nothing and has no fractional weight yields
/// a frame without children, whose size is the full size of the region on
/// the axes along which the flow expands and the used size on the others.
pub proof fn lemma_empty_region_frame(state: FlowState)
    requires
        state.items.len() == 0,
        state.fr.weight == 0,
    ensures
        state.region_frame() == FrameView::new(state.expand.spec_select(state.full, state.used)),
        state.finish_region().finished == state.finished.push(
            FrameView::new(state.expand.spec_select(state.full, state.used)),
        ),
{
}

/// Finishing an untouched region again and again yields the same empty frame
/// each time, as long as no other region follows.
pub proof fn lemma_empty_region_again(state: FlowState)
    requires
        state.items.len() == 0,
        state.fr.weight == 0,
        state.used == Size::spec_zero(),
        state.full == state.regions.first,
        state.regions.backlog.len() == 0,
    ensures
        state.finish_region() == (FlowState {
            finished: state.finished.push(state.region_frame()),
            ..state
        }),
        state.finish_region().region_frame() == state.region_frame(),
        state.region_frame() == FrameView::new(
            state.expand.spec_select(state.full, Size::spec_zero()),
        ),
{
    assert(state.items =~= Seq::empty());
}

/// The frames of a region come out in the order in which they were staged:
/// the frame that the item at `i` holds is the child that follows those of
/// the items before it, and it stands where [`FlowState::placement`] says.
pub proof fn lemma_arranged_holds_placement(state: FlowState, i: int, n: int)
    requires
        0 <= i < n <= state.items.len(),
        state.placement(i) is Some,
    ensures
        state.arranged(i).len() < state.arranged(n).len(),
        state.arranged(n)[state.arranged(i).len() as int] == state.placement(i)->Some_0,
    decreases n,
{
    if i < n - 1 {
        lemma_arranged_holds_placement(state, i, n - 1);
    }
}

/// A node that is out of the flow contributes nothing to the used size, to
/// the space that is left or to the fractional total.
pub proof fn lemma_placed_takes_no_room(state: FlowState, frames: Seq<FrameView>)
    ensures
        state.placed(frames) == (FlowState {
            items: state.placed(frames).items,
            ..state
        }),
        state.placed(frames).items == if frames.len() > 0 {
            state.items.push(Staged::Placed(frames[0]))
        } else {
            state.items
        },
{
}

/// A placed frame appears at the origin of the frame for its region, unmoved
/// and unchanged, whatever is staged around it and whatever alignment is in
/// effect.
pub proof fn lemma_placed_stands_at_origin(state: FlowState, i: int)
    requires
        0 <= i < state.items.len(),
        state.items[i] is Placed,
    ensures
        state.arranged(i).len() < state.region_frame().children.len(),
        state.region_frame().children[state.arranged(i).len() as int] == (
            Point::spec_zero(),
            state.items[i]->Placed_0,
        ),
{
    lemma_arranged_holds_placement(state, i, state.items.len() as int);
}

/// The frame of a node as it is staged in the flow.
pub open spec fn in_flow(frame: FrameView, aligns: Axes<Align>) -> Staged {
    Staged::Frame(frame.apply_role(Role::GenericBlock), aligns)
}

/// A region that holds nothing but one frame of a node has a frame with
/// that one child.
proof fn lemma_lone_frame(state: FlowState, frame: FrameView, aligns: Axes<Align>)
    requires
        state.items.len() == 0,
    ensures
        state.staged(frame, aligns).region_frame().children.len() == 1,
        state.staged(frame, aligns).region_frame().children[0].1 == frame.apply_role(
            Role::GenericBlock,
        ),
{
    let next = state.staged(frame, aligns);
    assert(next.arranged(0) =~= Seq::empty());
}

/// Each frame of a node lands in a region of its own.
///
/// After the first `n` of the frames that a node was laid out into were
/// staged, `n - 1` more regions are finished than before. The first of them
/// holds what was staged before the node and the first frame. Each of the
/// others holds exactly one frame of the node and nothing else. The last
/// frame waits in the current region, alone unless it is also the first, and
/// nothing that is staged later can join an earlier frame of the node.
pub proof fn lemma_node_frames_get_own_regions(
    state: FlowState,
    frames: Seq<FrameView>,
    aligns: Axes<Align>,
    n: int,
)
    requires
        1 <= n <= frames.len(),
    ensures
        ({
            let next = state.flowed(frames, aligns, n);
            let done = state.finished.len() as int;
            &&& next.finished.len() == done + n - 1
            &&& next.finished.subrange(0, done) == state.finished
            &&& n == 1 ==> next.items == state.items.push(in_flow(frames[0], aligns))
            &&& n >= 2 ==> next.items == seq![in_flow(frames[n - 1], aligns)]
            &&& n >= 2 ==> next.finished[done] == state.staged(frames[0], aligns).region_frame()
            &&& forall|i: int|
                1 <= i < n - 1 ==> (#[trigger] next.finished[done + i]).children.len() == 1
                    && next.finished[done + i].children[0].1 == frames[i].apply_role(
                    Role::GenericBlock,
                )
        }),
    decreases n,
{
    if n >= 2 {
        lemma_node_frames_get_own_regions(state, frames, aligns, n - 1);
        if n >= 3 {
            let earlier = state.flowed(frames, aligns, n - 2).finish_region();
            lemma_lone_frame(earlier, frames[n - 2], aligns);
        }
    }
}

/// Staging the frames of a node leaves the frames of finished regions as
/// they are.
proof fn lemma_flowed_keeps_finished(
    state: FlowState,
    frames: Seq<FrameView>,
    aligns: Axes<Align>,
    n: int,
)
    ensures
        state.finished.len() <= state.flowed(frames, aligns, n).finished.len(),
        state.flowed(frames, aligns, n).finished.subrange(0, state.finished.len() as int)
            == state.finished,
    decreases n,
{
    if n >= 2 {
        lemma_flowed_keeps_finished(state, frames, aligns, n - 1);
    }
    assert(state.flowed(frames, aligns, n).finished.subrange(0, state.finished.len() as int)
        =~= state.finished);
}

/// A region that is finished stays as it is: whatever child is laid out
/// next, the frames of the finished regions are still there, unchanged and
/// in the same order, and new ones only follow them.
pub proof fn lemma_finished_frames_stay(
    state: FlowState,
    kind: ChildKind,
    styles: StyleChain,
    outcome: Outcome,
)
    ensures
        state.child(kind, styles, outcome) matches Ok(next) ==> state.finished.len()
            <= next.finished.len() && next.finished.subrange(0, state.finished.len() as int)
            == state.finished,
{
    if let Ok(next) = state.child(kind, styles, outcome) {
        if let Ok(frames) = outcome.frames {
            lemma_flowed_keeps_finished(
                state.prepared(),
                frames,
                node_aligns(outcome.alignment, styles),
                frames.len() as int,
            );
        }
        assert(next.finished.subrange(0, state.finished.len() as int) =~= state.finished);
    }
}

/// The extent that the child at `i` asks for, if it is relative spacing:
/// its length under its own styles, relative to the full height of the
/// region.
pub open spec fn spacing_asked(
    children: Seq<(ChildKind, StyleMap)>,
    regions: RegionsView,
    styles: StyleChain,
    i: int,
) -> Abs {
    match children[i].0 {
        ChildKind::Spacing(Spacing::Relative(v)) => v.spec_resolve(
            children[i].1.spec_chain(styles),
        ).spec_relative_to(regions.first.y),
        _ => Abs::Finite(0),
    }
}

/// The height that the region has left after the first `n` spacings.
pub open spec fn spacing_left(
    children: Seq<(ChildKind, StyleMap)>,
    regions: RegionsView,
    styles: StyleChain,
    n: int,
) -> Abs
    decreases n, 0int,
{
    if n <= 0 {
        regions.first.y
    } else {
        spacing_left(children, regions, styles, n - 1).spec_minus(
            spacing_clamped(children, regions, styles, n - 1),
        )
    }
}

/// The extent that the spacing at `i` takes from the region: what it asks
/// for, but no more than the region has left at that time, and no less than
/// nothing.
pub open spec fn spacing_clamped(
    children: Seq<(ChildKind, StyleMap)>,
    regions: RegionsView,
    styles: StyleChain,
    i: int,
) -> Abs
    decreases i, 1int,
{
    spacing_asked(children, regions, styles, i).spec_min(
        spacing_left(children, regions, styles, i),
    ).spec_max(Abs::Finite(0))
}

/// The sum of what the first `n` spacings take from the region.
pub open spec fn spacing_taken(
    children: Seq<(ChildKind, StyleMap)>,
    regions: RegionsView,
    styles: StyleChain,
    n: int,
) -> Abs
    decreases n,
{
    if n <= 0 {
        Abs::Finite(0)
    } else {
        spacing_taken(children, regions, styles, n - 1).spec_plus(
            spacing_clamped(children, regions, styles, n - 1),
        )
    }
}

/// Whether the first `n` children are all relative spacing.
pub open spec fn only_relative_spacing(children: Seq<(ChildKind, StyleMap)>, n: int) -> bool {
    forall|i: int| 0 <= i < n ==> (#[trigger] children[i]).0 matches ChildKind::Spacing(
        Spacing::Relative(_),
    )
}

/// In a flow that holds nothing but relative spacing, the used height is the
/// sum of the clamped spacings, each clamped to what the region had left
/// when it was staged. The region loses the same amount, no region is
/// finished, and nothing else is used.
pub proof fn lemma_spacing_only_used_height(
    children: Seq<(ChildKind, StyleMap)>,
    outcomes: Seq<Outcome>,
    regions: RegionsView,
    styles: StyleChain,
    n: int,
)
    requires
        0 <= n <= children.len(),
        only_relative_spacing(children, n),
    ensures
        flow_run(children, outcomes, regions, styles, n) matches Ok(state) && {
            &&& state.used.y == spacing_taken(children, regions, styles, n)
            &&& state.used.x == Abs::Finite(0)
            &&& state.regions.first.y == spacing_left(children, regions, styles, n)
            &&& state.full == regions.first
            &&& state.finished.len() == 0
            &&& state.items.len() == n
        },
    decreases n,
{
    if n > 0 {
        lemma_spacing_only_used_height(children, outcomes, regions, styles, n - 1);
    }
}

/// In a bounded region, spacing never takes more than the region holds: the
/// used height and the height that is left are finite, neither is negative,
/// and together they make up the full height of the region.
pub proof fn lemma_spacing_only_fits_region(
    children: Seq<(ChildKind, StyleMap)>,
    regions: RegionsView,
    styles: StyleChain,
    n: int,
)
    requires
        0 <= n <= children.len(),
        regions.first.y matches Abs::Finite(h) && h >= 0,
    ensures
        spacing_taken(children, regions, styles, n) is Finite,
        spacing_left(children, regions, styles, n) is Finite,
        0 <= spacing_taken(children, regions, styles, n).ext(),
        0 <= spacing_left(children, regions, styles, n).ext(),
        spacing_taken(children, regions, styles, n).ext() + spacing_left(
            children,
            regions,
            styles,
            n,
        ).ext() == regions.first.y.ext(),
    decreases n,
{
    if n > 0 {
        lemma_spacing_only_fits_region(children, regions, styles, n - 1);
    }
}

/// Two fractional spacers of equal weight that share a leftover between them
/// get half of it each, rounded toward zero. Of an unbounded leftover they
/// get nothing.
pub proof fn lemma_equal_weights_halve(w: Fr, remaining: Abs)
    requires
        w.weight > 0,
        2 * w.weight <= u64::MAX,
    ensures
        w.spec_share(w.spec_plus(w), remaining) == Abs::spec_half(
            if remaining is Finite {
                remaining
            } else {
                Abs::Finite(0)
            },
        ),
{
    if let Abs::Finite(h) = remaining {
        let total: int = 2 * w.weight;
        let weight: int = w.weight as int;
        if h >= 0 {
            assert((h * weight) / total == h / 2) by (nonlinear_arith)
                requires
                    h >= 0,
                    weight > 0,
                    total == 2 * weight,
            ;
        } else {
            assert(((-(h * weight))) / total == (-h) / 2) by (nonlinear_arith)
                requires
                    h < 0,
                    weight > 0,
                    total == 2 * weight,
            ;
            assert(h * weight < 0) by (nonlinear_arith)
                requires
                    h < 0,
                    weight > 0,
            ;
        }
    }
}

/// Two fractional spacers alone in a bounded region of height `h` take up
/// half of `h` each, if their weights are equal.
pub proof fn lemma_two_equal_spacers_split_region(
    regions: RegionsView,
    w: Fr,
    styles: StyleChain,
    h: i64,
)
    requires
        regions.first.y == Abs::Finite(h),
        w.weight > 0,
        2 * w.weight <= u64::MAX,
    ensures
        ({
            let state = FlowState::start(regions).spacing(Spacing::Fractional(w), styles).spacing(
                Spacing::Fractional(w),
                styles,
            );
            &&& state.extent(0) == Abs::Finite(div_trunc(h as int, 2) as i64)
            &&& state.extent(1) == Abs::Finite(div_trunc(h as int, 2) as i64)
            &&& state.region_frame().size.y == Abs::Finite(h)
        }),
{
    lemma_equal_weights_halve(w, Abs::Finite(h));
}

/// Shares follow the weights: of a leftover that is not negative, the shares
/// of two weights stand in the ratio of the weights, up to what rounding
/// each share down to a whole unit takes away. Where the total divides the
/// product of a weight and the leftover, the share of that weight is exact.
pub proof fn lemma_shares_follow_weights(a: Fr, b: Fr, total: Fr, remaining: i64)
    requires
        total.weight > 0,
        a.weight <= total.weight,
        b.weight <= total.weight,
        remaining >= 0,
    ensures
        a.spec_share(total, Abs::Finite(remaining)) is Finite,
        b.spec_share(total, Abs::Finite(remaining)) is Finite,
        ({
            let share_a = a.spec_share(total, Abs::Finite(remaining)).ext();
            let share_b = b.spec_share(total, Abs::Finite(remaining)).ext();
            &&& 0 <= share_a <= remaining
            &&& 0 <= share_b <= remaining
            &&& -(b.weight as int) <= b.weight * share_a - a.weight * share_b <= a.weight
            &&& a.weight > 0 ==> b.weight * share_a - a.weight * share_b < a.weight
            &&& b.weight > 0 ==> -(b.weight as int) < b.weight * share_a - a.weight * share_b
            &&& (a.weight * remaining) % (total.weight as int) == 0 ==> share_a * total.weight
                == a.weight * remaining
        }),
{
    let t: int = total.weight as int;
    let r: int = remaining as int;
    let x: int = a.weight as int;
    let y: int = b.weight as int;
    let qa: int = (r * x) / t;
    let qb: int = (r * y) / t;
    assert(0 <= qa <= r && t * qa <= r * x < t * qa + t && ((x * r) % t == 0 ==> qa * t == x * r))
        by (nonlinear_arith)
        requires
            t > 0,
            0 <= x <= t,
            r >= 0,
            qa == (r * x) / t,
    ;
    assert(0 <= qb <= r && t * qb <= r * y < t * qb + t) by (nonlinear_arith)
        requires
            t > 0,
            0 <= y <= t,
            r >= 0,
            qb == (r * y) / t,
    ;
    let d: int = y * qa - x * qb;
    assert(t * d <= x * t - x) by (nonlinear_arith)
        requires
            d == y * qa - x * qb,
            0 <= x,
            0 <= y,
            t * qa <= r * x,
            r * y + 1 <= t * qb + t,
    ;
    assert(t * d >= y - y * t) by (nonlinear_arith)
        requires
            d == y * qa - x * qb,
            0 <= x,
            0 <= y,
            t * qb <= r * y,
            r * x + 1 <= t * qa + t,
    ;
    assert(d <= x && (x > 0 ==> d < x)) by (nonlinear_arith)
        requires
            t > 0,
            0 <= x,
            t * d <= x * t - x,
    ;
    assert(d >= -y && (y > 0 ==> d > -y)) by (nonlinear_arith)
        requires
            t > 0,
            0 <= y,
            t * d >= y - y * t,
    ;
}

/// Spacing only ever takes from the region: after spacing was laid out, the
/// region has no more height left than before, and the used height is no
/// less.
pub proof fn lemma_spacing_only_shrinks_region(
    state: FlowState,
    spacing: Spacing,
    styles: StyleChain,
)
    ensures
        state.spacing(spacing, styles).regions.first.y.ext() <= state.regions.first.y.ext(),
        state.spacing(spacing, styles).used.y.ext() >= state.used.y.ext(),
        state.spacing(spacing, styles).full == state.full,
        state.spacing(spacing, styles).finished == state.finished,
{
}

/// A frame of a node takes its own height from the region, if that height is
/// not negative, and makes the used size no smaller on either axis.
pub proof fn lemma_frame_only_shrinks_region(
    state: FlowState,
    frame: FrameView,
    aligns: Axes<Align>,
)
    requires
        frame.size.y.ext() >= 0,
    ensures
        state.staged(frame, aligns).regions.first.y.ext() <= state.regions.first.y.ext(),
        state.staged(frame, aligns).used.y.ext() >= state.used.y.ext(),
        state.staged(frame, aligns).used.x.ext() >= state.used.x.ext(),
        state.staged(frame, aligns).used.x.ext() >= frame.size.x.ext(),
{
}

/// Layout ends with a frame for the current region after those of the
/// finished ones, so with at least one frame. A flow that expands vertically
/// ends with one more frame for each region that was offered and not
/// reached, as high as that region.
pub proof fn lemma_finish_covers_regions(state: FlowState)
    ensures
        state.finish().len() == state.finished.len() + 1 + if state.expand.y {
            state.regions.backlog.len()
        } else {
            0
        },
        state.finish().subrange(0, state.finished.len() as int) == state.finished,
        state.finish()[state.finished.len() as int] == state.region_frame(),
        state.expand.y ==> forall|j: int|
            0 <= j < state.regions.backlog.len() ==> (#[trigger] state.finish()[state.finished.len()
                + 1 + j]).size.y == state.regions.backlog[j] && state.finish()[state.finished.len()
                + 1 + j].children.len() == 0,
{
}

/// Adding up extents that are not negative never leads back up the page.
proof fn lemma_offset_grows(state: FlowState, i: int, j: int)
    requires
        0 <= i <= j <= state.items.len(),
        forall|k: int| i <= k < j ==> state.extent(k).ext() >= 0,
    ensures
        state.offset_at(i).ext() <= state.offset_at(j).ext(),
    decreases j - i,
{
    if i < j {
        lemma_offset_grows(state, i, j - 1);
    }
}

/// The lowest alignment so far never moves back toward the top.
proof fn lemma_ruler_grows(state: FlowState, i: int, j: int)
    requires
        0 <= i <= j <= state.items.len(),
    ensures
        state.ruler_at(i).rank() <= state.ruler_at(j).rank(),
    decreases j - i,
{
    if i < j {
        lemma_ruler_grows(state, i, j - 1);
    }
}

/// Frames in the flow stack and do not overlap, however each of them is
/// aligned: a later frame stands at or below the bottom edge of an earlier
/// one, provided that the frame for the region is no lower than its content
/// and that nothing from the earlier frame on has a negative extent.
pub proof fn lemma_frames_stack(state: FlowState, i: int, j: int)
    requires
        0 <= i < j < state.items.len(),
        state.items[i] is Frame,
        state.items[j] is Frame,
        state.slack().ext() >= 0,
        forall|k: int| i <= k < j ==> state.extent(k).ext() >= 0,
    ensures
        state.placement(j)->Some_0.0.y.ext() >= state.placement(i)->Some_0.0.y.spec_plus(
            state.items[i]->Frame_0.size.y,
        ).ext(),
{
    lemma_offset_grows(state, i + 1, j);
    lemma_ruler_grows(state, i + 1, j + 1);
}

} // verus!
