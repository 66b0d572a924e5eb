//! The state of a flow layout as a mathematical value, and what each step
//! of the layout makes of it.

use crate::align::Align;
use crate::content::{Alignment, Layout, LayoutError, Placement};
use crate::frame::{frames_view, Frame, FrameView, Role};
use crate::geom::{Abs, Axes, Point, Size};
use crate::length::{Fr, Spacing};
use crate::regions::{Regions, RegionsView};
use crate::style::{StyleChain, StyleMap};
use vstd::prelude::*;

verus! {

/// An item that waits for its region to be finished, as a mathematical
/// value.
pub ghost enum Staged {
    /// Absolute spacing between other items.
    Absolute(Abs),
    /// Fractional spacing between other items.
    Fractional(Fr),
    /// A frame for a laid out node and how to align it.
    Frame(FrameView, Axes<Align>),
    /// A frame that is placed at the origin of the region.
    Placed(FrameView),
}

/// The state of a flow layout, as a mathematical value.
pub ghost struct FlowState {
    /// The regions to lay out into; the first is what is left of the current
    /// region.
    pub regions: RegionsView,
    /// Whether the flow fills its regions.
    pub expand: Axes<bool>,
    /// The size of the current region before anything was put into it.
    pub full: Size,
    /// The size that the content of the current region takes up.
    pub used: Size,
    /// The sum of the fractional weights in the current region.
    pub fr: Fr,
    /// What the current region holds so far, in order of arrival.
    pub items: Seq<Staged>,
    /// The frames of the regions that are finished.
    pub finished: Seq<FrameView>,
}

impl FlowState {
    /// The state in which layout into `regions` begins. Nodes are laid out
    /// into regions that do not expand vertically, whether or not the flow
    /// itself does.
    pub open spec fn start(regions: RegionsView) -> FlowState {
        FlowState {
            regions: RegionsView {
                expand: Axes { x: regions.expand.x, y: false },
                ..regions
            },
            expand: regions.expand,
            full: regions.first,
            used: Size::spec_zero(),
            fr: Fr::spec_zero(),
            items: Seq::empty(),
            finished: Seq::empty(),
        }
    }

    /// The sum of the fractional weights among the first `n` items.
    pub open spec fn weight_at(self, n: int) -> Fr
        decreases n,
    {
        if n <= 0 {
            Fr::spec_zero()
        } else {
            match self.items[n - 1] {
                Staged::Fractional(v) => self.weight_at(n - 1).spec_plus(v),
                _ => self.weight_at(n - 1),
            }
        }
    }

    /// The width of the widest frame in the flow among the first `n` items.
    pub open spec fn width_at(self, n: int) -> Abs
        decreases n,
    {
        if n <= 0 {
            Abs::Finite(0)
        } else {
            match self.items[n - 1] {
                Staged::Frame(frame, _) => self.width_at(n - 1).spec_max(frame.size.x),
                _ => self.width_at(n - 1),
            }
        }
    }

    /// What holds of the state of every layouter: the running totals agree
    /// with what is staged, the region is as wide as it was, and nodes are
    /// not asked to expand vertically.
    pub open spec fn wf(self) -> bool {
        &&& self.fr == self.weight_at(self.items.len() as int)
        &&& self.used.x == self.width_at(self.items.len() as int)
        &&& self.full.x == self.regions.first.x
        &&& !self.regions.expand.y
    }
}

/// Finishing a region.
impl FlowState {
    /// Whether fractional spacing claims what is left of the current region:
    /// there is some, and the region is bounded.
    pub open spec fn fills(self) -> bool {
        self.fr.weight > 0 && self.full.y is Finite
    }

    /// The space that the current region has left over for fractional
    /// spacing to share.
    pub open spec fn leftover(self) -> Abs {
        self.full.y.spec_minus(self.used.y)
    }

    /// The size of the frame for the current region: on each axis the full
    /// size of the region where the flow expands and the size of the content
    /// where it does not, and the full height in any case where fractional
    /// spacing fills the region.
    pub open spec fn frame_size(self) -> Size {
        let size = self.expand.spec_select(self.full, self.used);
        if self.fills() {
            Size { x: size.x, y: self.full.y }
        } else {
            size
        }
    }

    /// The height by which the frame for the current region exceeds its
    /// content.
    pub open spec fn slack(self) -> Abs {
        if self.fills() {
            Abs::Finite(0)
        } else {
            self.frame_size().y.spec_minus(self.used.y)
        }
    }

    /// The height that the item at `i` takes up when the region is finished.
    pub open spec fn extent(self, i: int) -> Abs {
        match self.items[i] {
            Staged::Absolute(v) => v,
            Staged::Fractional(v) => v.spec_share(self.fr, self.leftover()),
            Staged::Frame(frame, _) => frame.size.y,
            Staged::Placed(_) => Abs::Finite(0),
        }
    }

    /// The height that the first `n` items take up together.
    pub open spec fn offset_at(self, n: int) -> Abs
        decreases n,
    {
        if n <= 0 {
            Abs::Finite(0)
        } else {
            self.offset_at(n - 1).spec_plus(self.extent(n - 1))
        }
    }

    /// The vertical alignment that lies furthest toward the bottom among the
    /// frames in the first `n` items.
    pub open spec fn ruler_at(self, n: int) -> Align
        decreases n,
    {
        if n <= 0 {
            Align::Start
        } else {
            match self.items[n - 1] {
                Staged::Frame(_, aligns) => self.ruler_at(n - 1).spec_max(aligns.y),
                _ => self.ruler_at(n - 1),
            }
        }
    }

    /// Where the item at `i` comes to stand in the frame for the region, if
    /// it is one that holds a frame.
    ///
    /// A frame in the flow stands below the items before it, moved down by
    /// what the lowest alignment so far makes of the slack, and across as its
    /// own horizontal alignment says. A placed frame stands at the origin.
    pub open spec fn placement(self, i: int) -> Option<(Point, FrameView)> {
        match self.items[i] {
            Staged::Frame(frame, aligns) => Some(
                (
                    Point {
                        x: aligns.x.spec_position(self.frame_size().x.spec_minus(frame.size.x)),
                        y: self.offset_at(i).spec_plus(
                            self.ruler_at(i + 1).spec_position(self.slack()),
                        ),
                    },
                    frame,
                ),
            ),
            Staged::Placed(frame) => Some((Point::spec_zero(), frame)),
            _ => None,
        }
    }

    /// The positioned frames of the first `n` items, in order.
    pub open spec fn arranged(self, n: int) -> Seq<(Point, FrameView)>
        decreases n,
    {
        if n <= 0 {
            Seq::empty()
        } else {
            match self.placement(n - 1) {
                Some(child) => self.arranged(n - 1).push(child),
                None => self.arranged(n - 1),
            }
        }
    }

    /// The frame for the current region.
    pub open spec fn region_frame(self) -> FrameView {
        FrameView {
            size: self.frame_size(),
            role: None,
            children: self.arranged(self.items.len() as int),
        }
    }

    /// The state after the current region was finished: its frame joins the
    /// finished ones, and the next region starts out empty.
    pub open spec fn finish_region(self) -> FlowState {
        FlowState {
            regions: self.regions.next(),
            expand: self.expand,
            full: self.regions.next().first,
            used: Size::spec_zero(),
            fr: Fr::spec_zero(),
            items: Seq::empty(),
            finished: self.finished.push(self.region_frame()),
        }
    }

    /// The frame for the region that has the height `backlog[j]` and holds
    /// nothing.
    pub open spec fn blank(self, j: int) -> FrameView {
        FrameView::new(
            self.expand.spec_select(
                Size { x: self.regions.first.x, y: self.regions.backlog[j] },
                Size::spec_zero(),
            ),
        )
    }

    /// The state after the current region and the `k - 1` regions that
    /// follow it were finished, nothing having been put into the latter, for
    /// a flow that expands vertically and a `k` of at least one.
    pub open spec fn skipped(self, k: int) -> FlowState {
        let region = Size { x: self.regions.first.x, y: self.regions.backlog[k - 1] };
        FlowState {
            regions: RegionsView {
                first: region,
                backlog: self.regions.backlog.skip(k),
                expand: self.regions.expand,
            },
            expand: self.expand,
            full: region,
            used: Size::spec_zero(),
            fr: Fr::spec_zero(),
            items: Seq::empty(),
            finished: self.finished.push(self.region_frame()) + Seq::new(
                (k - 1) as nat,
                |j: int| self.blank(j),
            ),
        }
    }

    /// The frames that layout ends with: those of the finished regions and
    /// that of the current one, and, where the flow expands vertically, an
    /// empty frame for each region that was never reached.
    pub open spec fn finish(self) -> Seq<FrameView> {
        if self.expand.y {
            self.finished.push(self.region_frame()) + Seq::new(
                self.regions.backlog.len(),
                |j: int| self.blank(j),
            )
        } else {
            self.finished.push(self.region_frame())
        }
    }
}

/// Whether a node with this answer about its placement is kept out of the
/// flow.
pub open spec fn is_out_of_flow(placement: Option<Placement>) -> bool {
    match placement {
        Some(p) => p.out_of_flow,
        None => false,
    }
}

/// How the frames of a node are aligned: across as paragraphs are under
/// `styles`, and down as the node says, at the top where it says nothing.
pub open spec fn node_aligns(alignment: Option<Alignment>, styles: StyleChain) -> Axes<Align> {
    Axes {
        x: styles.par_align,
        y: match alignment {
            Some(a) => match a.aligns.y {
                Some(raw) => raw.spec_resolve(styles),
                None => Align::Start,
            },
            None => Align::Start,
        },
    }
}

/// What kind of child a flow holds at some place.
pub ghost enum ChildKind {
    /// Vertical spacing between other children.
    Spacing(Spacing),
    /// A block-level node.
    Node,
    /// A column break.
    Colbreak,
}

/// What a node answered when the layouter asked it: its placement, its
/// alignment, and the frames it was laid out into or the reason why it was
/// not.
pub ghost struct Outcome {
    pub placement: Option<Placement>,
    pub alignment: Option<Alignment>,
    pub frames: Result<Seq<FrameView>, LayoutError>,
}

/// What laying out a node resulted in, as a mathematical value.
pub open spec fn laid_view(laid: Result<Vec<Frame>, LayoutError>) -> Result<
    Seq<FrameView>,
    LayoutError,
> {
    match laid {
        Ok(frames) => Ok(frames_view(frames@)),
        Err(e) => Err(e),
    }
}

/// Whether `outcome` is something that `node` can answer when it is asked
/// for its placement and its alignment and is laid out into `regions` under
/// `styles`.
pub open spec fn answers<N: Layout>(
    node: &N,
    regions: RegionsView,
    styles: StyleChain,
    outcome: Outcome,
) -> bool {
    &&& call_ensures(N::as_placement, (node,), outcome.placement)
    &&& call_ensures(N::as_alignment, (node,), outcome.alignment)
    &&& exists|handed: Regions, laid: Result<Vec<Frame>, LayoutError>|
        {
            &&& handed@ == regions
            &&& #[trigger] call_ensures(N::layout, (node, &handed, styles), laid)
            &&& outcome.frames == laid_view(laid)
        }
}

/// Laying out the children of a flow.
impl FlowState {
    /// The state after spacing was laid out.
    ///
    /// Relative spacing is resolved against the full height of the region.
    /// It takes from the region what it asks for, but no more than is left
    /// and no less than nothing, and is staged with the extent it asked for.
    /// Fractional spacing takes nothing from the region; its weight counts
    /// toward the total.
    pub open spec fn spacing(self, spacing: Spacing, styles: StyleChain) -> FlowState {
        match spacing {
            Spacing::Relative(v) => {
                let resolved = v.spec_resolve(styles).spec_relative_to(self.full.y);
                let limited = resolved.spec_min(self.regions.first.y).spec_max(Abs::Finite(0));
                FlowState {
                    regions: RegionsView {
                        first: Size {
                            x: self.regions.first.x,
                            y: self.regions.first.y.spec_minus(limited),
                        },
                        ..self.regions
                    },
                    used: Size { x: self.used.x, y: self.used.y.spec_plus(limited) },
                    items: self.items.push(Staged::Absolute(resolved)),
                    ..self
                }
            },
            Spacing::Fractional(v) => FlowState {
                fr: self.fr.spec_plus(v),
                items: self.items.push(Staged::Fractional(v)),
                ..self
            },
        }
    }

    /// The state in which a node is laid out: the current region is finished
    /// first if it is full.
    pub open spec fn prepared(self) -> FlowState {
        if self.regions.is_full() {
            self.finish_region()
        } else {
            self
        }
    }

    /// The state after the frames of a node that is out of the flow were
    /// staged: the first frame is kept, and nothing else changes.
    pub open spec fn placed(self, frames: Seq<FrameView>) -> FlowState {
        if frames.len() > 0 {
            FlowState { items: self.items.push(Staged::Placed(frames[0])), ..self }
        } else {
            self
        }
    }

    /// The state after one frame of a node was staged in the current region.
    pub open spec fn staged(self, frame: FrameView, aligns: Axes<Align>) -> FlowState {
        FlowState {
            regions: RegionsView {
                first: Size {
                    x: self.regions.first.x,
                    y: self.regions.first.y.spec_minus(frame.size.y),
                },
                ..self.regions
            },
            used: Size {
                x: self.used.x.spec_max(frame.size.x),
                y: self.used.y.spec_plus(frame.size.y),
            },
            items: self.items.push(Staged::Frame(frame.apply_role(Role::GenericBlock), aligns)),
            ..self
        }
    }

    /// The state after the first `n` frames of a node were staged: the first
    /// in the current region, each later one in a region of its own.
    pub open spec fn flowed(self, frames: Seq<FrameView>, aligns: Axes<Align>, n: int) -> FlowState
        decreases n,
    {
        if n <= 0 {
            self
        } else if n == 1 {
            self.staged(frames[0], aligns)
        } else {
            self.flowed(frames, aligns, n - 1).finish_region().staged(frames[n - 1], aligns)
        }
    }

    /// The state after the frames of a node were staged: as a placed frame
    /// if the node is out of the flow, and one region after the other if it
    /// is not.
    pub open spec fn node(
        self,
        placement: Option<Placement>,
        alignment: Option<Alignment>,
        frames: Seq<FrameView>,
        styles: StyleChain,
    ) -> FlowState {
        if is_out_of_flow(placement) {
            self.placed(frames)
        } else {
            self.flowed(frames, node_aligns(alignment, styles), frames.len() as int)
        }
    }

    /// The state after a child was laid out under `styles`, or the error that
    /// the child failed with. `outcome` is what the child answered, if it is
    /// a node.
    pub open spec fn child(self, kind: ChildKind, styles: StyleChain, outcome: Outcome) -> Result<
        FlowState,
        LayoutError,
    > {
        match kind {
            ChildKind::Spacing(spacing) => Ok(self.spacing(spacing, styles)),
            ChildKind::Colbreak => Ok(self.finish_region()),
            ChildKind::Node => match outcome.frames {
                Ok(frames) => Ok(
                    self.prepared().node(outcome.placement, outcome.alignment, frames, styles),
                ),
                Err(e) => Err(e),
            },
        }
    }
}

/// The state after the first `n` children of a flow were laid out in order,
/// each under the ambient styles with its own overrides applied, or the error
/// of the first child that failed. `outcomes[i]` is what the child at `i`
/// answered, if it is a node.
pub open spec fn flow_run(
    children: Seq<(ChildKind, StyleMap)>,
    outcomes: Seq<Outcome>,
    regions: RegionsView,
    styles: StyleChain,
    n: int,
) -> Result<FlowState, LayoutError>
    decreases n,
{
    if n <= 0 {
        Ok(FlowState::start(regions))
    } else {
        match flow_run(children, outcomes, regions, styles, n - 1) {
            Ok(state) => state.child(
                children[n - 1].0,
                children[n - 1].1.spec_chain(styles),
                outcomes[n - 1],
            ),
            Err(e) => Err(e),
        }
    }
}

/// The frames that a flow of these children is laid out into, one for each
/// region that was used, or the error of the first child that failed.
pub open spec fn flow_result(
    children: Seq<(ChildKind, StyleMap)>,
    outcomes: Seq<Outcome>,
    regions: RegionsView,
    styles: StyleChain,
) -> Result<Seq<FrameView>, LayoutError> {
    match flow_run(children, outcomes, regions, styles, children.len() as int) {
        Ok(state) => Ok(state.finish()),
        Err(e) => Err(e),
    }
}

/// The state after the first `n` children depends on what those children
/// answered, and on nothing that a later child did.
pub proof fn lemma_flow_run_prefix(
    children: Seq<(ChildKind, StyleMap)>,
    a: Seq<Outcome>,
    b: Seq<Outcome>,
    regions: RegionsView,
    styles: StyleChain,
    n: int,
)
    requires
        forall|j: int| 0 <= j < n ==> a[j] == b[j],
    ensures
        flow_run(children, a, regions, styles, n) == flow_run(children, b, regions, styles, n),
    decreases n,
{
    if n > 0 {
        lemma_flow_run_prefix(children, a, b, regions, styles, n - 1);
    }
}

/// Once a child has failed, the children after it change nothing.
pub proof fn lemma_flow_run_failed(
    children: Seq<(ChildKind, StyleMap)>,
    outcomes: Seq<Outcome>,
    regions: RegionsView,
    styles: StyleChain,
    n: int,
    m: int,
)
    requires
        n <= m,
        flow_run(children, outcomes, regions, styles, n) is Err,
    ensures
        flow_run(children, outcomes, regions, styles, m) == flow_run(
            children,
            outcomes,
            regions,
            styles,
            n,
        ),
    decreases m - n,
{
    if n < m {
        lemma_flow_run_failed(children, outcomes, regions, styles, n, m - 1);
    }
}

/// Laying out one more child continues from the state after the children
/// before it.
pub proof fn lemma_flow_run_next(
    children: Seq<(ChildKind, StyleMap)>,
    before: Seq<Outcome>,
    outcome: Outcome,
    regions: RegionsView,
    styles: StyleChain,
    state: FlowState,
)
    requires
        flow_run(children, before, regions, styles, before.len() as int) == Ok::<
            FlowState,
            LayoutError,
        >(state),
    ensures
        flow_run(children, before.push(outcome), regions, styles, before.len() as int + 1) == state.child(
            children[before.len() as int].0,
            children[before.len() as int].1.spec_chain(styles),
            outcome,
        ),
{
    lemma_flow_run_prefix(
        children,
        before,
        before.push(outcome),
        regions,
        styles,
        before.len() as int,
    );
}

} // verus!
