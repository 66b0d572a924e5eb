//! Flow layout: stacking spacing and block-level nodes into regions.

use crate::align::Align;
use crate::content::{Alignment, Layout, LayoutError, Level, Placement};
use crate::frame::{frame_view, frames_view, lemma_frames_view_push, Frame, FrameView, Role};
use crate::geom::{Abs, Axes, Point, Size};
use crate::laws::{lemma_node_wf, lemma_spacing_wf};
use crate::length::{Fr, Spacing};
use crate::model::{
    answers, flow_result, flow_run, laid_view, lemma_flow_run_failed, lemma_flow_run_next,
    lemma_flow_run_prefix, ChildKind, FlowState, Outcome, Staged,
};
use crate::regions::{Regions, RegionsView};
use crate::style::{StyleChain, StyleMap};
use vstd::prelude::*;

verus! {

/// Arrange spacing, paragraphs and other block-level nodes into a flow.
///
/// This node is responsible for laying out both the top-level content flow and
/// the contents of boxes. Each child comes with the styles that it overrides.
#[derive(Debug, Hash)]
pub struct FlowNode<N>(pub Vec<(FlowChild<N>, StyleMap)>);

/// A child of a flow node.
#[derive(Debug, Hash, PartialEq)]
pub enum FlowChild<N> {
    /// Vertical spacing between other children.
    Spacing(Spacing),
    /// An arbitrary block-level node.
    Node(N),
    /// A column / region break.
    Colbreak,
}

impl<N> FlowChild<N> {
    /// What kind of child this is.
    pub open spec fn kind(self) -> ChildKind {
        match self {
            FlowChild::Spacing(spacing) => ChildKind::Spacing(spacing),
            FlowChild::Node(_) => ChildKind::Node,
            FlowChild::Colbreak => ChildKind::Colbreak,
        }
    }
}

/// The kind of each child in a list, with the styles it overrides.
pub open spec fn child_kinds<N>(children: Seq<(FlowChild<N>, StyleMap)>) -> Seq<
    (ChildKind, StyleMap),
> {
    Seq::new(children.len(), |i: int| (children[i].0.kind(), children[i].1))
}

/// Whether `outcomes[i]` is something that the child at `i` can answer, if
/// that child is a node that the layout gets to: it is asked once the
/// children before it are laid out, for the regions that are left then, under
/// the ambient styles with its own overrides applied.
pub open spec fn child_answers<N: Layout>(
    children: Seq<(FlowChild<N>, StyleMap)>,
    outcomes: Seq<Outcome>,
    regions: RegionsView,
    styles: StyleChain,
    i: int,
) -> bool {
    match (children[i].0, flow_run(child_kinds(children), outcomes, regions, styles, i)) {
        (FlowChild::Node(node), Ok(state)) => answers(
            &node,
            state.prepared().regions,
            children[i].1.spec_chain(styles),
            outcomes[i],
        ),
        _ => true,
    }
}

/// Whether `outcomes` holds, for each node among the first `n` children,
/// something that the node can answer.
pub open spec fn flow_answers<N: Layout>(
    children: Seq<(FlowChild<N>, StyleMap)>,
    outcomes: Seq<Outcome>,
    regions: RegionsView,
    styles: StyleChain,
    n: int,
) -> bool {
    forall|i: int| 0 <= i < n ==> #[trigger] child_answers(children, outcomes, regions, styles, i)
}

proof fn lemma_flow_answers_prefix<N: Layout>(
    children: Seq<(FlowChild<N>, StyleMap)>,
    a: Seq<Outcome>,
    b: Seq<Outcome>,
    regions: RegionsView,
    styles: StyleChain,
    n: int,
)
    requires
        forall|j: int| 0 <= j < n ==> a[j] == b[j],
        flow_answers(children, a, regions, styles, n),
    ensures
        flow_answers(children, b, regions, styles, n),
{
    assert forall|i: int| 0 <= i < n implies #[trigger] child_answers(
        children,
        b,
        regions,
        styles,
        i,
    ) by {
        lemma_flow_run_prefix(child_kinds(children), a, b, regions, styles, i);
        assert(child_answers(children, a, regions, styles, i));
    }
}

proof fn lemma_flow_answers_next<N: Layout>(
    children: Seq<(FlowChild<N>, StyleMap)>,
    before: Seq<Outcome>,
    outcome: Outcome,
    regions: RegionsView,
    styles: StyleChain,
)
    requires
        flow_answers(children, before, regions, styles, before.len() as int),
        child_answers(children, before.push(outcome), regions, styles, before.len() as int),
    ensures
        flow_answers(children, before.push(outcome), regions, styles, before.len() as int + 1),
{
    lemma_flow_answers_prefix(
        children,
        before,
        before.push(outcome),
        regions,
        styles,
        before.len() as int,
    );
}

proof fn lemma_flow_answers_failed<N: Layout>(
    children: Seq<(FlowChild<N>, StyleMap)>,
    outcomes: Seq<Outcome>,
    rest: Seq<Outcome>,
    regions: RegionsView,
    styles: StyleChain,
)
    requires
        outcomes.len() + rest.len() == children.len(),
        flow_answers(children, outcomes, regions, styles, outcomes.len() as int),
        flow_run(child_kinds(children), outcomes, regions, styles, outcomes.len() as int) is Err,
    ensures
        flow_answers(children, outcomes + rest, regions, styles, children.len() as int),
        flow_result(child_kinds(children), outcomes + rest, regions, styles) matches Err(e)
            && flow_run(child_kinds(children), outcomes, regions, styles, outcomes.len() as int)
            == Err::<FlowState, LayoutError>(e),
{
    let kinds = child_kinds(children);
    let all = outcomes + rest;
    let n = outcomes.len() as int;
    lemma_flow_answers_prefix(children, outcomes, all, regions, styles, n);
    lemma_flow_run_prefix(kinds, outcomes, all, regions, styles, n);
    assert forall|i: int| 0 <= i < children.len() implies #[trigger] child_answers(
        children,
        all,
        regions,
        styles,
        i,
    ) by {
        if i >= n {
            lemma_flow_run_failed(kinds, all, regions, styles, n, i);
        }
    }
    lemma_flow_run_failed(kinds, all, regions, styles, n, children.len() as int);
}

impl<N: Layout> Layout for FlowNode<N> {
    /// Lays the children out in order and returns one frame for each region
    /// that was used. The first child that fails ends the layout with its
    /// error.
    fn layout(&self, regions: &Regions, styles: StyleChain) -> (res: Result<
        Vec<Frame>,
        LayoutError,
    >)
        ensures
            exists|outcomes: Seq<Outcome>|
                {
                    &&& outcomes.len() == self.0@.len()
                    &&& flow_answers(self.0@, outcomes, regions@, styles, self.0@.len() as int)
                    &&& laid_view(res) == #[trigger] flow_result(
                        child_kinds(self.0@),
                        outcomes,
                        regions@,
                        styles,
                    )
                },
    {
        let mut layouter = FlowLayouter::new(regions);
        let ghost kinds = child_kinds(self.0@);
        let ghost mut outcomes: Seq<Outcome> = Seq::empty();
        let ghost idle = Outcome { placement: None, alignment: None, frames: Ok(Seq::empty()) };

        let mut i: usize = 0;
        while i < self.0.len()
            invariant
                i <= self.0.len(),
                kinds == child_kinds(self.0@),
                outcomes.len() == i,
                flow_answers(self.0@, outcomes, regions@, styles, i as int),
                flow_run(kinds, outcomes, regions@, styles, i as int) == Ok::<
                    FlowState,
                    LayoutError,
                >(layouter@),
            decreases self.0.len() - i,
        {
            let entry = &self.0[i];
            let chained = entry.1.chain(&styles);
            let ghost state = layouter@;
            let ghost before = outcomes;
            match &entry.0 {
                FlowChild::Spacing(kind) => {
                    layouter.layout_spacing(*kind, chained);
                    proof {
                        outcomes = before.push(idle);
                        lemma_flow_run_next(kinds, before, idle, regions@, styles, state);
                        lemma_flow_answers_next(self.0@, before, idle, regions@, styles);
                    }
                },
                FlowChild::Node(node) => {
                    let res = layouter.layout_node(node, chained);
                    let ghost outcome = choose|outcome: Outcome|
                        {
                            &&& #[trigger] answers(node, state.prepared().regions, chained, outcome)
                            &&& match outcome.frames {
                                Ok(frames) => res is Ok && layouter@ == state.prepared().node(
                                    outcome.placement,
                                    outcome.alignment,
                                    frames,
                                    chained,
                                ),
                                Err(e) => res == Err::<(), LayoutError>(e) && layouter@
                                    == state.prepared(),
                            }
                        };
                    proof {
                        outcomes = before.push(outcome);
                        lemma_flow_run_next(kinds, before, outcome, regions@, styles, state);
                        lemma_flow_run_prefix(kinds, before, outcomes, regions@, styles, i as int);
                        lemma_flow_answers_next(self.0@, before, outcome, regions@, styles);
                    }
                    if let Err(e) = res {
                        proof {
                            let rest = Seq::new((self.0@.len() - i - 1) as nat, |j: int| idle);
                            lemma_flow_answers_failed(self.0@, outcomes, rest, regions@, styles);
                        }
                        return Err(e);
                    }
                },
                FlowChild::Colbreak => {
                    layouter.finish_region();
                    proof {
                        outcomes = before.push(idle);
                        lemma_flow_run_next(kinds, before, idle, regions@, styles, state);
                        lemma_flow_answers_next(self.0@, before, idle, regions@, styles);
                    }
                },
            }
            i += 1;
        }

        let frames = layouter.finish();
        assert(flow_result(kinds, outcomes, regions@, styles) == Ok::<Seq<FrameView>, LayoutError>(
            frames_view(frames@),
        ));
        Ok(frames)
    }

    /// A flow is a block-level node.
    fn level(&self) -> (level: Level)
        ensures
            level == Level::Block,
    {
        Level::Block
    }
}

/// Performs flow layout.
pub struct FlowLayouter {
    /// The regions to lay out children into.
    regions: Regions,
    /// Whether the flow should expand to fill the region.
    expand: Axes<bool>,
    /// The full size of the current region, as it was before anything was
    /// taken from it.
    full: Size,
    /// The size used by the frames for the current region.
    used: Size,
    /// The sum of fractions in the current region.
    fr: Fr,
    /// Spacing and laid out nodes.
    items: Vec<FlowItem>,
    /// Finished frames for previous regions.
    finished: Vec<Frame>,
}

impl View for FlowLayouter {
    type V = FlowState;

    closed spec fn view(&self) -> FlowState {
        FlowState {
            regions: self.regions@,
            expand: self.expand,
            full: self.full,
            used: self.used,
            fr: self.fr,
            items: items_view(self.items@),
            finished: frames_view(self.finished@),
        }
    }
}

/// A prepared item in a flow layout.
enum FlowItem {
    /// Absolute spacing between other items.
    Absolute(Abs),
    /// Fractional spacing between other items.
    Fractional(Fr),
    /// A frame for a laid out node and how to align it.
    Frame(Frame, Axes<Align>),
    /// A frame that is placed at the origin of the region.
    Placed(Frame),
}

spec fn item_view(item: FlowItem) -> Staged {
    match item {
        FlowItem::Absolute(v) => Staged::Absolute(v),
        FlowItem::Fractional(v) => Staged::Fractional(v),
        FlowItem::Frame(frame, aligns) => Staged::Frame(frame_view(frame), aligns),
        FlowItem::Placed(frame) => Staged::Placed(frame_view(frame)),
    }
}

spec fn items_view(items: Seq<FlowItem>) -> Seq<Staged> {
    Seq::new(items.len(), |i: int| item_view(items[i]))
}

impl FlowLayouter {
    /// Create a new flow layouter.
    pub fn new(regions: &Regions) -> (layouter: Self)
        ensures
            layouter@ == FlowState::start(regions@),
            layouter@.wf(),
    {
        let expand = regions.expand;
        let full = regions.first;

        // Disable vertical expansion for children.
        let mut regions = regions.duplicate();
        regions.expand.y = false;

        let layouter = FlowLayouter {
            regions,
            expand,
            full,
            used: Size::zero(),
            fr: Fr::zero(),
            items: Vec::new(),
            finished: Vec::new(),
        };
        assert(layouter@.items =~= Seq::empty());
        assert(layouter@.finished =~= Seq::empty());
        layouter
    }

    /// Layout spacing.
    pub fn layout_spacing(&mut self, spacing: Spacing, styles: StyleChain)
        ensures
            final(self)@ == old(self)@.spacing(spacing, styles),
            old(self)@.wf() ==> final(self)@.wf(),
    {
        proof {
            if self@.wf() {
                lemma_spacing_wf(self@, spacing, styles);
            }
        }
        match spacing {
            Spacing::Relative(v) => {
                // Resolve the spacing and limit it to the remaining space.
                let resolved = v.resolve(&styles).relative_to(self.full.y);
                let limited = resolved.min(self.regions.first.y).max(Abs::zero());
                self.regions.first.y = self.regions.first.y.minus(limited);
                self.used.y = self.used.y.plus(limited);
                self.items.push(FlowItem::Absolute(resolved));
                assert(self@.items =~= old(self)@.items.push(Staged::Absolute(resolved)));
            },
            Spacing::Fractional(v) => {
                self.items.push(FlowItem::Fractional(v));
                self.fr = self.fr.plus(v);
                assert(self@.items =~= old(self)@.items.push(Staged::Fractional(v)));
            },
        }
    }

    /// Layout a node.
    ///
    /// A full region is finished first. The node is then asked for its
    /// placement and alignment and laid out into the regions that are left,
    /// and its frames are staged as [`FlowLayouter::push_frames`] says. If
    /// the node fails, its error is returned and nothing is staged.
    pub fn layout_node<N: Layout>(&mut self, node: &N, styles: StyleChain) -> (res: Result<
        (),
        LayoutError,
    >)
        ensures
            exists|outcome: Outcome|
                {
                    &&& #[trigger] answers(node, old(self)@.prepared().regions, styles, outcome)
                    &&& match outcome.frames {
                        Ok(frames) => res is Ok && final(self)@ == old(self)@.prepared().node(
                            outcome.placement,
                            outcome.alignment,
                            frames,
                            styles,
                        ),
                        Err(e) => res == Err::<(), LayoutError>(e) && final(self)@ == old(
                            self,
                        )@.prepared(),
                    }
                },
            old(self)@.wf() ==> final(self)@.wf(),
    {
        // Never lay a node out into a full region.
        if self.regions.is_full() {
            self.finish_region();
        }
        let placement = node.as_placement();
        let alignment = node.as_alignment();
        let laid = node.layout(&self.regions, styles);
        let ghost outcome = Outcome { placement, alignment, frames: laid_view(laid) };
        proof {
            assert(answers(node, old(self)@.prepared().regions, styles, outcome));
        }
        match laid {
            Ok(frames) => {
                self.push_frames(placement, alignment, frames, styles);
                Ok(())
            },
            Err(e) => Err(e),
        }
    }

    /// Stage the frames that a node was laid out into.
    ///
    /// Of a node that is out of the flow only the first frame is staged, and
    /// it takes no room. Of any other node every frame is staged with the
    /// generic block role, and the region is finished after each frame but
    /// the last.
    pub fn push_frames(
        &mut self,
        placement: Option<Placement>,
        alignment: Option<Alignment>,
        frames: Vec<Frame>,
        styles: StyleChain,
    )
        ensures
            final(self)@ == old(self)@.node(placement, alignment, frames_view(frames@), styles),
            old(self)@.wf() ==> final(self)@.wf(),
    {
        let ghost views = frames_view(frames@);
        proof {
            if self@.wf() {
                lemma_node_wf(self@, placement, alignment, views, styles);
            }
        }

        // Placed nodes that are out of flow produce placed items which aren't
        // aligned later.
        let out_of_flow = match placement {
            Some(p) => p.out_of_flow,
            None => false,
        };
        if out_of_flow {
            let mut frames = frames;
            if frames.len() > 0 {
                let frame = frames.remove(0);
                self.items.push(FlowItem::Placed(frame));
                assert(self@.items =~= old(self)@.items.push(Staged::Placed(views[0])));
            }
            return ;
        }

        // How to align the node.
        let aligns = Axes::new(
            // For non-expanding paragraphs it is crucial that we align the
            // whole paragraph as it is itself aligned.
            styles.par_align,
            // Vertical align node alignment is respected by the flow node.
            match alignment {
                Some(a) => match a.aligns.y {
                    Some(raw) => raw.resolve(&styles),
                    None => Align::Start,
                },
                None => Align::Start,
            },
        );

        let len = frames.len();
        let ghost st = self@;
        let mut i: usize = 0;
        for frame in it: frames
            invariant
                it.seq() == frames@,
                views == frames_view(frames@),
                len == frames@.len(),
                i == it.index(),
                i <= len,
                self@ == if 0 < i < len {
                    st.flowed(views, aligns, i as int).finish_region()
                } else {
                    st.flowed(views, aligns, i as int)
                },
        {
            let ghost before = self@;
            let mut frame = frame;

            // Set the generic block role.
            frame.apply_role(Role::GenericBlock);

            // Grow our size, shrink the region and save the frame for later.
            let size = frame.size();
            self.used.y = self.used.y.plus(size.y);
            self.used.x = self.used.x.max(size.x);
            self.regions.first.y = self.regions.first.y.minus(size.y);
            self.items.push(FlowItem::Frame(frame, aligns));
            assert(self@.items =~= before.items.push(
                Staged::Frame(views[i as int].apply_role(Role::GenericBlock), aligns),
            ));

            if i + 1 < len {
                self.finish_region();
            }
            i += 1;
        }
    }

    /// Finish the frame for one region.
    pub fn finish_region(&mut self)
        ensures
            final(self)@ == old(self)@.finish_region(),
            old(self)@.wf() ==> final(self)@.wf(),
    {
        let ghost st = self@;

        // Determine the size of the flow in this region depending on whether
        // the region expands.
        let mut size = self.expand.select(self.full, self.used);

        // Account for fractional spacing in the size calculation.
        let remaining = self.full.y.minus(self.used.y);
        if self.fr.is_positive() && self.full.y.is_finite() {
            self.used.y = self.full.y;
            size.y = self.full.y;
        }
        let slack = size.y.minus(self.used.y);

        let mut output = Frame::new(size);
        let mut offset = Abs::zero();
        let mut ruler = Align::Start;

        let mut items: Vec<FlowItem> = Vec::new();
        core::mem::swap(&mut self.items, &mut items);
        let total = self.fr;
        let ghost staged = items@;

        // Place all frames.
        for item in it: items
            invariant
                it.seq() == staged,
                st.items == items_view(staged),
                st.fr == total,
                st.leftover() == remaining,
                st.frame_size() == size,
                st.slack() == slack,
                offset == st.offset_at(it.index() as int),
                ruler == st.ruler_at(it.index() as int),
                output@ == (FrameView {
                    size,
                    role: None,
                    children: st.arranged(it.index() as int),
                }),
        {
            match item {
                FlowItem::Absolute(v) => {
                    offset = offset.plus(v);
                },
                FlowItem::Fractional(v) => {
                    offset = offset.plus(v.share(total, remaining));
                },
                FlowItem::Frame(frame, aligns) => {
                    ruler = ruler.max(aligns.y);
                    let x = aligns.x.position(size.x.minus(frame.width()));
                    let y = offset.plus(ruler.position(slack));
                    let pos = Point::new(x, y);
                    offset = offset.plus(frame.height());
                    output.push_frame(pos, frame);
                },
                FlowItem::Placed(frame) => {
                    output.push_frame(Point::zero(), frame);
                },
            }
        }

        // Advance to the next region.
        self.regions.next();
        self.full = self.regions.first;
        self.used = Size::zero();
        self.fr = Fr::zero();
        proof {
            lemma_frames_view_push(self.finished@, output);
        }
        self.finished.push(output);
        assert(self@.items =~= Seq::empty());
    }

    /// Finish the layout and return the resulting frames.
    pub fn finish(self) -> (frames: Vec<Frame>)
        ensures
            frames_view(frames@) == self@.finish(),
    {
        let ghost st = self@;
        let mut layouter = self;
        let ghost mut k: int = 0;
        if layouter.expand.y {
            while layouter.regions.backlog.len() > 0
                invariant
                    st.expand.y,
                    0 <= k <= st.regions.backlog.len(),
                    k == 0 ==> layouter@ == st,
                    k > 0 ==> layouter@ == st.skipped(k),
                decreases layouter.regions.backlog.len(),
            {
                let ghost before = layouter@;
                layouter.finish_region();
                proof {
                    assert(before.regions.backlog.drop_first() =~= st.regions.backlog.skip(k + 1));
                    assert(layouter@.finished =~= st.skipped(k + 1).finished);
                    k = k + 1;
                }
            }
        }
        layouter.finish_region();

        layouter.finished
    }

    /// The regions that the next node will be laid out into.
    pub fn regions(&self) -> (r: &Regions)
        ensures
            r@ == self@.regions,
    {
        &self.regions
    }

    /// The size of the current region before anything was put into it.
    pub fn full(&self) -> (r: Size)
        ensures
            r == self@.full,
    {
        self.full
    }

    /// The size that the content of the current region takes up.
    pub fn used(&self) -> (r: Size)
        ensures
            r == self@.used,
    {
        self.used
    }

    /// The sum of the fractional weights in the current region.
    pub fn fr(&self) -> (r: Fr)
        ensures
            r == self@.fr,
    {
        self.fr
    }
}

} // verus!
