//! Frames: the result of layout.

use crate::geom::{Abs, Point, Size};
use vstd::prelude::*;

verus! {

/// What a frame stands for in the document.
#[derive(Clone, Copy, Debug, PartialEq, Eq, Structural, Hash)]
pub enum Role {
    /// A paragraph.
    Paragraph,
    /// A heading.
    Heading,
    /// Some block-level content.
    GenericBlock,
    /// Some inline-level content.
    GenericInline,
}

impl Role {
    pub open spec fn spec_is_weak(self) -> bool {
        self is GenericBlock || self is GenericInline
    }

    /// Whether this role gives way to a more specific one.
    #[verifier::when_used_as_spec(spec_is_weak)]
    pub fn is_weak(self) -> (b: bool)
        ensures
            b == self.spec_is_weak(),
    {
        match self {
            Role::GenericBlock => true,
            Role::GenericInline => true,
            _ => false,
        }
    }
}

/// A finished piece of layout: a box of fixed size that holds positioned
/// frames.
#[derive(Debug, PartialEq, Eq)]
pub struct Frame {
    /// The size of the frame.
    pub size: Size,
    /// What the frame stands for, if anything.
    pub role: Option<Role>,
    /// The frames inside, each with the position of its top left corner.
    pub children: Vec<(Point, Frame)>,
}

/// What a [`Frame`] holds, as a mathematical value.
pub ghost struct FrameView {
    pub size: Size,
    pub role: Option<Role>,
    pub children: Seq<(Point, FrameView)>,
}

/// The view of each child in a list of positioned frames.
pub open spec fn children_view(children: Seq<(Point, Frame)>) -> Seq<(Point, FrameView)>
    decreases children, 0int,
{
    Seq::new(
        children.len(),
        |i: int|
            (
                children[i].0,
                if 0 <= i < children.len() {
                    frame_view(children[i].1)
                } else {
                    arbitrary()
                },
            ),
    )
}

/// The view of a frame.
pub open spec fn frame_view(frame: Frame) -> FrameView
    decreases frame, 1int,
{
    FrameView { size: frame.size, role: frame.role, children: children_view(frame.children@) }
}

/// The view of each frame in a list.
pub open spec fn frames_view(frames: Seq<Frame>) -> Seq<FrameView> {
    Seq::new(frames.len(), |i: int| frame_view(frames[i]))
}

impl View for Frame {
    type V = FrameView;

    open spec fn view(&self) -> FrameView {
        frame_view(*self)
    }
}

impl FrameView {
    /// The empty frame of the given size.
    pub open spec fn new(size: Size) -> FrameView {
        FrameView { size, role: None, children: Seq::empty() }
    }

    /// This frame with `role`, unless it already has a role that `role` does
    /// not override.
    pub open spec fn apply_role(self, role: Role) -> FrameView {
        FrameView { role: Some(applied_role(self.role, role)), ..self }
    }

    /// This frame with `frame` added at `pos`, after the frames it holds.
    pub open spec fn push_frame(self, pos: Point, frame: FrameView) -> FrameView {
        FrameView { children: self.children.push((pos, frame)), ..self }
    }
}

/// The role of a frame that had the role `prev`, if any, after `role` was
/// applied to it: a weak role yields to a specific one, and nothing else
/// changes a role once it is set.
pub open spec fn applied_role(prev: Option<Role>, role: Role) -> Role {
    match prev {
        None => role,
        Some(p) => if p.spec_is_weak() && !role.spec_is_weak() {
            role
        } else {
            p
        },
    }
}

impl Frame {
    /// Creates an empty frame of the given size.
    pub fn new(size: Size) -> (frame: Frame)
        ensures
            frame@ == FrameView::new(size),
    {
        let frame = Frame { size, role: None, children: Vec::new() };
        assert(frame@.children =~= Seq::empty());
        frame
    }

    /// The size of the frame.
    pub fn size(&self) -> (r: Size)
        ensures
            r == self@.size,
    {
        self.size
    }

    /// The width of the frame.
    pub fn width(&self) -> (r: Abs)
        ensures
            r == self@.size.x,
    {
        self.size.x
    }

    /// The height of the frame.
    pub fn height(&self) -> (r: Abs)
        ensures
            r == self@.size.y,
    {
        self.size.y
    }

    /// What the frame stands for.
    pub fn role(&self) -> (r: Option<Role>)
        ensures
            r == self@.role,
    {
        self.role
    }

    /// Gives the frame a role. A frame that has a role keeps it, unless that
    /// role is weak and the new one is not.
    pub fn apply_role(&mut self, role: Role)
        ensures
            final(self)@ == old(self)@.apply_role(role),
    {
        let replace = match self.role {
            None => true,
            Some(prev) => prev.is_weak() && !role.is_weak(),
        };
        if replace {
            self.role = Some(role);
        }
    }

    /// Adds `frame` at `pos`, on top of the frames that are already inside.
    pub fn push_frame(&mut self, pos: Point, frame: Frame)
        ensures
            final(self)@ == old(self)@.push_frame(pos, frame@),
    {
        self.children.push((pos, frame));
        assert(self@.children =~= old(self)@.children.push((pos, frame@)));
    }
}

/// Viewing a list of frames commutes with adding a frame to it.
pub proof fn lemma_frames_view_push(frames: Seq<Frame>, frame: Frame)
    ensures
        frames_view(frames.push(frame)) == frames_view(frames).push(frame@),
{
}

} // verus!
