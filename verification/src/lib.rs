//! Block-flow layout: arranging spacing and block-level content vertically
//! into a sequence of regions.
//!
//! [`geom`] holds lengths, sizes and points, and [`length`] the relative and
//! fractional lengths that spacing is written in. [`align`] and [`style`]
//! hold what layout reads from the styles of a child. [`frame`] holds the
//! frames that layout produces, [`regions`] the areas that it fills, and
//! [`content`] what it asks of a block-level node. [`flow`] is the layouter
//! itself and the node that drives it. [`model`] says what the layouter
//! computes, step by step, and [`laws`] what follows from that in general.
//! [`order`] orders lengths, spacing and children.

pub mod align;
pub mod content;
pub mod flow;
pub mod frame;
pub mod geom;
pub mod laws;
pub mod length;
pub mod model;
pub mod order;
pub mod regions;
pub mod style;
