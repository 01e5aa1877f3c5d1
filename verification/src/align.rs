//! Alignment of a box inside a rectangle, along each axis.

use vstd::prelude::*;

verus! {

/// Position along one axis.
#[derive(Clone, Copy, Debug, PartialEq, Eq, Hash, Structural)]
pub enum Align {
    /// Left or top.
    Min,
    /// Horizontal or vertical center.
    Center,
    /// Right or bottom.
    Max,
}

/// Alignment along both axes: `x` then `y`.
#[derive(Clone, Copy, Debug, PartialEq, Eq, Hash, Structural)]
pub struct Align2 {
    pub x: Align,
    pub y: Align,
}

} // verus!
