//! Rotation of a video stream as reported by its container.

use vstd::prelude::*;

verus! {

/// How a stored frame has to be turned to be displayed upright.
#[derive(Clone, Copy, Debug, PartialEq, Eq, Structural)]
pub enum Rotation {
    Unrotated,
    Neg90,
    Pos90,
    Neg180,
}

impl Rotation {
    /// Whether displaying the frame swaps its width and height.
    pub open spec fn is_transposed(self) -> bool {
        self == Rotation::Neg90 || self == Rotation::Pos90
    }

    /// Whether displaying the frame swaps its width and height: true for the
    /// two quarter turns, false for no turn and for the half turn.
    pub fn transposed(&self) -> (swaps: bool)
        ensures
            swaps == self.is_transposed(),
    {
        match self {
            Rotation::Unrotated => false,
            Rotation::Neg90 => true,
            Rotation::Pos90 => true,
            Rotation::Neg180 => false,
        }
    }
}

/// The width and height of a frame once it is displayed with the given
/// rotation: swapped for a quarter turn, unchanged otherwise.
pub open spec fn display_size(rotation: Rotation, width: u32, height: u32) -> (u32, u32) {
    if rotation.is_transposed() {
        (height, width)
    } else {
        (width, height)
    }
}

} // verus!
