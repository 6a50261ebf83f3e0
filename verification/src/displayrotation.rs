//! Display rotation

use vstd::prelude::*;

verus! {

/// Display rotation
#[derive(Clone, Copy, Debug, PartialEq, Eq, Structural)]
pub enum DisplayRotation {
    /// No rotation, normal display
    Rotate0,
    /// Rotate by 90 degrees clockwise
    Rotate90,
    /// Rotate by 180 degrees clockwise
    Rotate180,
    /// Rotate 270 degrees clockwise
    Rotate270,
}

impl DisplayRotation {
    /// Whether the panel stands on its side, so that width and height change places.
    pub open spec fn is_sideways(self) -> bool {
        self == DisplayRotation::Rotate90 || self == DisplayRotation::Rotate270
    }
}

} // verus!
