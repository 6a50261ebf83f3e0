//! Display size

use vstd::prelude::*;

verus! {

/// Display size enumeration
#[derive(Clone, Copy, Debug, PartialEq, Eq, Structural)]
pub enum DisplaySize {
    /// 256 by 128 pixels
    Display256x128,
}

impl DisplaySize {
    /// The largest column and the largest row of the panel, in its native orientation.
    pub open spec fn spec_dimensions(self) -> (u8, u8) {
        match self {
            DisplaySize::Display256x128 => (255, 127),
        }
    }

    /// How far the visible area is shifted against the controller's column memory.
    pub open spec fn spec_column_offset(self) -> u8 {
        match self {
            DisplaySize::Display256x128 => 0,
        }
    }

    /// Get integral dimensions from DisplaySize
    #[verifier::when_used_as_spec(spec_dimensions)]
    pub fn dimensions(self) -> (dims: (u8, u8))
        ensures
            dims == self.spec_dimensions(),
    {
        match self {
            DisplaySize::Display256x128 => (255, 127),
        }
    }

    /// Get the panel column offset from DisplaySize
    #[verifier::when_used_as_spec(spec_column_offset)]
    pub fn column_offset(self) -> (offset: u8)
        ensures
            offset == self.spec_column_offset(),
    {
        match self {
            DisplaySize::Display256x128 => 0,
        }
    }
}

} // verus!
