//! Display orientations, as MADCTL register values.

use vstd::prelude::*;

verus! {

/// The four display orientations. Each corresponds to a Memory Data
/// Access Control register value that mirrors or swaps the axes.
#[derive(Clone, Copy, Debug, PartialEq, Eq, Structural)]
pub enum Orientation {
    /// Default orientation.
    Portrait,
    /// Rotated a quarter turn: column/page order swapped.
    Landscape,
    /// Upside down: both axes mirrored.
    PortraitSwapped,
    /// Rotated a quarter turn the other way.
    LandscapeSwapped,
}

impl Orientation {
    /// The MADCTL register value that selects this orientation.
    pub open spec fn spec_madctl_value(self) -> u8 {
        match self {
            Orientation::Portrait => 0x00,
            Orientation::Landscape => 0x60,
            Orientation::PortraitSwapped => 0xC0,
            Orientation::LandscapeSwapped => 0xA0,
        }
    }

    /// The MADCTL register value that selects this orientation.
    pub fn madctl_value(self) -> (r: u8)
        ensures
            r == self.spec_madctl_value(),
    {
        match self {
            Orientation::Portrait => 0x00,
            Orientation::Landscape => 0x60,
            Orientation::PortraitSwapped => 0xC0,
            Orientation::LandscapeSwapped => 0xA0,
        }
    }
}

} // verus!
