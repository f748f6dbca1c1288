//! Power mode of the display controller.

use vstd::prelude::*;

verus! {

/// The controller's power mode. Exactly one is active at any time;
/// transitions only happen through the explicit mode-switch operation.
#[derive(Clone, Copy, Debug, PartialEq, Eq, Structural)]
pub enum PowerMode {
    /// Low Power Mode
    Lpm,
    /// High Power Mode
    Hpm,
}

} // verus!
