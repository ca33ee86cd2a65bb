//! Firmware core for a two-button text scroller.
//!
//! Two button monitors debounce their input lines into discrete clicks
//! ([`buttons`]), each click adds a fixed signed step to a shared
//! accumulator ([`accumulator`]), and a render loop drains the accumulator
//! once per tick into a clamped horizontal text position together with the
//! erase/redraw commands for the display surface ([`render`]).

pub mod accumulator;
pub mod buttons;
pub mod render;

use vstd::prelude::*;

verus! {

/// What the system does on an unrecoverable fault: nothing but halt.
#[derive(Clone, Copy, PartialEq, Eq, Structural, Debug)]
pub enum FaultAction {
    /// Stop permanently; no retry, no restart.
    Halt,
}

/// The decision taken on an unrecoverable fault (memory corruption, invalid
/// hardware state): always halt permanently rather than continue in a
/// possibly inconsistent state. The embedding panic handler performs the
/// halt by spinning on this decision.
pub fn panic() -> (r: FaultAction)
    ensures
        r is Halt,
{
    FaultAction::Halt
}

} // verus!
