//! The per-tick input snapshot consumed by the locomotion controller.

use vstd::prelude::*;

verus! {

/// What the input collaborator reports for one simulation tick.
///
/// Input is sampled once per tick; there is no buffering or queuing. The
/// edge-triggered `jump_just_pressed` flag is true only on the tick in which
/// the jump key went down.
#[derive(Clone, Copy, PartialEq, Eq, Structural, Debug)]
pub struct InputSnapshot {
    /// The left directional input is held.
    pub left: bool,
    /// The right directional input is held.
    pub right: bool,
    /// The jump input is currently held.
    pub jump_held: bool,
    /// The jump input went down this tick.
    pub jump_just_pressed: bool,
}

} // verus!
