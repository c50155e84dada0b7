//! The pre-match flow as an explicit state machine.  The shell drives
//! it: it reports whether the start key was pressed and whether the
//! match ended, and performs the arena reset when a match begins.

use vstd::prelude::*;

verus! {

/// Where the program is between ticks.
#[derive(Clone, Copy, PartialEq, Eq, Structural, Debug)]
pub enum Phase {
    /// Waiting on the start prompt; the arena is reset every tick.
    Menu,
    /// A match is running.
    Playing,
}

/// One step of the menu flow: the start key begins a match, and a
/// finished match falls back to the menu.
pub fn next_phase(p: Phase, start_pressed: bool, match_ended: bool) -> (r: Phase)
    ensures
        p == Phase::Menu && start_pressed ==> r == Phase::Playing,
        p == Phase::Menu && !start_pressed ==> r == Phase::Menu,
        p == Phase::Playing && match_ended ==> r == Phase::Menu,
        p == Phase::Playing && !match_ended ==> r == Phase::Playing,
{
    match p {
        Phase::Menu => if start_pressed {
            Phase::Playing
        } else {
            Phase::Menu
        },
        Phase::Playing => if match_ended {
            Phase::Menu
        } else {
            Phase::Playing
        },
    }
}

} // verus!
