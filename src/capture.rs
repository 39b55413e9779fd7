//! Whether pointer motion drives the camera or the user interface.
use vstd::prelude::*;

verus! {

/// The next pointer-lock state: a press of the toggle key inverts it, and
/// no press keeps it.
pub fn toggle_capture(locked: bool, toggle_pressed: bool) -> (r: bool)
    ensures
        r == (locked != toggle_pressed),
{
    locked ^ toggle_pressed
}

} // verus!
