//! Selection of the automation script that performs a workspace switch.

use vstd::prelude::*;
use crate::event::Direction;

verus! {

/// The literal script handed to the OS scripting facility for a switch in
/// the given direction: control + bracket-left for left, control +
/// bracket-right for right.
pub fn automation_script(direction: Direction) -> (r: &'static str)
    ensures
        direction == Direction::Left ==> r@ == (
        "tell application \"System Events\" to key code 123 using control down")@,
        direction == Direction::Right ==> r@ == (
        "tell application \"System Events\" to key code 124 using control down")@,
{
    match direction {
        Direction::Left => "tell application \"System Events\" to key code 123 using control down",
        Direction::Right => "tell application \"System Events\" to key code 124 using control down",
    }
}

} // verus!
