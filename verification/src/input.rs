//! What the player asks for in one tick, and how the input lines are read.

use vstd::prelude::*;

verus! {

/// The requests of the player for one tick. A request is made by `Some(true)`; `None`
/// and `Some(false)` make none.
#[derive(Clone, Copy, PartialEq, Eq, Debug)]
pub struct InputSnapshot {
    pub move_left: Option<bool>,
    pub move_right: Option<bool>,
    pub rotate: Option<bool>,
}

/// True when the flag makes a request.
pub open spec fn spec_requested(flag: Option<bool>) -> bool {
    flag == Some(true)
}

/// Tells whether a flag makes a request.
#[verifier::when_used_as_spec(spec_requested)]
pub fn requested(flag: Option<bool>) -> (request: bool)
    ensures
        request == spec_requested(flag),
{
    match flag {
        Some(request) => request,
        None => false,
    }
}

/// The request that a button makes. The line of a button reads low while the button
/// is pressed.
pub fn pressed(line_is_low: bool) -> (request: Option<bool>)
    ensures
        request == if line_is_low {
            Some(true)
        } else {
            None::<bool>
        },
{
    if line_is_low {
        Some(true)
    } else {
        None
    }
}

/// How far the board must lean, in the units of the acceleration along its x axis,
/// before it counts as tilted. Readings nearer to zero are noise.
pub const TILT_THRESHOLD: i32 = 400;

/// Tells whether an acceleration along the x axis means that the board is tilted to
/// the left.
pub fn tilted_left(x: i32) -> (tilted: bool)
    ensures
        tilted == (x < -TILT_THRESHOLD),
{
    x < -TILT_THRESHOLD
}

/// Tells whether an acceleration along the x axis means that the board is tilted to
/// the right.
pub fn tilted_right(x: i32) -> (tilted: bool)
    ensures
        tilted == (x > TILT_THRESHOLD),
{
    x > TILT_THRESHOLD
}

} // verus!
