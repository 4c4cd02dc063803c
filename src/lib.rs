//! The rules of a small flappy-bird game, in fixed-point integers: gravity
//! and jumps on vertical speed, sprite-frame cycling, cloud spawning and
//! scrolling, each paced by repeating timers of the engine.
use vstd::prelude::*;

pub mod background;
pub mod birds;
pub mod physics;
pub mod timer;

verus! {

/// The debug wireframe view after a frame: switched over when the toggle
/// key was just pressed, else as it was.
pub fn toggle_wireframe(global: bool, just_pressed: bool) -> (r: bool)
    ensures
        r == (global != just_pressed),
{
    if just_pressed {
        !global
    } else {
        global
    }
}

} // verus!
