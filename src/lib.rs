//! The deterministic core of a two-fighter game: movement scripts and their
//! lookup, action buffers, the per-fighter state machine, box overlap, the
//! round clock, and the match loop that resolves one frame at a time.

use vstd::prelude::*;

pub mod framedata;
pub mod input;
pub mod player;
pub mod simul;
pub mod timer;

verus! {

} // verus!
