use vstd::prelude::*;

// A character controller for a 2D physics world, in three parts:
// `contact` decides what surface a body touches from directional probes,
// `movement` turns movement actions into velocity changes and keeps the
// wall-jump state, and `input` turns button states into movement actions.
pub mod contact;
pub mod input;
pub mod movement;

verus! {

} // verus!
