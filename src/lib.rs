use vstd::prelude::*;

pub mod gpu;
pub mod gbuffer;
pub mod schedule;
pub mod composite;
pub mod targets;

verus! {

/// Number of array layers of the GBuffer that the renderer draws into.
pub const LAYERS: u32 = 4;

} // verus!
