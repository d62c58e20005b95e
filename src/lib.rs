//! Verified core of a ray-traced triangle renderer: memory-type selection,
//! packed instance records, the shader binding table, and the command and
//! release sequences that a Vulkan executor carries out.
use vstd::prelude::*;

pub mod accel;
pub mod descriptors;
pub mod instance;
pub mod memory;
pub mod pipeline;
pub mod renderer;
pub mod resources;
pub mod sbt;
pub mod swapchain;
pub mod vkconst;

verus! {

} // verus!
