//! Bring-up negotiation and frame synchronisation for a GPU rendering
//! context: which queue families, device, extensions and swapchain settings to
//! use, and the ordering discipline of a ring of per-frame slots. The values
//! the driver reports come in as plain data; what to ask of it goes out the
//! same way.
use vstd::prelude::*;

pub mod barrier;
pub mod devices;
pub mod diagnostics;
pub mod errors;
pub mod frames;
pub mod instance;
pub mod names;
pub mod queues;
pub mod swapchain;

verus! {

} // verus!
