//! Verified core of a real-time 3D rendering engine built over an explicit,
//! Vulkan-style graphics interface.
//!
//! The library models the GPU resource and frame-synchronization layer as
//! plain data: device and memory-type resolution, buffer and texture upload,
//! swapchain lifecycle, multi-frame-in-flight command dispatch, and the
//! descriptor-set / pipeline-layout abstraction. Backend, window and file
//! effects live outside the library and hand it plain values.

pub mod app;
pub mod buffer;
pub mod command;
pub mod device;
pub mod handles;
pub mod input;
pub mod pipeline;
pub mod render;
pub mod script;
pub mod spatial;
pub mod texture;
pub mod types;

use vstd::prelude::*;

verus! {

/// Smallest multiple of `alignment` that is at least `value`.
pub open spec fn round_up(value: nat, alignment: nat) -> nat
    recommends
        alignment > 0,
{
    if value % alignment == 0 {
        value
    } else {
        ((value + alignment) - value % alignment) as nat
    }
}

} // verus!
