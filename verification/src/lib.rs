//! Verified core of a Vulkan binding to NVIDIA's real-time denoisers (NRD)
//! and rendering interface (NRI).
//!
//! The denoiser itself is a C++ library; what Rust decides around each call
//! into it stands here with a contract: which native handles make a live
//! object, which handles a release passes back, how a slice length becomes
//! the 32-bit count the native side reads, what a state query yields, and the
//! default descriptor-binding offsets.
#![allow(non_snake_case)]

pub mod binding;
pub mod count;
pub mod handle;
pub mod snapshot;

pub use binding::VKBindingOffsets;
pub use count::slice_count;
pub use handle::{CommandBuffer, Device, Texture};
pub use snapshot::final_state;
