//! Per-frame rendering resources for a deferred renderer, kept in a ring of
//! slots so that the host can prepare one frame while the device still
//! executes another.
//!
//! The library holds everything the ring decides: which slot is current, how
//! the uniform buffers are laid out, which images and buffers a slot is created
//! with, what is bound to a slot's descriptor sets and when a slot may be
//! written. Device objects appear as their raw 64-bit handles; creating and
//! destroying them is the caller's part.

pub mod alignment;
pub mod error;
pub mod frame_data;
pub mod frame_manager;
pub mod graphics_pipeline;
pub mod resources;
pub mod slot_plan;
pub mod uniform_buffer;
