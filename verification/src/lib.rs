//! The platform layer's decisions for Android, Vulkan and OpenXR.
//!
//! The library decides: which device call comes next, what it is given, what is
//! released when it fails, and what an event means. It performs no input or
//! output; a driver around it makes the calls and hands their outcomes back.

pub mod android;
pub mod display_context;
pub mod event;
pub mod float_bits;
pub mod ids;
pub mod text;
pub mod vulkan;
