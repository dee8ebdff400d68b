//! Policy, pacing and negotiation rules of a cross-GPU Vulkan bridge in a Wayland compositor.
//!
//! The library decides; the compositor around it performs. Every function here works on plain
//! values: clocks that were read, facts about a surface, bytes that arrived on a socket.

pub mod bridge_config;
pub mod config;
pub mod control;
pub mod document;
pub mod json;
pub mod kdl;
pub mod kms_probe;
pub mod negotiation;
pub mod pacing;
pub mod report;
pub mod text;
pub mod time;
pub mod transfer_formats;
pub mod writer;
