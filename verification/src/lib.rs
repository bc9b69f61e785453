//! Bridges a Wayland-style event stream to a retained-mode UI toolkit.
//!
//! The crate tracks every surface a process owns, dispatches protocol
//! callbacks to the owning surface by object identity, translates raw
//! input-device events into the abstract event vocabulary a UI toolkit
//! expects, and paces rendering so a frame is only produced when the
//! compositor has granted one.
//!
//! The protocol transport, the GPU presentation surface and the UI
//! toolkit's widget machinery are outside collaborators: they hand this
//! crate plain values and take plain values back, and the decisions
//! between them — routing, translation, clamping, re-arming — are fully
//! specified and verified here.

pub mod application;
pub mod containers;
pub mod input;
pub mod keymap;
pub mod registry;
pub mod render;
