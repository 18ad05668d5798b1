//! Keeps GlazeWM's tiling direction aligned with the focused window.
//!
//! The library holds the decisions of the tray utility: which direction a
//! focused window asks for, how GlazeWM IPC messages are classified, how the
//! connection supervisor reacts to what the socket does, and what the tray
//! shows about all of it.
use vstd::prelude::*;

pub mod diagnostics;
pub mod icon;
pub mod protocol;
pub mod runtime;
pub mod shutdown;
pub mod text;
pub mod tiling;
pub mod tray;

verus! {

/// The GlazeWM IPC WebSocket endpoint.
pub const GLAZEWM_WS_URL: &'static str = "ws://localhost:6123";

} // verus!
