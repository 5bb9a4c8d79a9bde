//! A verified model of the negotiation-and-dispatch core of a display-server
//! client: discovery of server-advertised globals, creation of a top-level
//! window surface, lazy idempotent creation of seat input devices, tagged
//! demultiplexing of input events, and the ping/pong liveness protocol.
//!
//! The wire connection itself, GPU context bring-up and drawing are outside
//! the model; an embedding program performs them and feeds events in as plain
//! values, performing the actions this library decides on.

use vstd::prelude::*;

pub mod client;
pub mod events;
pub mod lifecycle;
pub mod registry;
pub mod seat;

verus! {

/// Fixed width, in pixels, of the window buffer this client creates.
pub const BUFFER_WIDTH: u32 = 320;

/// Fixed height, in pixels, of the window buffer this client creates.
pub const BUFFER_HEIGHT: u32 = 240;

/// The compositor protocol version this client binds.
pub const COMPOSITOR_VERSION: u32 = 1;

/// The shell protocol version this client binds.
pub const SHELL_VERSION: u32 = 1;

/// The seat protocol version this client binds.
pub const SEAT_VERSION: u32 = 1;

} // verus!
