//! A minimal client-side WebSocket connection wrapper: a caller-facing handle
//! coordinates with a background network loop through an ordered command
//! channel, while transport events are surfaced to user callbacks through an
//! event dispatcher. The connection lifecycle is tracked by an explicit state
//! machine gating which operations are valid.
//!
//! The actual WebSocket protocol work (handshake, framing, TLS) belongs to an
//! external transport collaborator; this crate owns only the coordination
//! logic: state transitions, command ordering, and callback delivery.

pub mod channel;
pub mod dispatch;
pub mod errors;
pub mod handle;
pub mod laws;
pub mod network;
pub mod state;
