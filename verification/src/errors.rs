//! Error types returned by the public handle operations and by the
//! internal command channel.

use vstd::prelude::*;

verus! {

/// Errors surfaced by the connection handle and its collaborators.
///
/// `NotConnected` and `AlreadyConnected` report an operation attempted in the
/// wrong lifecycle state. `ChannelClosed` reports that internal command
/// delivery failed; the handle surfaces it to callers as `NotConnected`.
/// `TransportError` describes an opaque failure of the transport collaborator;
/// it is delivered asynchronously through the error callback, never as a
/// return value of a handle operation.
#[derive(Debug, PartialEq, Eq)]
pub enum EasyWsError {
    NotConnected,
    AlreadyConnected,
    ChannelClosed,
    TransportError(String),
}

/// The result of a handle operation.
pub type EasyWsResult = Result<(), EasyWsError>;

/// Error returned by the state machine when an event is not legal in the
/// current lifecycle state.
#[derive(Debug, PartialEq, Eq, Structural, Clone, Copy)]
pub struct InvalidTransition;

} // verus!
