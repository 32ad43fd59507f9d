//! The connection lifecycle state machine.
//!
//! A connection advances `Disconnected -> Connecting -> Handshake ->
//! Connected`, or regresses directly to `Disconnected` from any non-idle
//! state when the transport closes or fails. No other transition is valid.

use vstd::prelude::*;

use crate::errors::InvalidTransition;

verus! {

/// The lifecycle state of one logical connection.
#[derive(Debug, Clone, Copy, PartialEq, Eq, Structural)]
pub enum EasyWsConnectionState {
    Connecting,
    Handshake,
    Connected,
    Disconnected,
}

/// An event driving the lifecycle state machine.
///
/// `BeginConnect` is legal only from `Disconnected`; `HandshakeStarted` only
/// from `Connecting`; `HandshakeComplete` only from `Handshake`; `Closed` and
/// `Failed` are legal from any non-`Disconnected` state and always land on
/// `Disconnected`.
#[derive(Debug, PartialEq, Eq)]
pub enum LifecycleEvent {
    BeginConnect,
    HandshakeStarted,
    HandshakeComplete,
    Closed,
    Failed(String),
}

/// The successor state for `event` in state `from`, or `None` when the event
/// is not legal there. This is the complete transition relation: state only
/// advances along the connect path or regresses directly to `Disconnected`.
pub open spec fn lifecycle_step(
    from: EasyWsConnectionState,
    event: LifecycleEvent,
) -> Option<EasyWsConnectionState> {
    match event {
        LifecycleEvent::BeginConnect => if from is Disconnected {
            Some(EasyWsConnectionState::Connecting)
        } else {
            None
        },
        LifecycleEvent::HandshakeStarted => if from is Connecting {
            Some(EasyWsConnectionState::Handshake)
        } else {
            None
        },
        LifecycleEvent::HandshakeComplete => if from is Handshake {
            Some(EasyWsConnectionState::Connected)
        } else {
            None
        },
        LifecycleEvent::Closed => if from is Disconnected {
            None
        } else {
            Some(EasyWsConnectionState::Disconnected)
        },
        LifecycleEvent::Failed(_) => if from is Disconnected {
            None
        } else {
            Some(EasyWsConnectionState::Disconnected)
        },
    }
}

/// Tracks the lifecycle of one logical connection and refuses events that
/// are not legal in the current state.
#[derive(Debug, Clone, Copy, PartialEq, Eq, Structural)]
pub struct ConnectionStateMachine {
    pub state: EasyWsConnectionState,
}

impl ConnectionStateMachine {
    /// A fresh machine starts idle.
    pub fn new() -> (m: ConnectionStateMachine)
        ensures
            m.state is Disconnected,
    {
        ConnectionStateMachine { state: EasyWsConnectionState::Disconnected }
    }

    /// The current lifecycle state.
    pub fn current(&self) -> (s: EasyWsConnectionState)
        ensures
            s == self.state,
    {
        self.state
    }

    /// Applies `event`: moves to the successor state when the event is legal,
    /// otherwise leaves the state untouched and reports the invalid attempt.
    pub fn transition(&mut self, event: LifecycleEvent) -> (r: Result<(), InvalidTransition>)
        ensures
            match lifecycle_step(old(self).state, event) {
                Some(next) => r is Ok && final(self).state == next,
                None => r is Err && final(self).state == old(self).state,
            },
    {
        let next = match event {
            LifecycleEvent::BeginConnect => {
                if self.state == EasyWsConnectionState::Disconnected {
                    Some(EasyWsConnectionState::Connecting)
                } else {
                    None
                }
            },
            LifecycleEvent::HandshakeStarted => {
                if self.state == EasyWsConnectionState::Connecting {
                    Some(EasyWsConnectionState::Handshake)
                } else {
                    None
                }
            },
            LifecycleEvent::HandshakeComplete => {
                if self.state == EasyWsConnectionState::Handshake {
                    Some(EasyWsConnectionState::Connected)
                } else {
                    None
                }
            },
            LifecycleEvent::Closed => {
                if self.state == EasyWsConnectionState::Disconnected {
                    None
                } else {
                    Some(EasyWsConnectionState::Disconnected)
                }
            },
            LifecycleEvent::Failed(_) => {
                if self.state == EasyWsConnectionState::Disconnected {
                    None
                } else {
                    Some(EasyWsConnectionState::Disconnected)
                }
            },
        };
        match next {
            Some(s) => {
                self.state = s;
                Ok(())
            },
            None => Err(InvalidTransition),
        }
    }
}

} // verus!
