//! The event dispatcher: turns transport-level events into invocations of
//! the user's registered callbacks.
//!
//! The handle registers at most one callback per event kind. Dispatching an
//! event whose slot is empty drops the event silently; dispatching a filled
//! slot produces exactly one invocation record carrying the event's payload.
//! The caller of `dispatch` (the network loop) runs invocations one at a
//! time, so user callbacks are never invoked concurrently with each other.

use vstd::prelude::*;

verus! {

/// A transport-level event to be surfaced to the user's callbacks.
#[derive(Debug, PartialEq, Eq)]
pub enum EasyWsEvent {
    Connected,
    Disconnected,
    Message(String),
    Error(String),
}

/// The mathematical value of an event: message and error text abstracted to
/// character sequences.
pub enum EventModel {
    Connected,
    Disconnected,
    Message(Seq<char>),
    Error(Seq<char>),
}

impl View for EasyWsEvent {
    type V = EventModel;

    open spec fn view(&self) -> EventModel {
        match self {
            EasyWsEvent::Connected => EventModel::Connected,
            EasyWsEvent::Disconnected => EventModel::Disconnected,
            EasyWsEvent::Message(text) => EventModel::Message(text@),
            EasyWsEvent::Error(text) => EventModel::Error(text@),
        }
    }
}

/// One pending invocation of a user callback, produced by a dispatch and
/// executed by whoever holds the actual callback functions.
#[derive(Debug, PartialEq, Eq)]
pub enum CallbackInvocation {
    OnConnect,
    OnDisconnect,
    OnMessage(String),
    OnError(String),
}

/// The mathematical value of a callback invocation.
pub enum InvocationModel {
    OnConnect,
    OnDisconnect,
    OnMessage(Seq<char>),
    OnError(Seq<char>),
}

impl View for CallbackInvocation {
    type V = InvocationModel;

    open spec fn view(&self) -> InvocationModel {
        match self {
            CallbackInvocation::OnConnect => InvocationModel::OnConnect,
            CallbackInvocation::OnDisconnect => InvocationModel::OnDisconnect,
            CallbackInvocation::OnMessage(text) => InvocationModel::OnMessage(text@),
            CallbackInvocation::OnError(text) => InvocationModel::OnError(text@),
        }
    }
}

/// Which callback slots currently hold a handler. Each slot holds at most
/// one handler; registering again replaces it, so the slot stays filled.
#[derive(Debug, Clone, Copy, PartialEq, Eq, Structural)]
pub struct CallbackSet {
    pub on_connect_set: bool,
    pub on_disconnect_set: bool,
    pub on_message_set: bool,
    pub on_error_set: bool,
}

/// Whether `callbacks` holds a handler for events of `event`'s kind.
pub open spec fn slot_filled(callbacks: CallbackSet, event: EventModel) -> bool {
    match event {
        EventModel::Connected => callbacks.on_connect_set,
        EventModel::Disconnected => callbacks.on_disconnect_set,
        EventModel::Message(_) => callbacks.on_message_set,
        EventModel::Error(_) => callbacks.on_error_set,
    }
}

/// The invocation that delivering `event` produces when its slot is filled.
pub open spec fn invocation_of(event: EventModel) -> InvocationModel {
    match event {
        EventModel::Connected => InvocationModel::OnConnect,
        EventModel::Disconnected => InvocationModel::OnDisconnect,
        EventModel::Message(text) => InvocationModel::OnMessage(text),
        EventModel::Error(text) => InvocationModel::OnError(text),
    }
}

/// The invocations produced by delivering `events` in order: one per event
/// whose slot is filled, dropping the rest, order preserved.
pub open spec fn invocations_for(callbacks: CallbackSet, events: Seq<EventModel>) -> Seq<
    InvocationModel,
>
    decreases events.len(),
{
    if events.len() == 0 {
        Seq::empty()
    } else {
        let rest = invocations_for(callbacks, events.drop_first());
        if slot_filled(callbacks, events.first()) {
            seq![invocation_of(events.first())] + rest
        } else {
            rest
        }
    }
}

/// Receives transport-level events and produces the matching callback
/// invocations, honouring the registered slots.
#[derive(Debug, Clone, Copy, PartialEq, Eq, Structural)]
pub struct EventDispatcher {
    pub callbacks: CallbackSet,
}

impl EventDispatcher {
    /// A fresh dispatcher has no callbacks registered.
    pub fn new() -> (d: EventDispatcher)
        ensures
            !d.callbacks.on_connect_set,
            !d.callbacks.on_disconnect_set,
            !d.callbacks.on_message_set,
            !d.callbacks.on_error_set,
    {
        EventDispatcher {
            callbacks: CallbackSet {
                on_connect_set: false,
                on_disconnect_set: false,
                on_message_set: false,
                on_error_set: false,
            },
        }
    }

    /// Delivers `event`: produces the matching invocation when the slot for
    /// its kind holds a handler, and silently drops the event otherwise.
    pub fn dispatch(&self, event: EasyWsEvent) -> (r: Option<CallbackInvocation>)
        ensures
            r is Some <==> slot_filled(self.callbacks, event@),
            match r {
                Some(inv) => inv@ == invocation_of(event@),
                None => true,
            },
    {
        match event {
            EasyWsEvent::Connected => {
                if self.callbacks.on_connect_set {
                    Some(CallbackInvocation::OnConnect)
                } else {
                    None
                }
            },
            EasyWsEvent::Disconnected => {
                if self.callbacks.on_disconnect_set {
                    Some(CallbackInvocation::OnDisconnect)
                } else {
                    None
                }
            },
            EasyWsEvent::Message(text) => {
                if self.callbacks.on_message_set {
                    Some(CallbackInvocation::OnMessage(text))
                } else {
                    None
                }
            },
            EasyWsEvent::Error(text) => {
                if self.callbacks.on_error_set {
                    Some(CallbackInvocation::OnError(text))
                } else {
                    None
                }
            },
        }
    }
}

} // verus!
