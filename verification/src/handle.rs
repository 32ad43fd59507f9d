//! The public connection handle, its builder, and the network loop's
//! decision steps.
//!
//! One `SimpleWebSocket` value models a whole connection: the caller-facing
//! side (`connect`, `disconnect`, `send`, callback registration) and the
//! network loop's side (`handle_transport_event`, `drain_commands`). The
//! caller side only queues intent and gates operations on the lifecycle
//! state; the loop side consumes commands, drives the state machine, and
//! hands events to the dispatcher. The runtime embedding performs the actual
//! transport I/O and feeds the results back in as `TransportEvent`s.

use vstd::prelude::*;

use crate::channel::CommandChannel;
use crate::channel::CommandModel;
use crate::channel::EasyWsCommand;
use crate::dispatch::CallbackInvocation;
use crate::dispatch::CallbackSet;
use crate::dispatch::EventDispatcher;
use crate::dispatch::EventModel;
use crate::errors::EasyWsError;
use crate::errors::EasyWsResult;
use crate::state::ConnectionStateMachine;
use crate::state::LifecycleEvent;
use crate::state::EasyWsConnectionState;

verus! {

/// How many of `events` are `Connected` dispatches.
pub open spec fn count_connected(events: Seq<EventModel>) -> nat
    decreases events.len(),
{
    if events.len() == 0 {
        0
    } else {
        (if events.first() is Connected {
            1nat
        } else {
            0nat
        }) + count_connected(events.drop_first())
    }
}

/// How many of `events` are `Disconnected` dispatches.
pub open spec fn count_disconnected(events: Seq<EventModel>) -> nat
    decreases events.len(),
{
    if events.len() == 0 {
        0
    } else {
        (if events.first() is Disconnected {
            1nat
        } else {
            0nat
        }) + count_disconnected(events.drop_first())
    }
}

/// Appending one event extends each dispatch count by exactly that event's
/// contribution.
pub proof fn lemma_count_push(events: Seq<EventModel>, event: EventModel)
    ensures
        count_connected(events.push(event)) == count_connected(events) + if event is Connected {
            1nat
        } else {
            0nat
        },
        count_disconnected(events.push(event)) == count_disconnected(events)
            + if event is Disconnected {
            1nat
        } else {
            0nat
        },
    decreases events.len(),
{
    if events.len() == 0 {
        assert(events.push(event) =~= seq![event]);
        assert(seq![event].first() == event);
        assert(seq![event].drop_first() =~= Seq::<EventModel>::empty());
        assert(count_connected(Seq::<EventModel>::empty()) == 0);
        assert(count_disconnected(Seq::<EventModel>::empty()) == 0);
    } else {
        assert(events.push(event).first() == events.first());
        assert(events.push(event).drop_first() =~= events.drop_first().push(event));
        lemma_count_push(events.drop_first(), event);
        assert(count_connected(events.push(event)) == (if events.push(event).first() is Connected {
            1nat
        } else {
            0nat
        }) + count_connected(events.push(event).drop_first()));
        assert(count_disconnected(events.push(event)) == (if events.push(
            event,
        ).first() is Disconnected {
            1nat
        } else {
            0nat
        }) + count_disconnected(events.push(event).drop_first()));
    }
}

/// A handle to one logical WebSocket connection.
///
/// The ghost fields record the history of the current connect cycle:
/// `cycle_events` holds every event handed to the dispatcher since the cycle
/// began, `cycle_done` says whether a cycle has run to termination, and
/// `connects` counts the successful `connect` calls over the handle's life.
pub struct SimpleWebSocket {
    pub endpoint: String,
    pub timeout_ms: u64,
    pub interval_ms: u64,
    pub channel: CommandChannel,
    pub dispatcher: EventDispatcher,
    pub machine: ConnectionStateMachine,
    pub cycle_events: Ghost<Seq<EventModel>>,
    pub cycle_done: Ghost<bool>,
    pub connects: Ghost<nat>,
}

impl SimpleWebSocket {
    /// Well-formedness: the dispatch history agrees with the lifecycle state.
    /// While a cycle is underway at most one `Connected` dispatch has
    /// happened — exactly one once `Connected` is reached — and a completed
    /// cycle has dispatched `Disconnected` exactly once. A handle that never
    /// connected successfully is still `Disconnected`.
    pub open spec fn wf(&self) -> bool {
        let events = self.cycle_events@;
        &&& (self.machine.state is Connecting ==> count_connected(events) == 0
            && count_disconnected(events) == 0 && !self.cycle_done@)
        &&& (self.machine.state is Handshake ==> count_connected(events) == 0
            && count_disconnected(events) == 0 && !self.cycle_done@)
        &&& (self.machine.state is Connected ==> count_connected(events) == 1
            && count_disconnected(events) == 0 && !self.cycle_done@)
        &&& (self.machine.state is Disconnected ==> self.cycle_done@ || events.len() == 0)
        &&& (self.cycle_done@ ==> self.machine.state is Disconnected
            && count_connected(events) <= 1 && count_disconnected(events) == 1)
        &&& (self.machine.state !is Disconnected ==> self.connects@ > 0)
    }

    /// The configuration and registered callbacks of `post` are those of
    /// `pre`, and the count of successful connects is unchanged.
    pub open spec fn same_config(pre: SimpleWebSocket, post: SimpleWebSocket) -> bool {
        &&& post.endpoint == pre.endpoint
        &&& post.timeout_ms == pre.timeout_ms
        &&& post.interval_ms == pre.interval_ms
        &&& post.dispatcher == pre.dispatcher
        &&& post.connects == pre.connects
    }

    /// The lifecycle side of `post` — state, dispatch history, cycle flag —
    /// is that of `pre`.
    pub open spec fn same_lifecycle(pre: SimpleWebSocket, post: SimpleWebSocket) -> bool {
        &&& post.machine == pre.machine
        &&& post.cycle_events == pre.cycle_events
        &&& post.cycle_done == pre.cycle_done
    }

    /// A fresh handle: configured, idle, with an open empty command channel,
    /// no callbacks registered, and no history.
    pub fn new(endpoint: String, timeout_ms: u64, interval: u64) -> (h: SimpleWebSocket)
        ensures
            h.wf(),
            h.endpoint == endpoint,
            h.timeout_ms == timeout_ms,
            h.interval_ms == interval,
            h.machine.state is Disconnected,
            h.channel@ =~= Seq::<CommandModel>::empty(),
            !h.channel.closed,
            h.dispatcher.callbacks == (CallbackSet {
                on_connect_set: false,
                on_disconnect_set: false,
                on_message_set: false,
                on_error_set: false,
            }),
            h.cycle_events@ =~= Seq::<EventModel>::empty(),
            !h.cycle_done@,
            h.connects@ == 0,
    {
        SimpleWebSocket {
            endpoint,
            timeout_ms,
            interval_ms: interval,
            channel: CommandChannel::new(),
            dispatcher: EventDispatcher::new(),
            machine: ConnectionStateMachine::new(),
            cycle_events: Ghost(Seq::empty()),
            cycle_done: Ghost(false),
            connects: Ghost(0),
        }
    }

    /// The lifecycle state as last observed by this handle.
    pub fn state(&self) -> (s: EasyWsConnectionState)
        ensures
            s == self.machine.state,
    {
        self.machine.current()
    }

    /// Registers (or replaces) the connected-callback handler.
    pub fn on_connect(&mut self)
        ensures
            final(self).dispatcher.callbacks == (CallbackSet {
                on_connect_set: true,
                ..old(self).dispatcher.callbacks
            }),
            Self::same_lifecycle(*old(self), *final(self)),
            final(self).channel == old(self).channel,
            final(self).endpoint == old(self).endpoint,
            final(self).timeout_ms == old(self).timeout_ms,
            final(self).interval_ms == old(self).interval_ms,
            final(self).connects == old(self).connects,
            final(self).wf() == old(self).wf(),
    {
        self.dispatcher.callbacks.on_connect_set = true;
    }

    /// Registers (or replaces) the disconnected-callback handler.
    pub fn on_disconnect(&mut self)
        ensures
            final(self).dispatcher.callbacks == (CallbackSet {
                on_disconnect_set: true,
                ..old(self).dispatcher.callbacks
            }),
            Self::same_lifecycle(*old(self), *final(self)),
            final(self).channel == old(self).channel,
            final(self).endpoint == old(self).endpoint,
            final(self).timeout_ms == old(self).timeout_ms,
            final(self).interval_ms == old(self).interval_ms,
            final(self).connects == old(self).connects,
            final(self).wf() == old(self).wf(),
    {
        self.dispatcher.callbacks.on_disconnect_set = true;
    }

    /// Registers (or replaces) the message-callback handler.
    pub fn on_message(&mut self)
        ensures
            final(self).dispatcher.callbacks == (CallbackSet {
                on_message_set: true,
                ..old(self).dispatcher.callbacks
            }),
            Self::same_lifecycle(*old(self), *final(self)),
            final(self).channel == old(self).channel,
            final(self).endpoint == old(self).endpoint,
            final(self).timeout_ms == old(self).timeout_ms,
            final(self).interval_ms == old(self).interval_ms,
            final(self).connects == old(self).connects,
            final(self).wf() == old(self).wf(),
    {
        self.dispatcher.callbacks.on_message_set = true;
    }

    /// Registers (or replaces) the error-callback handler.
    pub fn on_error(&mut self)
        ensures
            final(self).dispatcher.callbacks == (CallbackSet {
                on_error_set: true,
                ..old(self).dispatcher.callbacks
            }),
            Self::same_lifecycle(*old(self), *final(self)),
            final(self).channel == old(self).channel,
            final(self).endpoint == old(self).endpoint,
            final(self).timeout_ms == old(self).timeout_ms,
            final(self).interval_ms == old(self).interval_ms,
            final(self).connects == old(self).connects,
            final(self).wf() == old(self).wf(),
    {
        self.dispatcher.callbacks.on_error_set = true;
    }

    /// Begins a connect cycle. Fails with `AlreadyConnected` — leaving the
    /// handle untouched — unless the handle is `Disconnected`; otherwise the
    /// state advances to `Connecting`, a fresh open command channel replaces
    /// the previous cycle's, the cycle history is reset, and the runtime
    /// embedding is expected to start exactly one network loop. Completion
    /// is signalled asynchronously through the callbacks, never by this
    /// call.
    pub fn connect(&mut self) -> (r: EasyWsResult)
        requires
            old(self).wf(),
        ensures
            final(self).wf(),
            old(self).machine.state !is Disconnected ==> r == Err::<(), EasyWsError>(
                EasyWsError::AlreadyConnected,
            ) && *final(self) == *old(self),
            old(self).machine.state is Disconnected ==> {
                &&& r is Ok
                &&& final(self).machine.state is Connecting
                &&& final(self).channel@ =~= Seq::<CommandModel>::empty()
                &&& !final(self).channel.closed
                &&& final(self).cycle_events@ =~= Seq::<EventModel>::empty()
                &&& !final(self).cycle_done@
                &&& final(self).connects@ == old(self).connects@ + 1
                &&& final(self).dispatcher == old(self).dispatcher
                &&& final(self).endpoint == old(self).endpoint
                &&& final(self).timeout_ms == old(self).timeout_ms
                &&& final(self).interval_ms == old(self).interval_ms
            },
    {
        if self.machine.current() != EasyWsConnectionState::Disconnected {
            return Err(EasyWsError::AlreadyConnected);
        }
        let _ = self.machine.transition(LifecycleEvent::BeginConnect);
        self.channel = CommandChannel::new();
        self.cycle_events = Ghost(Seq::empty());
        self.cycle_done = Ghost(false);
        self.connects = Ghost(self.connects@ + 1);
        Ok(())
    }

    /// Requests an orderly shutdown of the running connection. Fails with
    /// `NotConnected` — leaving the handle untouched — while the handle is
    /// `Disconnected` or its command channel is already closed; otherwise a
    /// `Disconnect` command is queued behind every previously submitted
    /// command and the call returns at once.
    pub fn disconnect(&mut self) -> (r: EasyWsResult)
        requires
            old(self).wf(),
        ensures
            final(self).wf(),
            old(self).machine.state is Disconnected ==> r == Err::<(), EasyWsError>(
                EasyWsError::NotConnected,
            ) && *final(self) == *old(self),
            old(self).machine.state !is Disconnected && old(self).channel.closed ==> r == Err::<
                (),
                EasyWsError,
            >(EasyWsError::NotConnected) && *final(self) == *old(self),
            old(self).machine.state !is Disconnected && !old(self).channel.closed ==> {
                &&& r is Ok
                &&& final(self).channel@ =~= old(self).channel@.push(CommandModel::Disconnect)
                &&& !final(self).channel.closed
                &&& Self::same_config(*old(self), *final(self))
                &&& Self::same_lifecycle(*old(self), *final(self))
            },
    {
        if self.machine.current() == EasyWsConnectionState::Disconnected {
            return Err(EasyWsError::NotConnected);
        }
        match self.channel.submit(EasyWsCommand::Disconnect) {
            Ok(()) => Ok(()),
            Err(_) => Err(EasyWsError::NotConnected),
        }
    }

    /// Queues `message` for delivery to the transport. Fails with
    /// `NotConnected` — leaving the handle untouched, so nothing ever
    /// reaches the transport — unless the handle is `Connected` with an open
    /// command channel; otherwise a `Send` command carrying `message` is
    /// queued behind every previously submitted command.
    pub fn send(&mut self, message: String) -> (r: EasyWsResult)
        requires
            old(self).wf(),
        ensures
            final(self).wf(),
            old(self).machine.state !is Connected ==> r == Err::<(), EasyWsError>(
                EasyWsError::NotConnected,
            ) && *final(self) == *old(self),
            old(self).machine.state is Connected && old(self).channel.closed ==> r == Err::<
                (),
                EasyWsError,
            >(EasyWsError::NotConnected) && *final(self) == *old(self),
            old(self).machine.state is Connected && !old(self).channel.closed ==> {
                &&& r is Ok
                &&& final(self).channel@ =~= old(self).channel@.push(
                    CommandModel::Send(message@),
                )
                &&& !final(self).channel.closed
                &&& Self::same_config(*old(self), *final(self))
                &&& Self::same_lifecycle(*old(self), *final(self))
            },
    {
        if self.machine.current() != EasyWsConnectionState::Connected {
            return Err(EasyWsError::NotConnected);
        }
        match self.channel.submit(EasyWsCommand::Send(message)) {
            Ok(()) => Ok(()),
            Err(_) => Err(EasyWsError::NotConnected),
        }
    }
}

/// Builds `SimpleWebSocket` handles: the endpoint is required, the connect
/// timeout defaults to 10000 ms and the keep-alive interval to 1000 ms.
pub struct SimpleWebSocketBuilder {
    pub endpoint: String,
    pub timeout: u64,
    pub interval: u64,
}

impl SimpleWebSocketBuilder {
    /// A builder for `endpoint` with the default timeout and interval.
    pub fn new(endpoint: String) -> (b: SimpleWebSocketBuilder)
        ensures
            b.endpoint == endpoint,
            b.timeout == 10000,
            b.interval == 1000,
    {
        SimpleWebSocketBuilder { endpoint, timeout: 10000, interval: 1000 }
    }

    /// Sets the connect timeout, in milliseconds.
    pub fn with_timeout(&mut self, milliseconds: u64) -> (ret: &mut SimpleWebSocketBuilder)
        ensures
            *ret == (SimpleWebSocketBuilder { timeout: milliseconds, ..*old(self) }),
            *final(self) == *final(ret),
    {
        self.timeout = milliseconds;
        self
    }

    /// Sets the keep-alive interval, in milliseconds.
    pub fn with_interval(&mut self, milliseconds: u64) -> (ret: &mut SimpleWebSocketBuilder)
        ensures
            *ret == (SimpleWebSocketBuilder { interval: milliseconds, ..*old(self) }),
            *final(self) == *final(ret),
    {
        self.interval = milliseconds;
        self
    }

    /// A fresh handle carrying this builder's configuration: `Disconnected`,
    /// no running loop, no callbacks registered, no history.
    pub fn build(&self) -> (h: SimpleWebSocket)
        ensures
            h.wf(),
            h.endpoint@ == self.endpoint@,
            h.timeout_ms == self.timeout,
            h.interval_ms == self.interval,
            h.machine.state is Disconnected,
            h.channel@ =~= Seq::<CommandModel>::empty(),
            !h.channel.closed,
            h.dispatcher.callbacks == (CallbackSet {
                on_connect_set: false,
                on_disconnect_set: false,
                on_message_set: false,
                on_error_set: false,
            }),
            h.cycle_events@ =~= Seq::<EventModel>::empty(),
            !h.cycle_done@,
            h.connects@ == 0,
    {
        SimpleWebSocket::new(self.endpoint.clone(), self.timeout, self.interval)
    }
}

} // verus!
