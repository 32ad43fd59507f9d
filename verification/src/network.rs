//! The network loop's decision steps.
//!
//! The loop owns the live transport connection for exactly one connect
//! cycle. All its decisions are here, as verified step functions on the
//! handle: `handle_transport_event` reacts to what the transport reports,
//! and `drain_commands` turns queued caller commands into transport actions.
//! The runtime embedding performs the I/O: it opens the transport, feeds
//! every transport report into `handle_transport_event`, executes the
//! returned callback invocations one at a time, and carries out the
//! `LoopAction`s that `drain_commands` hands back.

use vstd::prelude::*;

use crate::channel::CommandModel;
use crate::channel::EasyWsCommand;
use crate::dispatch::CallbackInvocation;
use crate::dispatch::EasyWsEvent;
use crate::dispatch::EventModel;
use crate::dispatch::invocations_for;
use crate::handle::SimpleWebSocket;
use crate::handle::lemma_count_push;
use crate::state::EasyWsConnectionState;
use crate::state::LifecycleEvent;

verus! {

/// An event reported by the transport collaborator: the connection opened
/// (handshake included), the open attempt failed, a text message arrived, a
/// non-fatal transport error occurred, or the connection is no longer
/// usable.
#[derive(Debug, PartialEq, Eq)]
pub enum TransportEvent {
    Opened,
    OpenFailed(String),
    Message(String),
    Error(String),
    Closed,
}

/// An action the loop asks the transport collaborator to perform.
#[derive(Debug, PartialEq, Eq)]
pub enum LoopAction {
    SendText(String),
    CloseTransport,
}

/// The mathematical value of a loop action.
pub enum ActionModel {
    SendText(Seq<char>),
    CloseTransport,
}

impl View for LoopAction {
    type V = ActionModel;

    open spec fn view(&self) -> ActionModel {
        match self {
            LoopAction::SendText(text) => ActionModel::SendText(text@),
            LoopAction::CloseTransport => ActionModel::CloseTransport,
        }
    }
}

/// The events handed to the dispatcher when `event` arrives with the handle
/// in state `pre`: an open reported while connecting dispatches `Connected`;
/// a failed open dispatches `Error` and then `Disconnected`; a message
/// arriving while connected dispatches `Message`; a transport error always
/// dispatches `Error`; a closure dispatches `Disconnected`. A handle whose
/// loop has already stopped dispatches nothing, whatever arrives.
pub open spec fn transport_dispatches(pre: SimpleWebSocket, event: TransportEvent) -> Seq<
    EventModel,
> {
    if pre.machine.state is Disconnected {
        Seq::empty()
    } else {
        match event {
            TransportEvent::Opened => if pre.machine.state is Connecting {
                seq![EventModel::Connected]
            } else {
                Seq::empty()
            },
            TransportEvent::OpenFailed(reason) => if pre.machine.state is Connecting
                || pre.machine.state is Handshake {
                seq![EventModel::Error(reason@), EventModel::Disconnected]
            } else {
                Seq::empty()
            },
            TransportEvent::Message(text) => if pre.machine.state is Connected {
                seq![EventModel::Message(text@)]
            } else {
                Seq::empty()
            },
            TransportEvent::Error(text) => seq![EventModel::Error(text@)],
            TransportEvent::Closed => seq![EventModel::Disconnected],
        }
    }
}

/// The lifecycle state after `event` arrives with the handle in state
/// `pre`.
pub open spec fn transport_next_state(
    pre: SimpleWebSocket,
    event: TransportEvent,
) -> EasyWsConnectionState {
    if pre.machine.state is Disconnected {
        pre.machine.state
    } else {
        match event {
            TransportEvent::Opened => if pre.machine.state is Connecting {
                EasyWsConnectionState::Connected
            } else {
                pre.machine.state
            },
            TransportEvent::OpenFailed(_) => if pre.machine.state is Connecting
                || pre.machine.state is Handshake {
                EasyWsConnectionState::Disconnected
            } else {
                pre.machine.state
            },
            TransportEvent::Message(_) => pre.machine.state,
            TransportEvent::Error(_) => pre.machine.state,
            TransportEvent::Closed => EasyWsConnectionState::Disconnected,
        }
    }
}

/// Whether `event` ends the connect cycle: a closure always does, a failed
/// open does while the connection was still being established, and nothing
/// ends a cycle twice.
pub open spec fn transport_terminates(pre: SimpleWebSocket, event: TransportEvent) -> bool {
    &&& pre.machine.state !is Disconnected
    &&& match event {
        TransportEvent::Opened => false,
        TransportEvent::OpenFailed(_) => pre.machine.state is Connecting
            || pre.machine.state is Handshake,
        TransportEvent::Message(_) => false,
        TransportEvent::Error(_) => false,
        TransportEvent::Closed => true,
    }
}

/// The transport actions that executing `commands` in order produces: each
/// `Send` becomes `SendText`, and the first `Disconnect` becomes
/// `CloseTransport` and stops execution, so every earlier submission's
/// action comes before the close.
pub open spec fn actions_of(commands: Seq<CommandModel>) -> Seq<ActionModel>
    decreases commands.len(),
{
    if commands.len() == 0 {
        Seq::empty()
    } else {
        match commands.first() {
            CommandModel::Send(text) => seq![ActionModel::SendText(text)] + actions_of(
                commands.drop_first(),
            ),
            CommandModel::Disconnect => seq![ActionModel::CloseTransport],
        }
    }
}

/// The transport action that executing one command produces.
pub open spec fn command_action(command: CommandModel) -> ActionModel {
    match command {
        CommandModel::Send(text) => ActionModel::SendText(text),
        CommandModel::Disconnect => ActionModel::CloseTransport,
    }
}

/// The commands left unconsumed after executing `commands`: everything
/// behind the first `Disconnect`, or nothing when there is none.
pub open spec fn remaining_after(commands: Seq<CommandModel>) -> Seq<CommandModel>
    decreases commands.len(),
{
    if commands.len() == 0 {
        Seq::empty()
    } else {
        match commands.first() {
            CommandModel::Send(_) => remaining_after(commands.drop_first()),
            CommandModel::Disconnect => commands.drop_first(),
        }
    }
}

impl SimpleWebSocket {
    /// Reacts to one transport report, as the network loop's dispatch step:
    /// drives the state machine, records the cycle history, closes the
    /// command channel when the cycle ends, and returns — in dispatch order —
    /// the invocations of the registered callbacks. An event arriving after
    /// the cycle has already ended (for instance a transport closure racing
    /// a commanded one) changes nothing and invokes nothing: the first
    /// closure wins.
    pub fn handle_transport_event(&mut self, event: TransportEvent) -> (invocations: Vec<
        CallbackInvocation,
    >)
        requires
            old(self).wf(),
        ensures
            final(self).wf(),
            SimpleWebSocket::same_config(*old(self), *final(self)),
            final(self).machine.state == transport_next_state(*old(self), event),
            final(self).cycle_events@ =~= old(self).cycle_events@ + transport_dispatches(
                *old(self),
                event,
            ),
            final(self).channel@ =~= old(self).channel@,
            final(self).channel.closed == (old(self).channel.closed || transport_terminates(
                *old(self),
                event,
            )),
            final(self).cycle_done@ == (old(self).cycle_done@ || transport_terminates(
                *old(self),
                event,
            )),
            invocations@.map_values(|i: CallbackInvocation| i@) =~= invocations_for(
                old(self).dispatcher.callbacks,
                transport_dispatches(*old(self), event),
            ),
    {
        let ghost dispatched: Seq<EventModel> = transport_dispatches(*old(self), event);
        proof {
            reveal_with_fuel(invocations_for, 3);
        }
        let mut invocations: Vec<CallbackInvocation> = Vec::new();
        if self.machine.current() == EasyWsConnectionState::Disconnected {
            return invocations;
        }
        match event {
            TransportEvent::Opened => {
                if self.machine.current() == EasyWsConnectionState::Connecting {
                    let _ = self.machine.transition(LifecycleEvent::HandshakeStarted);
                    let _ = self.machine.transition(LifecycleEvent::HandshakeComplete);
                    proof {
                        lemma_count_push(self.cycle_events@, EventModel::Connected);
                    }
                    self.cycle_events = Ghost(self.cycle_events@.push(EventModel::Connected));
                    if let Some(inv) = self.dispatcher.dispatch(EasyWsEvent::Connected) {
                        invocations.push(inv);
                    }
                    proof {
                        assert(seq![EventModel::Connected].drop_first()
                            =~= Seq::<EventModel>::empty());
                    }
                }
            },
            TransportEvent::OpenFailed(reason) => {
                if self.machine.current() == EasyWsConnectionState::Connecting
                    || self.machine.current() == EasyWsConnectionState::Handshake {
                    let _ = self.machine.transition(LifecycleEvent::Failed(reason.clone()));
                    self.channel.close();
                    self.cycle_done = Ghost(true);
                    proof {
                        lemma_count_push(self.cycle_events@, EventModel::Error(reason@));
                        lemma_count_push(
                            self.cycle_events@.push(EventModel::Error(reason@)),
                            EventModel::Disconnected,
                        );
                    }
                    self.cycle_events = Ghost(
                        self.cycle_events@.push(EventModel::Error(reason@)).push(
                            EventModel::Disconnected,
                        ),
                    );
                    if let Some(inv) = self.dispatcher.dispatch(EasyWsEvent::Error(reason)) {
                        invocations.push(inv);
                    }
                    if let Some(inv) = self.dispatcher.dispatch(EasyWsEvent::Disconnected) {
                        invocations.push(inv);
                    }
                    proof {
                        assert(dispatched.drop_first() =~= seq![EventModel::Disconnected]);
                        assert(seq![EventModel::Disconnected].drop_first()
                            =~= Seq::<EventModel>::empty());
                    }
                }
            },
            TransportEvent::Message(text) => {
                if self.machine.current() == EasyWsConnectionState::Connected {
                    proof {
                        lemma_count_push(self.cycle_events@, EventModel::Message(text@));
                    }
                    self.cycle_events = Ghost(
                        self.cycle_events@.push(EventModel::Message(text@)),
                    );
                    if let Some(inv) = self.dispatcher.dispatch(EasyWsEvent::Message(text)) {
                        invocations.push(inv);
                    }
                    proof {
                        assert(dispatched.drop_first() =~= Seq::<EventModel>::empty());
                    }
                }
            },
            TransportEvent::Error(text) => {
                proof {
                    lemma_count_push(self.cycle_events@, EventModel::Error(text@));
                }
                self.cycle_events = Ghost(self.cycle_events@.push(EventModel::Error(text@)));
                if let Some(inv) = self.dispatcher.dispatch(EasyWsEvent::Error(text)) {
                    invocations.push(inv);
                }
                proof {
                    assert(dispatched.drop_first() =~= Seq::<EventModel>::empty());
                }
            },
            TransportEvent::Closed => {
                let _ = self.machine.transition(LifecycleEvent::Closed);
                self.channel.close();
                self.cycle_done = Ghost(true);
                proof {
                    lemma_count_push(self.cycle_events@, EventModel::Disconnected);
                }
                self.cycle_events = Ghost(self.cycle_events@.push(EventModel::Disconnected));
                if let Some(inv) = self.dispatcher.dispatch(EasyWsEvent::Disconnected) {
                    invocations.push(inv);
                }
                proof {
                    assert(dispatched.drop_first() =~= Seq::<EventModel>::empty());
                }
            },
        }
        invocations
    }

    /// Consumes the pending commands in submission order, as the network
    /// loop's command step, and returns the transport actions to perform in
    /// that order: one `SendText` per queued `Send`, until the first
    /// `Disconnect` becomes a final `CloseTransport`. Commands behind a
    /// `Disconnect` stay queued (the cycle is ending and will not execute
    /// them); everything else about the handle is untouched.
    pub fn drain_commands(&mut self) -> (actions: Vec<LoopAction>)
        requires
            old(self).wf(),
            old(self).machine.state is Connected,
        ensures
            final(self).wf(),
            SimpleWebSocket::same_config(*old(self), *final(self)),
            SimpleWebSocket::same_lifecycle(*old(self), *final(self)),
            final(self).channel.closed == old(self).channel.closed,
            actions@.map_values(|a: LoopAction| a@) =~= actions_of(old(self).channel@),
            final(self).channel@ =~= remaining_after(old(self).channel@),
    {
        let mut actions: Vec<LoopAction> = Vec::new();
        let mut stop: bool = false;
        while !stop
            invariant
                self.wf(),
                SimpleWebSocket::same_config(*old(self), *self),
                SimpleWebSocket::same_lifecycle(*old(self), *self),
                self.channel.closed == old(self).channel.closed,
                !stop ==> actions_of(old(self).channel@) =~= actions@.map_values(
                    |a: LoopAction| a@,
                ) + actions_of(self.channel@),
                !stop ==> remaining_after(old(self).channel@) =~= remaining_after(self.channel@),
                stop ==> actions@.map_values(|a: LoopAction| a@) =~= actions_of(
                    old(self).channel@,
                ),
                stop ==> self.channel@ =~= remaining_after(old(self).channel@),
            decreases self.channel@.len() + if stop {
                0int
            } else {
                1int
            },
        {
            match self.channel.poll() {
                None => {
                    stop = true;
                },
                Some(EasyWsCommand::Disconnect) => {
                    actions.push(LoopAction::CloseTransport);
                    stop = true;
                },
                Some(EasyWsCommand::Send(text)) => {
                    actions.push(LoopAction::SendText(text));
                },
            }
        }
        actions
    }
}

} // verus!
