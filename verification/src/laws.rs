//! The library's global guarantees, stated once and proved from the
//! handle's well-formedness invariant and the loop's step contracts.

use vstd::prelude::*;

use crate::channel::CommandModel;
use crate::dispatch::CallbackSet;
use crate::dispatch::EventModel;
use crate::dispatch::InvocationModel;
use crate::dispatch::invocation_of;
use crate::dispatch::invocations_for;
use crate::dispatch::slot_filled;
use crate::handle::SimpleWebSocket;
use crate::handle::count_connected;
use crate::handle::count_disconnected;
use crate::network::ActionModel;
use crate::network::TransportEvent;
use crate::network::actions_of;
use crate::network::command_action;
use crate::network::transport_dispatches;
use crate::network::transport_next_state;
use crate::network::transport_terminates;
use crate::state::EasyWsConnectionState;
use crate::state::LifecycleEvent;
use crate::state::lifecycle_step;

verus! {

/// How many of `invocations` invoke the connected callback.
pub open spec fn count_on_connect(invocations: Seq<InvocationModel>) -> nat
    decreases invocations.len(),
{
    if invocations.len() == 0 {
        0
    } else {
        (if invocations.first() is OnConnect {
            1nat
        } else {
            0nat
        }) + count_on_connect(invocations.drop_first())
    }
}

/// How many of `invocations` invoke the disconnected callback.
pub open spec fn count_on_disconnect(invocations: Seq<InvocationModel>) -> nat
    decreases invocations.len(),
{
    if invocations.len() == 0 {
        0
    } else {
        (if invocations.first() is OnDisconnect {
            1nat
        } else {
            0nat
        }) + count_on_disconnect(invocations.drop_first())
    }
}

/// Dispatching a sequence of events invokes the connected callback once per
/// `Connected` event when its slot is filled and never otherwise, and
/// likewise for the disconnected callback.
pub proof fn lemma_invocation_counts(callbacks: CallbackSet, events: Seq<EventModel>)
    ensures
        count_on_connect(invocations_for(callbacks, events)) == if callbacks.on_connect_set {
            count_connected(events)
        } else {
            0nat
        },
        count_on_disconnect(invocations_for(callbacks, events)) == if callbacks.on_disconnect_set {
            count_disconnected(events)
        } else {
            0nat
        },
    decreases events.len(),
{
    if events.len() == 0 {
    } else {
        lemma_invocation_counts(callbacks, events.drop_first());
        let rest = invocations_for(callbacks, events.drop_first());
        if slot_filled(callbacks, events.first()) {
            let head = invocation_of(events.first());
            assert((seq![head] + rest).first() == head);
            assert((seq![head] + rest).drop_first() =~= rest);
        }
    }
}

/// The shape of the transition relation: every legal lifecycle step either
/// advances one stage along the connect path or regresses directly to
/// `Disconnected`; no other movement exists.
pub proof fn lemma_lifecycle_shape(from: EasyWsConnectionState, event: LifecycleEvent)
    ensures
        match lifecycle_step(from, event) {
            Some(next) => (from is Disconnected && next is Connecting) || (from is Connecting
                && next is Handshake) || (from is Handshake && next is Connected) || (from
                !is Disconnected && next is Disconnected),
            None => true,
        },
{
}

/// `disconnect` never succeeds unless a prior successful `connect` has
/// moved the state past `Disconnected`: a well-formed handle on which no
/// `connect` has succeeded is still `Disconnected`, the one state in which
/// `disconnect` is guaranteed to fail with `NotConnected`.
pub proof fn lemma_disconnect_requires_prior_connect(h: SimpleWebSocket)
    requires
        h.wf(),
        h.connects@ == 0,
    ensures
        h.machine.state is Disconnected,
{
}

/// Once a connect attempt has reached `Connected`, exactly one `Connected`
/// event has been dispatched since that attempt began.
pub proof fn lemma_one_connected_dispatch_per_cycle(h: SimpleWebSocket)
    requires
        h.wf(),
        h.machine.state is Connected,
    ensures
        count_connected(h.cycle_events@) == 1,
{
}

/// With the connected callback registered, reaching `Connected` has invoked
/// it exactly once since the connect attempt began.
pub proof fn lemma_one_on_connect_invocation_per_cycle(h: SimpleWebSocket)
    requires
        h.wf(),
        h.machine.state is Connected,
        h.dispatcher.callbacks.on_connect_set,
    ensures
        count_on_connect(invocations_for(h.dispatcher.callbacks, h.cycle_events@)) == 1,
{
    lemma_invocation_counts(h.dispatcher.callbacks, h.cycle_events@);
}

/// Every completed connect cycle has dispatched `Disconnected` exactly
/// once, whether the closure was commanded by the caller or initiated by
/// the transport.
pub proof fn lemma_one_disconnected_dispatch_per_cycle(h: SimpleWebSocket)
    requires
        h.wf(),
        h.cycle_done@,
    ensures
        count_disconnected(h.cycle_events@) == 1,
{
}

/// With the disconnected callback registered, every completed connect cycle
/// has invoked it exactly once.
pub proof fn lemma_one_on_disconnect_invocation_per_cycle(h: SimpleWebSocket)
    requires
        h.wf(),
        h.cycle_done@,
        h.dispatcher.callbacks.on_disconnect_set,
    ensures
        count_on_disconnect(invocations_for(h.dispatcher.callbacks, h.cycle_events@)) == 1,
{
    lemma_invocation_counts(h.dispatcher.callbacks, h.cycle_events@);
}

/// A completed cycle absorbs every further transport event: nothing more is
/// dispatched, the state stays `Disconnected`, and the cycle cannot end a
/// second time — when a commanded closure races a transport-initiated one,
/// whichever came first has won and the other is ignored.
pub proof fn lemma_closure_idempotent(h: SimpleWebSocket, event: TransportEvent)
    requires
        h.wf(),
        h.cycle_done@,
    ensures
        transport_dispatches(h, event) =~= Seq::<EventModel>::empty(),
        !transport_terminates(h, event),
        transport_next_state(h, event) == h.machine.state,
{
}

/// The command ordering law: when the commands up to position `k` are
/// submissions of `Send` followed by a `Disconnect` at `k`, executing the
/// queue delivers each send to the transport, in submission order, strictly
/// before the close — and nothing after the close.
pub proof fn lemma_sends_delivered_before_close(commands: Seq<CommandModel>, k: int)
    requires
        0 <= k < commands.len(),
        commands[k] is Disconnect,
        forall|j: int| 0 <= j < k ==> commands[j] is Send,
    ensures
        actions_of(commands).len() == k + 1,
        actions_of(commands)[k] is CloseTransport,
        forall|j: int| 0 <= j < k ==> actions_of(commands)[j] == command_action(commands[j]),
    decreases k,
{
    if k == 0 {
    } else {
        assert(commands.first() is Send);
        lemma_sends_delivered_before_close(commands.drop_first(), k - 1);
        let head = seq![command_action(commands.first())];
        let rest = actions_of(commands.drop_first());
        assert(actions_of(commands) =~= head + rest);
        assert forall|j: int| 0 <= j < k implies actions_of(commands)[j] == command_action(
            commands[j],
        ) by {
            if j > 0 {
                assert(actions_of(commands)[j] == rest[j - 1]);
                assert(commands.drop_first()[j - 1] == commands[j]);
            }
        }
    }
}

} // verus!
