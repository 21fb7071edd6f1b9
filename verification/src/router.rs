//! The router: accepts connections into the registry, finds the connection
//! that an event of the application is addressed to, and hands the commands
//! of clients to the adapter.
//!
//! The router runs three loops: one accepts sockets, one delivers events, one
//! dispatches commands. Each loop reports what it got and is told what to
//! do; the loops end together when any of them is told to exit.

use vstd::prelude::*;
use crate::connection::{spec_is_random_form, spec_join_halves, ConnectionId};
use crate::message::{ClientMessage, ServerMessage};
use crate::pump::{
    spec_read_step,
    spec_write_step,
    CommandInvocation,
    ReadAction,
    ReadEvent,
    WriteAction,
    WriteEvent,
};
use crate::registry::{spec_lookup, ConnectionRegistry};

verus! {

/// What the accept loop reports.
#[derive(Debug, Clone, PartialEq, Eq)]
pub enum AcceptEvent {
    /// A client has connected.
    Connected,
    /// Accepting failed; the listening socket is still there.
    Failed,
}

/// What the accept loop does next.
#[derive(Debug, Clone, PartialEq, Eq)]
pub enum AcceptAction {
    /// Start the pumps of the new connection `id`; its outbound channel is
    /// known by `handle`. If `id` was registered before, `replaced` is the
    /// handle of the channel that is no longer reachable.
    Spawn { id: ConnectionId, handle: u64, replaced: Option<u64> },
    /// Close the new socket: no handle is left for it.
    Refuse,
    /// Nothing was accepted; go on accepting.
    Retry,
}

/// What arrives on the channel of events from the application.
#[derive(Debug, Clone, PartialEq, Eq)]
pub enum OutboundEvent {
    /// A message addressed to one connection.
    Event { id: ConnectionId, message: ServerMessage },
    /// The channel is closed.
    Closed,
}

/// What the event-delivery loop does next.
#[derive(Debug, Clone, PartialEq, Eq)]
pub enum DeliveryAction {
    /// Put the message on the outbound channel known by `handle`. Should
    /// that channel be closed, the message is dropped and the loop goes on.
    Enqueue { handle: u64, message: ServerMessage },
    /// Drop the message: its connection is not open.
    Discard,
    /// End the loop.
    Exit,
}

/// What arrives on the channel of commands from the read pumps.
#[derive(Debug, Clone, PartialEq, Eq)]
pub enum InboundEvent {
    /// A command sent by a client.
    Command(CommandInvocation),
    /// The channel is closed.
    Closed,
}

/// What the command-dispatch loop does next.
#[derive(Debug, Clone, PartialEq, Eq)]
pub enum DispatchAction {
    /// Call the adapter with the connection's identifier, in two halves, and
    /// the command as it came.
    Invoke { id_hi: u64, id_lo: u64, cmd: String, args: Vec<String> },
    /// Drop the command: no adapter is registered.
    Discard,
    /// End the loop.
    Exit,
}

/// Whether the handles of `connections` lie below `next_handle` and no two
/// connections share one.
pub open spec fn spec_handles_unique(connections: Map<ConnectionId, u64>, next_handle: u64) -> bool {
    &&& forall|id: ConnectionId| #[trigger]
        connections.contains_key(id) ==> connections[id] < next_handle
    &&& forall|a: ConnectionId, b: ConnectionId|
        #![trigger connections[a], connections[b]]
        connections.contains_key(a) && connections.contains_key(b) && a != b ==> connections[a]
            != connections[b]
}

/// What registering the connection `id` leaves and answers: the connections,
/// the next handle, and the action of the accept loop. The connection gets
/// the next handle, unless the handles are used up.
pub open spec fn spec_register(connections: Map<ConnectionId, u64>, next_handle: u64, id: ConnectionId)
    -> (Map<ConnectionId, u64>, u64, AcceptAction) {
    if next_handle == u64::MAX {
        (connections, next_handle, AcceptAction::Refuse)
    } else {
        (
            connections.insert(id, next_handle),
            (next_handle + 1) as u64,
            AcceptAction::Spawn {
                id,
                handle: next_handle,
                replaced: spec_lookup(connections, id),
            },
        )
    }
}

/// The answer of the event-delivery loop to `event`.
pub open spec fn spec_deliver(connections: Map<ConnectionId, u64>, event: OutboundEvent)
    -> DeliveryAction {
    match event {
        OutboundEvent::Closed => DeliveryAction::Exit,
        OutboundEvent::Event { id, message } => match spec_lookup(connections, id) {
            Some(handle) => DeliveryAction::Enqueue { handle, message },
            None => DeliveryAction::Discard,
        },
    }
}

/// The answer of the command-dispatch loop to `event`.
pub open spec fn spec_dispatch(adapter_registered: bool, event: InboundEvent) -> DispatchAction {
    match event {
        InboundEvent::Closed => DispatchAction::Exit,
        InboundEvent::Command(invocation) => if adapter_registered {
            DispatchAction::Invoke {
                id_hi: (invocation.id.value / 0x1_0000_0000_0000_0000) as u64,
                id_lo: (invocation.id.value % 0x1_0000_0000_0000_0000) as u64,
                cmd: invocation.cmd,
                args: invocation.args,
            }
        } else {
            DispatchAction::Discard
        },
    }
}

/// The routing state of a server instance.
pub struct Router {
    registry: ConnectionRegistry,
    next_handle: u64,
}

impl Router {
    /// The open connections and the handle of each.
    pub closed spec fn connections(&self) -> Map<ConnectionId, u64> {
        self.registry@
    }

    /// The handle that the next connection gets.
    pub closed spec fn next_handle(&self) -> u64 {
        self.next_handle
    }

    /// Whether the router is in order: every open connection has a handle
    /// of its own, given out before the next one.
    pub open spec fn wf(&self) -> bool {
        spec_handles_unique(self.connections(), self.next_handle())
    }

    /// A router without connections.
    pub fn new() -> (router: Router)
        ensures
            router.wf(),
            router.connections() == Map::<ConnectionId, u64>::empty(),
            router.next_handle() == 0,
    {
        Router { registry: ConnectionRegistry::new(), next_handle: 0 }
    }

    /// Registers the connection `id` under a handle that no open connection
    /// has. The registration is unconditional: an identifier that is already
    /// registered is registered anew. Only when all handles have been given
    /// out is the connection refused and nothing changed.
    pub fn register(&mut self, id: ConnectionId) -> (action: AcceptAction)
        requires
            old(self).wf(),
        ensures
            final(self).wf(),
            (final(self).connections(), final(self).next_handle(), action) == spec_register(
                old(self).connections(),
                old(self).next_handle(),
                id,
            ),
    {
        if self.next_handle == u64::MAX {
            AcceptAction::Refuse
        } else {
            let handle = self.next_handle;
            self.next_handle = handle + 1;
            let replaced = self.registry.insert(id, handle);
            AcceptAction::Spawn { id, handle, replaced }
        }
    }

    /// Takes one report of the accept loop. A new connection gets a freshly
    /// minted identifier and is registered; a failure to accept is passed
    /// over, and the loop goes on.
    pub fn on_accept(&mut self, event: AcceptEvent) -> (action: AcceptAction)
        requires
            old(self).wf(),
        ensures
            final(self).wf(),
            event is Failed ==> action == AcceptAction::Retry && final(self).connections() == old(
                self,
            ).connections() && final(self).next_handle() == old(self).next_handle(),
            event is Connected ==> exists|id: ConnectionId|
                spec_is_random_form(id.value) && (
                    final(self).connections(),
                    final(self).next_handle(),
                    action,
                ) == #[trigger] spec_register(
                    old(self).connections(),
                    old(self).next_handle(),
                    id,
                ),
    {
        match event {
            AcceptEvent::Failed => AcceptAction::Retry,
            AcceptEvent::Connected => self.register(ConnectionId::mint()),
        }
    }

    /// Takes one report of the event-delivery loop. An event goes to the
    /// channel registered for the connection it is addressed to; if that
    /// connection is not open, the event is dropped, which is no error.
    pub fn deliver(&self, event: OutboundEvent) -> (action: DeliveryAction)
        ensures
            action == spec_deliver(self.connections(), event),
    {
        match event {
            OutboundEvent::Closed => DeliveryAction::Exit,
            OutboundEvent::Event { id, message } => match self.registry.lookup(id) {
                Some(handle) => DeliveryAction::Enqueue { handle, message },
                None => DeliveryAction::Discard,
            },
        }
    }

    /// Releases the connection `id` when one of its pumps has terminated,
    /// and returns the handle of its outbound channel, which is to be
    /// closed. Releasing a connection that is not open changes nothing.
    pub fn release(&mut self, id: ConnectionId) -> (handle: Option<u64>)
        requires
            old(self).wf(),
        ensures
            final(self).wf(),
            final(self).connections() == old(self).connections().remove(id),
            final(self).next_handle() == old(self).next_handle(),
            handle == spec_lookup(old(self).connections(), id),
    {
        self.registry.remove(id)
    }

    /// Whether the connection `id` is open.
    pub fn is_connected(&self, id: ConnectionId) -> (connected: bool)
        ensures
            connected == self.connections().contains_key(id),
    {
        self.registry.lookup(id).is_some()
    }
}

/// Takes one report of the command-dispatch loop. A command goes to the
/// adapter under the identifier of the connection it came in on; while no
/// adapter is registered it is dropped.
pub fn dispatch(adapter_registered: bool, event: InboundEvent) -> (action: DispatchAction)
    ensures
        action == spec_dispatch(adapter_registered, event),
{
    match event {
        InboundEvent::Closed => DispatchAction::Exit,
        InboundEvent::Command(invocation) => {
            if adapter_registered {
                let CommandInvocation { id, cmd, args } = invocation;
                let (id_hi, id_lo) = id.as_u64_pair();
                DispatchAction::Invoke { id_hi, id_lo, cmd, args }
            } else {
                DispatchAction::Discard
            }
        },
    }
}

/// Routing correctness. Let `a` and `b` be two different connections that
/// are open at the same time. A command that arrives on `a` is forwarded
/// under the identifier of `a` and reaches the adapter under that identifier,
/// with its name and arguments unchanged. An event addressed to `a` is put on
/// the channel of `a`, which is not the channel of `b`.
pub proof fn lemma_routing_correct(
    connections: Map<ConnectionId, u64>,
    next_handle: u64,
    a: ConnectionId,
    b: ConnectionId,
    cmd: String,
    args: Vec<String>,
    message: ServerMessage,
)
    requires
        spec_handles_unique(connections, next_handle),
        connections.contains_key(a),
        connections.contains_key(b),
        a != b,
    ensures
        spec_read_step(true, a, ReadEvent::Message(ClientMessage::CommandRequest { cmd, args }))
            == (true, ReadAction::Forward(CommandInvocation { id: a, cmd, args })),
        spec_dispatch(true, InboundEvent::Command(CommandInvocation { id: a, cmd, args }))
            matches DispatchAction::Invoke { id_hi, id_lo, cmd: name, args: arguments }
            && spec_join_halves(id_hi, id_lo) == a.value && name == cmd && arguments == args,
        spec_deliver(connections, OutboundEvent::Event { id: a, message })
            == (DeliveryAction::Enqueue { handle: connections[a], message }),
        connections[a] != connections[b],
{
}

/// Cleanup on disconnect. When the stream of a connection ends, its read
/// pump terminates and names the connection for release; so does the write
/// pump when its channel closes or a write fails. Once released the
/// connection is gone from the registry, releasing it again changes nothing,
/// and an event addressed to it is dropped, which is no error.
pub proof fn lemma_release_on_disconnect(
    connections: Map<ConnectionId, u64>,
    id: ConnectionId,
    message: ServerMessage,
)
    ensures
        spec_read_step(true, id, ReadEvent::Closed) == (
            false,
            ReadAction::Terminate { release: id },
        ),
        spec_write_step(true, id, WriteEvent::WriteFailed) == (
            false,
            WriteAction::Terminate { release: id },
        ),
        spec_write_step(true, id, WriteEvent::ChannelClosed) == (
            false,
            WriteAction::Terminate { release: id },
        ),
        !connections.remove(id).contains_key(id),
        connections.remove(id).remove(id) == connections.remove(id),
        spec_deliver(connections.remove(id), OutboundEvent::Event { id, message })
            == DeliveryAction::Discard,
{
}

/// A call that changes which connections are open.
pub enum RouterCall {
    /// A connection with this identifier is registered.
    Register(ConnectionId),
    /// The connection with this identifier is released.
    Release(ConnectionId),
}

/// The connections and the next handle after `call`.
pub open spec fn spec_router_apply(state: (Map<ConnectionId, u64>, u64), call: RouterCall) -> (
    Map<ConnectionId, u64>,
    u64,
) {
    match call {
        RouterCall::Register(id) => (
            spec_register(state.0, state.1, id).0,
            spec_register(state.0, state.1, id).1,
        ),
        RouterCall::Release(id) => (state.0.remove(id), state.1),
    }
}

/// The connections and the next handle after the calls of `calls`, made in
/// order on a router without connections.
pub open spec fn spec_router_replay(calls: Seq<RouterCall>) -> (Map<ConnectionId, u64>, u64)
    decreases calls.len(),
{
    if calls.len() == 0 {
        (Map::empty(), 0)
    } else {
        spec_router_apply(spec_router_replay(calls.drop_last()), calls.last())
    }
}

/// Every state that a router can reach is in order: no two open connections
/// share a handle. No more handles have been given out than there were calls.
pub proof fn lemma_router_stays_valid(calls: Seq<RouterCall>)
    ensures
        spec_handles_unique(spec_router_replay(calls).0, spec_router_replay(calls).1),
        spec_router_replay(calls).1 <= calls.len(),
    decreases calls.len(),
{
    if calls.len() > 0 {
        lemma_router_stays_valid(calls.drop_last());
    }
}

/// A connection is open exactly between its registration and its release:
/// after any calls, fewer than there are handles, the connection `id` is
/// open if and only if some call has registered it and no later call has
/// released it.
pub proof fn lemma_open_between_register_and_release(calls: Seq<RouterCall>, id: ConnectionId)
    requires
        calls.len() <= u64::MAX,
    ensures
        spec_router_replay(calls).0.contains_key(id) <==> exists|i: int|
            0 <= i < calls.len() && #[trigger] calls[i] == RouterCall::Register(id) && forall|
                j: int,
            |
                i < j < calls.len() ==> #[trigger] calls[j] != RouterCall::Release(id),
    decreases calls.len(),
{
    if calls.len() > 0 {
        let front = calls.drop_last();
        lemma_open_between_register_and_release(front, id);
        lemma_router_stays_valid(front);
        if calls.last() != RouterCall::Register(id) && calls.last() != RouterCall::Release(id) {
            if spec_router_replay(front).0.contains_key(id) {
                let i = choose|i: int|
                    0 <= i < front.len() && #[trigger] front[i] == RouterCall::Register(id)
                        && forall|j: int|
                        i < j < front.len() ==> #[trigger] front[j] != RouterCall::Release(id);
                assert forall|j: int| i < j < calls.len() implies #[trigger] calls[j]
                    != RouterCall::Release(id) by {
                    if j < front.len() {
                        assert(front[j] == calls[j]);
                    }
                }
            } else {
                assert forall|i: int|
                    0 <= i < calls.len() && #[trigger] calls[i] == RouterCall::Register(
                        id,
                    ) implies exists|j: int|
                    i < j < calls.len() && #[trigger] calls[j] == RouterCall::Release(id) by {
                    assert(front[i] == RouterCall::Register(id));
                }
            }
        }
    }
}

} // verus!
