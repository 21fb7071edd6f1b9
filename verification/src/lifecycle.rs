//! The lifecycle manager: the single slot that holds the running server
//! instance and the adapter of the embedded application.
//!
//! The embedding program keeps one `Lifecycle` behind a read/write lock. What
//! an instance is (its stop signal, its event channel) and what an adapter is
//! are the program's business; the slot decides who may start, what a stop
//! reaches, and what teardown leaves behind.

use vstd::prelude::*;
use crate::connection::{spec_join_halves, ConnectionId};
use crate::message::{ServerMessage, UnityLogType};
use crate::router::OutboundEvent;

verus! {

/// The slot of the running instance and of the adapter.
pub struct Lifecycle<I, A> {
    instance: Option<I>,
    adapter: Option<A>,
}

/// What a `Lifecycle` holds.
pub struct LifecycleView<I, A> {
    pub instance: Option<I>,
    pub adapter: Option<A>,
}

impl<I, A> LifecycleView<I, A> {
    /// Nothing runs and no adapter is registered.
    pub open spec fn idle() -> Self {
        LifecycleView { instance: None, adapter: None }
    }

    /// Whether an instance is active.
    pub open spec fn running(self) -> bool {
        self.instance is Some
    }

    /// The slot after a call of start: unchanged while an instance is
    /// active, else filled with what the call brought.
    pub open spec fn start(self, instance: I, adapter: A) -> Self {
        if self.running() {
            self
        } else {
            LifecycleView { instance: Some(instance), adapter: Some(adapter) }
        }
    }

    /// The slot after teardown: nothing runs and no adapter is registered.
    pub open spec fn teardown(self) -> Self {
        LifecycleView { instance: None, adapter: None }
    }

    /// The slot after the adapter has become unavailable: the instance stays.
    pub open spec fn adapter_lost(self) -> Self {
        LifecycleView { instance: self.instance, adapter: None }
    }
}

impl<I, A> View for Lifecycle<I, A> {
    type V = LifecycleView<I, A>;

    closed spec fn view(&self) -> LifecycleView<I, A> {
        LifecycleView { instance: self.instance, adapter: self.adapter }
    }
}

impl<I, A> Lifecycle<I, A> {
    /// A slot in which nothing runs.
    pub fn new() -> (slot: Self)
        ensures
            slot@ == LifecycleView::<I, A>::idle(),
    {
        Lifecycle { instance: None, adapter: None }
    }

    /// Starts an instance, unless one is active: then the call changes
    /// nothing, and `instance` and `adapter` are dropped. Returns whether the
    /// instance was started.
    pub fn run(&mut self, instance: I, adapter: A) -> (started: bool)
        ensures
            started == !old(self)@.running(),
            final(self)@ == old(self)@.start(instance, adapter),
    {
        if self.instance.is_some() {
            false
        } else {
            self.instance = Some(instance);
            self.adapter = Some(adapter);
            true
        }
    }

    /// The instance that a stop signal goes to, or `None` if nothing runs.
    /// The slot itself stays as it is until teardown.
    pub fn stop(&self) -> (target: Option<&I>)
        ensures
            target == match self@.instance {
                Some(instance) => Some(&instance),
                None => None,
            },
    {
        self.instance.as_ref()
    }

    /// Whether an instance is active.
    pub fn is_running(&self) -> (running: bool)
        ensures
            running == self@.running(),
    {
        self.instance.is_some()
    }

    /// Clears the slot once the instance has come to its end.
    pub fn teardown(&mut self)
        ensures
            final(self)@ == old(self)@.teardown(),
    {
        self.instance = None;
        self.adapter = None;
    }

    /// Forgets the adapter, which has become unavailable. The instance keeps
    /// running and keeps its listening socket.
    pub fn on_csharp_assembly_unload(&mut self)
        ensures
            final(self)@ == old(self)@.adapter_lost(),
    {
        self.adapter = None;
    }

    /// Makes the event for a line of console output that the application
    /// reports for the connection with the halves `uuid_hi` and `uuid_lo`,
    /// or `None` if nothing runs. A severity code that names no severity
    /// becomes `Unknown`.
    pub fn on_unity_console_log(
        &self,
        uuid_hi: u64,
        uuid_lo: u64,
        log_type: i32,
        log: String,
        stack_trace: String,
    ) -> (event: Option<OutboundEvent>)
        ensures
            event == if self@.running() {
                Some(
                    OutboundEvent::Event {
                        id: ConnectionId { value: spec_join_halves(uuid_hi, uuid_lo) },
                        message: ServerMessage::UnityConsoleOutput {
                            log_type: UnityLogType::spec_from_code(log_type as int),
                            log,
                            stack_trace,
                        },
                    },
                )
            } else {
                None
            },
    {
        if self.instance.is_some() {
            Some(
                OutboundEvent::Event {
                    id: ConnectionId::from_u64_pair(uuid_hi, uuid_lo),
                    message: ServerMessage::UnityConsoleOutput {
                        log_type: UnityLogType::from(log_type),
                        log,
                        stack_trace,
                    },
                },
            )
        } else {
            None
        }
    }

    /// Makes the event for the end of a command that the application reports
    /// for the connection with the halves `uuid_hi` and `uuid_lo`, or `None`
    /// if nothing runs.
    pub fn on_command_finish(
        &self,
        uuid_hi: u64,
        uuid_lo: u64,
        is_success: bool,
        result: Option<String>,
    ) -> (event: Option<OutboundEvent>)
        ensures
            event == if self@.running() {
                Some(
                    OutboundEvent::Event {
                        id: ConnectionId { value: spec_join_halves(uuid_hi, uuid_lo) },
                        message: ServerMessage::CommandFinished { is_success, msg: result },
                    },
                )
            } else {
                None
            },
    {
        if self.instance.is_some() {
            Some(
                OutboundEvent::Event {
                    id: ConnectionId::from_u64_pair(uuid_hi, uuid_lo),
                    message: ServerMessage::CommandFinished { is_success, msg: result },
                },
            )
        } else {
            None
        }
    }

    /// The active instance, through which events of the application enter
    /// the router.
    pub fn instance(&self) -> (instance: Option<&I>)
        ensures
            instance == match self@.instance {
                Some(i) => Some(&i),
                None => None,
            },
    {
        self.instance.as_ref()
    }

    /// The registered adapter, to which commands are dispatched.
    pub fn adapter(&self) -> (adapter: Option<&A>)
        ensures
            adapter == match self@.adapter {
                Some(a) => Some(&a),
                None => None,
            },
    {
        self.adapter.as_ref()
    }
}

/// One call into the lifecycle manager, or the end of a running instance.
pub enum LifecycleCall<I, A> {
    Start { instance: I, adapter: A },
    Stop,
    Teardown,
    AdapterUnavailable,
}

/// The slot after `call`. A stop only signals: the slot changes at teardown.
pub open spec fn spec_apply<I, A>(slot: LifecycleView<I, A>, call: LifecycleCall<I, A>)
    -> LifecycleView<I, A> {
    match call {
        LifecycleCall::Start { instance, adapter } => slot.start(instance, adapter),
        LifecycleCall::Stop => slot,
        LifecycleCall::Teardown => slot.teardown(),
        LifecycleCall::AdapterUnavailable => slot.adapter_lost(),
    }
}

/// The slot after the calls of `calls`, made in order on a slot in which
/// nothing ran.
pub open spec fn spec_replay<I, A>(calls: Seq<LifecycleCall<I, A>>) -> LifecycleView<I, A>
    decreases calls.len(),
{
    if calls.len() == 0 {
        LifecycleView::idle()
    } else {
        spec_apply(spec_replay(calls.drop_last()), calls.last())
    }
}

/// Starting is idempotent: on a slot with an active instance a start changes
/// nothing, so two starts in a row leave what the first one left.
pub proof fn lemma_start_idempotent<I, A>(
    slot: LifecycleView<I, A>,
    first: (I, A),
    second: (I, A),
)
    ensures
        slot.running() ==> slot.start(second.0, second.1) == slot,
        slot.start(first.0, first.1).running(),
        slot.start(first.0, first.1).start(second.0, second.1) == slot.start(first.0, first.1),
{
}

/// Stopping while nothing runs reaches no instance and changes nothing, and
/// neither a stop nor the loss of the adapter ends a running instance.
pub proof fn lemma_stop_changes_nothing<I, A>(slot: LifecycleView<I, A>)
    ensures
        spec_apply(slot, LifecycleCall::Stop) == slot,
        spec_apply(slot, LifecycleCall::AdapterUnavailable).running() == slot.running(),
        !spec_apply(slot, LifecycleCall::Teardown).running(),
{
}

/// An instance is active exactly between a start and the next teardown: after
/// any calls, one is active if and only if some call was a start and no
/// teardown came after it.
pub proof fn lemma_running_between_start_and_teardown<I, A>(calls: Seq<LifecycleCall<I, A>>)
    ensures
        spec_replay(calls).running() <==> exists|i: int|
            0 <= i < calls.len() && #[trigger] calls[i] is Start && forall|j: int|
                i < j < calls.len() ==> !(#[trigger] calls[j] is Teardown),
    decreases calls.len(),
{
    if calls.len() > 0 {
        let front = calls.drop_last();
        lemma_running_between_start_and_teardown(front);
        if !(calls.last() is Start) && !(calls.last() is Teardown) {
            if spec_replay(front).running() {
                let i = choose|i: int|
                    0 <= i < front.len() && #[trigger] front[i] is Start && forall|j: int|
                        i < j < front.len() ==> !(#[trigger] front[j] is Teardown);
                assert forall|j: int| i < j < calls.len() implies !(#[trigger] calls[j]
                    is Teardown) by {
                    if j < front.len() {
                        assert(front[j] == calls[j]);
                    }
                }
            } else {
                assert forall|i: int|
                    0 <= i < calls.len() && #[trigger] calls[i] is Start implies exists|j: int|
                    i < j < calls.len() && #[trigger] calls[j] is Teardown by {
                    assert(front[i] is Start);
                }
            }
        }
    }
}

} // verus!
