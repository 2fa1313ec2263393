//! The delivery worker: what it does, one event at a time.
//!
//! A worker owns one open connection and the receiving end of one queue. The
//! thread that drives it waits on the queue and talks to the connection; it
//! reports each thing that happened as a [`WorkerEvent`] and is told by
//! [`worker_step`] what to do next. The worker keeps no message back: what it
//! is handed it forwards at once or not at all.
//!
//! Nobody tells a worker to stop. It stops when its connection fails, or when
//! its queue is empty and has lost its sending end, which is what replacing
//! or clearing the binding does to it. Between losing the sending end and
//! running dry the worker is draining. A worker behaves the same whether it
//! runs or drains, so a driver that cannot see the sending end go loses
//! nothing by it; one that can records it with [`WorkerState::detach`].

use crate::error::BridgeError;
use vstd::prelude::*;

verus! {

/// Where a worker stands.
#[derive(Clone, Copy, Debug, PartialEq, Eq, Structural)]
pub enum WorkerState {
    /// Delivering; its queue can still be reached by producers.
    Running,
    /// Delivering what is left; no producer can reach its queue any more.
    Draining,
    /// Done; its connection is closed or about to be.
    Terminated,
}

/// What the driving thread saw.
#[derive(Debug, PartialEq, Eq)]
pub enum WorkerEvent {
    /// The queue handed over its next message.
    Message(Vec<u8>),
    /// The queue is empty and no producer can reach it.
    QueueClosed,
    /// The connection took the message that was forwarded last.
    Delivered,
    /// The connection turned that message down as malformed.
    Rejected(String),
    /// The connection itself failed.
    Failed(String),
}

/// What the driving thread is to do next.
#[derive(Debug, PartialEq, Eq)]
pub enum WorkerAction {
    /// Wait for the queue.
    Receive,
    /// Hand these bytes to the connection as they are.
    Forward(Vec<u8>),
    /// Close the connection and stop.
    Close,
}

/// One step of a worker.
#[derive(Debug, PartialEq, Eq)]
pub struct WorkerStep {
    /// Where the worker stands afterwards.
    pub next: WorkerState,
    /// What to do next.
    pub action: WorkerAction,
    /// A failure to put on record, if the event was one.
    pub report: Option<BridgeError>,
}

impl WorkerState {
    /// The state once no producer can reach the queue: a running worker
    /// starts draining, any other stays as it is.
    pub open spec fn detached(self) -> WorkerState {
        match self {
            WorkerState::Running => WorkerState::Draining,
            other => other,
        }
    }

    /// Records that no producer can reach the queue any more.
    pub fn detach(self) -> (next: WorkerState)
        ensures
            next == self.detached(),
    {
        match self {
            WorkerState::Running => WorkerState::Draining,
            other => other,
        }
    }
}

/// How a worker begins: running, waiting for its queue, with nothing to
/// report.
pub open spec fn first_step() -> WorkerStep {
    WorkerStep { next: WorkerState::Running, action: WorkerAction::Receive, report: None }
}

/// The step with which a worker sets out.
pub fn worker_start() -> (first: WorkerStep)
    ensures
        first == first_step(),
{
    WorkerStep { next: WorkerState::Running, action: WorkerAction::Receive, report: None }
}

/// Whether `event` ends a worker: a failed connection or a closed queue.
pub open spec fn is_final(event: WorkerEvent) -> bool {
    event is Failed || event is QueueClosed
}

/// Where a worker in `state` stands after `event`: terminated once it was
/// terminated or the event ends it, where it stood otherwise.
pub open spec fn state_on(state: WorkerState, event: WorkerEvent) -> WorkerState {
    if state is Terminated || is_final(event) {
        WorkerState::Terminated
    } else {
        state
    }
}

/// What a worker in `state` asks for on `event`: to be closed when it is over,
/// to have a message forwarded as it came, and the queue otherwise.
pub open spec fn action_on(state: WorkerState, event: WorkerEvent) -> WorkerAction {
    if state_on(state, event) is Terminated {
        WorkerAction::Close
    } else if let WorkerEvent::Message(bytes) = event {
        WorkerAction::Forward(bytes)
    } else {
        WorkerAction::Receive
    }
}

/// What a worker in `state` puts on record on `event`: a message that was
/// turned down, or the failure of the connection. A terminated worker
/// records nothing.
pub open spec fn report_on(state: WorkerState, event: WorkerEvent) -> Option<BridgeError> {
    if state is Terminated {
        None
    } else {
        match event {
            WorkerEvent::Rejected(reason) => Some(BridgeError::TransportRejected(reason)),
            WorkerEvent::Failed(reason) => Some(BridgeError::TransportFatal(reason)),
            _ => None,
        }
    }
}

/// The step that a worker in `state` takes on `event`.
pub open spec fn step(state: WorkerState, event: WorkerEvent) -> WorkerStep {
    WorkerStep {
        next: state_on(state, event),
        action: action_on(state, event),
        report: report_on(state, event),
    }
}

/// Decides what a worker does on one event.
pub fn worker_step(state: WorkerState, event: WorkerEvent) -> (taken: WorkerStep)
    ensures
        taken == step(state, event),
{
    match state {
        WorkerState::Terminated => WorkerStep {
            next: WorkerState::Terminated,
            action: WorkerAction::Close,
            report: None,
        },
        _ => match event {
            WorkerEvent::Message(bytes) => WorkerStep {
                next: state,
                action: WorkerAction::Forward(bytes),
                report: None,
            },
            WorkerEvent::QueueClosed => WorkerStep {
                next: WorkerState::Terminated,
                action: WorkerAction::Close,
                report: None,
            },
            WorkerEvent::Delivered => WorkerStep {
                next: state,
                action: WorkerAction::Receive,
                report: None,
            },
            WorkerEvent::Rejected(reason) => WorkerStep {
                next: state,
                action: WorkerAction::Receive,
                report: Some(BridgeError::TransportRejected(reason)),
            },
            WorkerEvent::Failed(reason) => WorkerStep {
                next: WorkerState::Terminated,
                action: WorkerAction::Close,
                report: Some(BridgeError::TransportFatal(reason)),
            },
        },
    }
}

/// The messages among `events`, in the order in which the queue handed them
/// over.
pub open spec fn received(events: Seq<WorkerEvent>) -> Seq<Seq<u8>>
    decreases events.len(),
{
    if events.len() == 0 {
        Seq::empty()
    } else {
        let rest = received(events.drop_first());
        match events[0] {
            WorkerEvent::Message(bytes) => seq![bytes@] + rest,
            _ => rest,
        }
    }
}

/// What a worker that starts in `state` hands to its connection, in order,
/// while `events` happen to it one after the other.
pub open spec fn forwarded(state: WorkerState, events: Seq<WorkerEvent>) -> Seq<Seq<u8>>
    decreases events.len(),
{
    if events.len() == 0 {
        Seq::empty()
    } else {
        let taken = step(state, events[0]);
        let rest = forwarded(taken.next, events.drop_first());
        match taken.action {
            WorkerAction::Forward(bytes) => seq![bytes@] + rest,
            _ => rest,
        }
    }
}

/// Where a worker that starts in `state` stands after `events`.
pub open spec fn state_after(state: WorkerState, events: Seq<WorkerEvent>) -> WorkerState
    decreases events.len(),
{
    if events.len() == 0 {
        state
    } else {
        state_after(step(state, events[0]).next, events.drop_first())
    }
}

/// A terminated worker forwards nothing and stays terminated, whatever
/// happens.
pub proof fn law_terminated_is_silent(events: Seq<WorkerEvent>)
    ensures
        forwarded(WorkerState::Terminated, events) == Seq::<Seq<u8>>::empty(),
        state_after(WorkerState::Terminated, events) == WorkerState::Terminated,
    decreases events.len(),
{
    if events.len() > 0 {
        law_terminated_is_silent(events.drop_first());
    }
}

/// First in, first out: while nothing ends the worker, it forwards every
/// message it is handed, each one verbatim and once, in the order in which
/// the queue handed them over, and it stays in the state it was in.
pub proof fn law_forwards_in_order(state: WorkerState, events: Seq<WorkerEvent>)
    requires
        state != WorkerState::Terminated,
        forall|i: int| 0 <= i < events.len() ==> !is_final(#[trigger] events[i]),
    ensures
        forwarded(state, events) == received(events),
        state_after(state, events) == state,
    decreases events.len(),
{
    if events.len() > 0 {
        law_forwards_in_order(state, events.drop_first());
    }
}

/// What happens to a worker while its queue hands it `messages` one by one and
/// the connection takes each of them.
pub open spec fn undisturbed(messages: Seq<Vec<u8>>) -> Seq<WorkerEvent>
    decreases messages.len(),
{
    if messages.len() == 0 {
        Seq::empty()
    } else {
        seq![WorkerEvent::Message(messages[0]), WorkerEvent::Delivered] + undisturbed(
            messages.drop_first(),
        )
    }
}

/// The bytes of each of `messages`, in the same order.
pub open spec fn bytes_of(messages: Seq<Vec<u8>>) -> Seq<Seq<u8>> {
    Seq::new(messages.len(), |i: int| messages[i]@)
}

/// With a connection that takes everything, the connection is handed the very
/// messages that the queue handed over, in the same order, and the worker is
/// still running afterwards.
pub proof fn law_delivers_in_order(messages: Seq<Vec<u8>>)
    ensures
        forwarded(first_step().next, undisturbed(messages)) == bytes_of(messages),
        state_after(first_step().next, undisturbed(messages)) == WorkerState::Running,
    decreases messages.len(),
{
    let events = undisturbed(messages);
    if messages.len() > 0 {
        let answer = events.drop_first();
        law_delivers_in_order(messages.drop_first());
        assert(answer[0] == WorkerEvent::Delivered);
        assert(answer.drop_first() =~= undisturbed(messages.drop_first()));
        assert(forwarded(WorkerState::Running, answer) == bytes_of(messages.drop_first()));
        assert(state_after(WorkerState::Running, answer) == WorkerState::Running);
        assert(bytes_of(messages) =~= seq![messages[0]@] + bytes_of(messages.drop_first()));
    } else {
        assert(bytes_of(messages) =~= Seq::<Seq<u8>>::empty());
    }
}

/// A worker never forwards what it was not handed: whatever happens, what it
/// forwards is a leading part of the messages of its own queue, cut off where
/// the worker ended. Nothing from elsewhere can appear in it.
pub proof fn law_forwards_only_its_own(state: WorkerState, events: Seq<WorkerEvent>)
    ensures
        forwarded(state, events).is_prefix_of(received(events)),
    decreases events.len(),
{
    if events.len() > 0 {
        let taken = step(state, events[0]);
        let rest = events.drop_first();
        law_forwards_only_its_own(taken.next, rest);
        if state is Terminated {
            law_terminated_is_silent(events);
        } else if is_final(events[0]) {
            law_terminated_is_silent(rest);
        }
    }
}

/// Draining is delivering: a worker whose queue no producer can reach any
/// more forwards exactly what a running one would.
pub proof fn law_draining_delivers(events: Seq<WorkerEvent>)
    ensures
        forwarded(WorkerState::Draining, events) == forwarded(WorkerState::Running, events),
    decreases events.len(),
{
    if events.len() > 0 {
        if !is_final(events[0]) {
            law_draining_delivers(events.drop_first());
        }
    }
}

/// Once the connection fails or the queue is closed, the worker is
/// terminated and forwards nothing more, whatever was still waiting.
pub proof fn law_ends_for_good(
    state: WorkerState,
    before: Seq<WorkerEvent>,
    last: WorkerEvent,
    after: Seq<WorkerEvent>,
)
    requires
        is_final(last),
    ensures
        state_after(state, before.push(last) + after) == WorkerState::Terminated,
        forwarded(state, before.push(last) + after) == forwarded(state, before),
    decreases before.len(),
{
    let all = before.push(last) + after;
    if before.len() == 0 {
        assert(all.drop_first() =~= after);
        law_terminated_is_silent(after);
    } else {
        assert(all.drop_first() =~= before.drop_first().push(last) + after);
        law_ends_for_good(step(state, before[0]).next, before.drop_first(), last, after);
    }
}

} // verus!
