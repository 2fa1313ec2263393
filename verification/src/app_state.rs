//! The connection manager: one slot shared by every caller, with one writer
//! at a time and any number of readers.
//!
//! Whether the lock can be had, and what the slot holds when it is reached,
//! depends on the other callers. So clearing, the two reads and submitting
//! each come in two parts. The function that ends in `_with` takes what
//! asking for the lock came to and says exactly what is answered and what
//! becomes of the slot. The method of [`AppState`] asks for the lock, hands
//! the outcome to that function, and states what holds whatever the lock
//! gave. A bind has decided most of its answer before it asks for the lock;
//! what it does to the slot is stated in [`crate::binding`].

use crate::binding::{after_bind, ActiveBinding, MidiSender};
use crate::error::BridgeError;
use crate::ports::{filter_matching_port, list_ports, listing, port_listed};
use crate::shared::{held, held_mut, made_with, new_lock, read_access, write_access};
use crate::worker::{
    first_step, forwarded, law_forwards_only_its_own, received, WorkerEvent, WorkerState,
};
use crossbeam_channel::Receiver;
use std::sync::RwLock;
use vstd::prelude::*;

verus! {

/// What asking for the lock came to: the access itself, or `LockUnavailable`
/// where none was given.
pub fn granted<A>(access: Option<A>) -> (outcome: Result<A, BridgeError>)
    ensures
        outcome == match access {
            Some(guard) => Ok::<A, BridgeError>(guard),
            None => Err(BridgeError::LockUnavailable),
        },
{
    match access {
        Some(guard) => Ok(guard),
        None => Err(BridgeError::LockUnavailable),
    }
}

/// What clearing the binding comes to, given what asking for the write lock
/// came to: without access nothing is touched, with access the slot is
/// emptied.
pub fn unset_port_with(access: Option<&mut ActiveBinding>) -> (outcome: Result<(), BridgeError>)
    ensures
        access is None ==> outcome == Err::<(), BridgeError>(BridgeError::LockUnavailable),
        access matches Some(slot) ==> outcome is Ok && final(slot)@ is None,
{
    match granted(access) {
        Err(refusal) => Err(refusal),
        Ok(slot) => {
            slot.unbind();
            Ok(())
        },
    }
}

/// What asking whether a port is bound comes to, given what asking for the
/// read lock came to: with access, whether the slot holds a binding.
pub fn has_active_port_with(access: Option<&ActiveBinding>) -> (outcome: Result<bool, BridgeError>)
    ensures
        outcome == match access {
            None => Err::<bool, BridgeError>(BridgeError::LockUnavailable),
            Some(slot) => Ok(slot@ is Some),
        },
{
    match granted(access) {
        Err(refusal) => Err(refusal),
        Ok(slot) => Ok(slot.has_active_binding()),
    }
}

/// What asking for the bound port's name comes to, given what asking for the
/// read lock came to: with access, the name that the slot holds, if any.
pub fn active_port_name_with(access: Option<&ActiveBinding>) -> (outcome: Result<
    Option<String>,
    BridgeError,
>)
    ensures
        access is None ==> outcome == Err::<Option<String>, BridgeError>(
            BridgeError::LockUnavailable,
        ),
        access matches Some(slot) ==> {
            &&& outcome matches Ok(name)
            &&& name is Some == (slot@ is Some)
            &&& name matches Some(text) ==> text@ == slot@->0.name()
        },
{
    match granted(access) {
        Err(refusal) => Err(refusal),
        Ok(slot) => Ok(slot.active_name()),
    }
}

/// What submitting one message comes to, given what asking for the read lock
/// came to: with access, the message goes to the queue of the bound port, and
/// with nothing bound it is refused.
pub fn send_with(access: Option<&ActiveBinding>, bytes: Vec<u8>) -> (outcome: Result<
    (),
    BridgeError,
>)
    ensures
        access is None ==> outcome == Err::<(), BridgeError>(BridgeError::LockUnavailable),
        access matches Some(slot) ==> {
            &&& slot@ is None ==> outcome is Err
            &&& outcome is Err ==> outcome == Err::<(), BridgeError>(BridgeError::NoActiveBinding)
        },
{
    match granted(access) {
        Err(refusal) => Err(refusal),
        Ok(slot) => slot.submit(bytes),
    }
}

/// The bridge's state: the active binding behind its lock.
pub struct AppState {
    active_port_sender: RwLock<ActiveBinding>,
}

impl AppState {
    /// The name of the port that this state set out bound to, `None` where it
    /// set out with nothing bound. What the state holds now is for its readers
    /// to find out.
    pub closed spec fn initial(&self) -> Option<Seq<char>> {
        made_with(self.active_port_sender)
    }

    /// A bridge with nothing bound.
    pub fn new() -> (state: AppState)
        ensures
            state.initial() is None,
    {
        AppState { active_port_sender: new_lock(ActiveBinding::empty()) }
    }

    /// Turns the name reads of one enumeration into its listing: one entry per
    /// port, in enumeration order, with a failure marker where the name could
    /// not be read.
    pub fn ports_name(&self, probes: &Vec<Option<String>>) -> (names: Vec<Result<String, ()>>)
        ensures
            names@ == listing(probes@),
    {
        list_ports(probes)
    }

    /// First half of a bind. Decides against a fresh listing whether the
    /// requested port may be opened, and if so makes the queue for it. The
    /// caller opens the port at `port_index`, starts a worker on the receiving
    /// end, and reports back through [`AppState::set_port`].
    pub fn prepare_port(
        &self,
        names: &Vec<Result<String, ()>>,
        port_index: usize,
        port_name: String,
    ) -> (outcome: Result<(MidiSender, Receiver<Vec<u8>>), BridgeError>)
        ensures
            outcome is Ok <==> port_listed(names@, port_index as int, port_name@),
            outcome matches Ok(ends) ==> ends.0.name() == port_name@,
            outcome matches Err(error) ==> error == BridgeError::PortNotFound,
    {
        match filter_matching_port(names, port_index, &port_name) {
            None => Err(BridgeError::PortNotFound),
            Some(_) => Ok(MidiSender::new(port_name)),
        }
    }

    /// Second half of a bind. `opened` is what came of opening the port and
    /// starting its worker: nothing, or the hardware layer's refusal. A
    /// binding for a port that `names` does not list is refused; so is one
    /// whose port could not be opened. Otherwise the binding is published in
    /// place of the previous one, in one step under the write lock.
    pub fn set_port(
        &self,
        names: &Vec<Result<String, ()>>,
        port_index: usize,
        binding: MidiSender,
        opened: Result<(), String>,
    ) -> (outcome: Result<(), BridgeError>)
        ensures
            !port_listed(names@, port_index as int, binding.name()) ==> outcome == Err::<
                (),
                BridgeError,
            >(BridgeError::PortNotFound),
            port_listed(names@, port_index as int, binding.name()) ==> match opened {
                Err(reason) => outcome == Err::<(), BridgeError>(
                    BridgeError::ConnectionError(reason),
                ),
                Ok(_) => outcome is Ok || outcome == Err::<(), BridgeError>(
                    BridgeError::LockUnavailable,
                ),
            },
    {
        if filter_matching_port(names, port_index, binding.port_name()).is_none() {
            return Err(BridgeError::PortNotFound);
        }
        match opened {
            Err(reason) => Err(BridgeError::ConnectionError(reason)),
            Ok(_) => match granted(write_access(&self.active_port_sender)) {
                Err(refusal) => Err(refusal),
                Ok(mut guard) => held_mut(&mut guard).bind(names, port_index, binding),
            },
        }
    }

    /// Clears the binding, under the write lock.
    pub fn unset_port(&self) -> (outcome: Result<(), BridgeError>)
        ensures
            outcome is Err ==> outcome == Err::<(), BridgeError>(BridgeError::LockUnavailable),
    {
        match write_access(&self.active_port_sender) {
            None => unset_port_with(None),
            Some(mut guard) => unset_port_with(Some(held_mut(&mut guard))),
        }
    }

    /// Whether a port is bound, read under the read lock.
    pub fn has_active_port(&self) -> (outcome: Result<bool, BridgeError>)
        ensures
            outcome matches Err(error) ==> error == BridgeError::LockUnavailable,
    {
        match read_access(&self.active_port_sender) {
            None => has_active_port_with(None),
            Some(guard) => has_active_port_with(Some(held(&guard))),
        }
    }

    /// The name of the bound port, read under the read lock.
    pub fn active_port_name(&self) -> (outcome: Result<Option<String>, BridgeError>)
        ensures
            outcome matches Err(error) ==> error == BridgeError::LockUnavailable,
    {
        match read_access(&self.active_port_sender) {
            None => active_port_name_with(None),
            Some(guard) => active_port_name_with(Some(held(&guard))),
        }
    }

    /// Submits one message to whatever is bound at the moment of the call,
    /// under the read lock.
    pub fn send(&self, bytes: Vec<u8>) -> (outcome: Result<(), BridgeError>)
        ensures
            outcome matches Err(error) ==> error == BridgeError::LockUnavailable || error
                == BridgeError::NoActiveBinding,
    {
        match read_access(&self.active_port_sender) {
            None => send_with(None, bytes),
            Some(guard) => send_with(Some(held(&guard)), bytes),
        }
    }
}

/// A rebind never crosses two queues. Once it has succeeded the slot holds the
/// new binding and nothing of the old one, so what is submitted from then on
/// goes to the new queue. The old worker, draining or not, forwards to its
/// connection only what its own queue hands it, and the new worker, which
/// sets out on the new queue, only what that one hands it.
pub proof fn law_rebind_never_crosses(
    before: Option<MidiSender>,
    names: Seq<Result<String, ()>>,
    index: int,
    binding: MidiSender,
    old_worker: WorkerState,
    old_events: Seq<WorkerEvent>,
    new_events: Seq<WorkerEvent>,
)
    requires
        port_listed(names, index, binding.name()),
    ensures
        after_bind(before, names, index, binding) == Some(binding),
        forwarded(old_worker.detached(), old_events).is_prefix_of(received(old_events)),
        forwarded(first_step().next, new_events).is_prefix_of(received(new_events)),
{
    law_forwards_only_its_own(old_worker.detached(), old_events);
    law_forwards_only_its_own(first_step().next, new_events);
}

} // verus!
