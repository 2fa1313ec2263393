//! The active binding: the one slot that says which port the bridge is bound
//! to and where bytes for it go.
//!
//! The functions here are the critical sections of the bridge. They work on a
//! slot that the caller has to itself; sharing the slot is the business of
//! [`crate::app_state`].

use crate::error::BridgeError;
use crate::ports::{filter_matching_port, port_listed};
use crate::queue::{enqueue, queue_bound, unbounded_queue};
use crossbeam_channel::{Receiver, Sender};
use vstd::prelude::*;

verus! {

/// A bound port's name together with the sending end of the queue that its
/// delivery worker drains. The two are made in one step and never parted.
pub struct MidiSender {
    name: String,
    sender: Sender<Vec<u8>>,
}

impl MidiSender {
    /// The queue is one that never makes a producer wait.
    #[verifier::type_invariant]
    spec fn never_blocks(self) -> bool {
        queue_bound(self.sender) is None
    }

    /// The name of the bound port.
    pub closed spec fn name(self) -> Seq<char> {
        self.name@
    }

    /// Creates a fresh queue for the port called `name`. The sending end stays
    /// in the returned value; the receiving end is for the port's worker.
    pub fn new(name: String) -> (ends: (MidiSender, Receiver<Vec<u8>>))
        ensures
            ends.0.name() == name@,
    {
        let (sender, receiver) = unbounded_queue();
        (MidiSender { name, sender }, receiver)
    }

    /// The name of the bound port.
    pub fn port_name(&self) -> (name: &String)
        ensures
            name@ == self.name(),
    {
        &self.name
    }

    /// Puts one message at the end of the queue. The bytes are not looked at.
    /// The call never waits; it fails only when the worker at the other end
    /// is gone.
    pub fn submit(&self, bytes: Vec<u8>) -> (outcome: Result<(), BridgeError>)
        ensures
            outcome is Err ==> outcome == Err::<(), BridgeError>(BridgeError::NoActiveBinding),
    {
        proof {
            use_type_invariant(self);
        }
        submission(enqueue(&self.sender, bytes))
    }
}

/// What a submission comes to, given what the queue handed back: success when
/// the queue took the message, `NoActiveBinding` when it refused it.
pub fn submission(refused: Option<Vec<u8>>) -> (outcome: Result<(), BridgeError>)
    ensures
        outcome == match refused {
            None => Ok::<(), BridgeError>(()),
            Some(_) => Err(BridgeError::NoActiveBinding),
        },
{
    match refused {
        None => Ok(()),
        Some(_) => Err(BridgeError::NoActiveBinding),
    }
}

/// The slot after a bind of `binding` at position `index` of `names`: the new
/// binding where the port is listed, the old content where it is not.
pub open spec fn after_bind(
    before: Option<MidiSender>,
    names: Seq<Result<String, ()>>,
    index: int,
    binding: MidiSender,
) -> Option<MidiSender> {
    if port_listed(names, index, binding.name()) {
        Some(binding)
    } else {
        before
    }
}

/// The answer of a bind of a port called `name` at position `index` of `names`.
pub open spec fn bind_answer(names: Seq<Result<String, ()>>, index: int, name: Seq<char>) -> Result<
    (),
    BridgeError,
> {
    if port_listed(names, index, name) {
        Ok(())
    } else {
        Err(BridgeError::PortNotFound)
    }
}

/// The slot after an unbind: empty, whatever it held.
pub open spec fn after_unbind(before: Option<MidiSender>) -> Option<MidiSender> {
    None
}

/// The slot: empty, or one binding.
pub struct ActiveBinding {
    current: Option<MidiSender>,
}

impl View for ActiveBinding {
    type V = Option<MidiSender>;

    closed spec fn view(&self) -> Option<MidiSender> {
        self.current
    }
}

impl ActiveBinding {
    /// The name of the bound port, `None` for an empty slot.
    pub open spec fn bound_name(self) -> Option<Seq<char>> {
        match self@ {
            Some(binding) => Some(binding.name()),
            None => None,
        }
    }

    /// The slot as it is when the bridge starts: empty.
    pub fn empty() -> (slot: ActiveBinding)
        ensures
            slot@ is None,
    {
        ActiveBinding { current: None }
    }

    /// Binds the port at position `port_index` of `names`, whose queue and
    /// name `binding` holds. A port that is not listed under that position and
    /// name is refused and the slot keeps what it had; otherwise `binding`
    /// takes the place of the previous binding, whose queue thereby loses its
    /// sending end.
    pub fn bind(
        &mut self,
        names: &Vec<Result<String, ()>>,
        port_index: usize,
        binding: MidiSender,
    ) -> (outcome: Result<(), BridgeError>)
        ensures
            outcome == bind_answer(names@, port_index as int, binding.name()),
            final(self)@ == after_bind(old(self)@, names@, port_index as int, binding),
    {
        match filter_matching_port(names, port_index, binding.port_name()) {
            None => Err(BridgeError::PortNotFound),
            Some(_) => {
                self.current = Some(binding);
                Ok(())
            },
        }
    }

    /// Empties the slot. Doing so to an empty slot changes nothing.
    pub fn unbind(&mut self)
        ensures
            final(self)@ == after_unbind(old(self)@),
    {
        self.current = None;
    }

    /// Whether a port is bound.
    pub fn has_active_binding(&self) -> (active: bool)
        ensures
            active == (self@ is Some),
    {
        self.current.is_some()
    }

    /// The name of the bound port, if one is bound.
    pub fn active_name(&self) -> (name: Option<String>)
        ensures
            name is Some == (self@ is Some),
            name matches Some(text) ==> text@ == self@->0.name(),
    {
        match &self.current {
            None => None,
            Some(binding) => Some(binding.port_name().clone()),
        }
    }

    /// Hands one message to the queue of the bound port. With nothing bound
    /// there is nowhere for it to go, and the caller is told so.
    pub fn submit(&self, bytes: Vec<u8>) -> (outcome: Result<(), BridgeError>)
        ensures
            self@ is None ==> outcome is Err,
            outcome is Err ==> outcome == Err::<(), BridgeError>(BridgeError::NoActiveBinding),
    {
        match &self.current {
            None => Err(BridgeError::NoActiveBinding),
            Some(binding) => binding.submit(bytes),
        }
    }
}

/// A bind of a port that the listing does not hold under that position and
/// name fails with `PortNotFound` and leaves the slot as it was.
pub proof fn law_unlisted_bind_changes_nothing(
    before: Option<MidiSender>,
    names: Seq<Result<String, ()>>,
    index: int,
    binding: MidiSender,
)
    requires
        !port_listed(names, index, binding.name()),
    ensures
        bind_answer(names, index, binding.name()) == Err::<(), BridgeError>(
            BridgeError::PortNotFound,
        ),
        after_bind(before, names, index, binding) == before,
{
}

/// After a bind that succeeded a port is bound, and it is the one just named;
/// after an unbind none is.
pub proof fn law_bind_then_unbind(
    before: Option<MidiSender>,
    names: Seq<Result<String, ()>>,
    index: int,
    binding: MidiSender,
)
    requires
        bind_answer(names, index, binding.name()) is Ok,
    ensures
        after_bind(before, names, index, binding) is Some,
        after_bind(before, names, index, binding)->0.name() == binding.name(),
        after_unbind(after_bind(before, names, index, binding)) is None,
{
}

/// Unbinding twice is unbinding once.
pub proof fn law_unbind_twice(before: Option<MidiSender>)
    ensures
        after_unbind(before) is None,
        after_unbind(after_unbind(before)) == after_unbind(before),
{
}

/// Of two binds that both succeed, taken one after the other as the write
/// lock makes them, the later one wins whole: the slot holds its name with its
/// queue, and nothing of the earlier one.
pub proof fn law_later_bind_wins(
    before: Option<MidiSender>,
    names: Seq<Result<String, ()>>,
    first_index: int,
    first: MidiSender,
    second_index: int,
    second: MidiSender,
)
    requires
        port_listed(names, first_index, first.name()),
        port_listed(names, second_index, second.name()),
    ensures
        after_bind(after_bind(before, names, first_index, first), names, second_index, second)
            == Some(second),
        after_bind(after_bind(before, names, second_index, second), names, first_index, first)
            == Some(first),
{
}

} // verus!
