//! The outbound queue between the bridge and a delivery worker: an unbounded
//! channel of `crossbeam_channel`, known to Verus only through the
//! declarations in this file.

use crossbeam_channel::{Receiver, Sender};
use vstd::prelude::*;

verus! {

/// `crossbeam_channel::Sender`, carried as an opaque value.
#[verifier::external_type_specification]
#[verifier::external_body]
#[verifier::reject_recursive_types(T)]
pub struct ExSender<T>(Sender<T>);

/// `crossbeam_channel::Receiver`, carried as an opaque value.
#[verifier::external_type_specification]
#[verifier::external_body]
#[verifier::reject_recursive_types(T)]
pub struct ExReceiver<T>(Receiver<T>);

/// The capacity that the channel behind `sender` was made with: `None` for a
/// channel without a bound. It is fixed when the channel is created.
pub uninterp spec fn queue_bound(sender: Sender<Vec<u8>>) -> Option<nat>;

/// Calls `crossbeam_channel::unbounded`. Claimed: the channel it creates has
/// no bound. Nothing is claimed of the two ends beyond that.
#[verifier::external_body]
pub(crate) fn unbounded_queue() -> (ends: (Sender<Vec<u8>>, Receiver<Vec<u8>>))
    ensures
        queue_bound(ends.0) is None,
{
    crossbeam_channel::unbounded()
}

/// Calls `Sender::send`. On a channel without a bound the call returns without
/// waiting for room, which is why a bound is ruled out here. Claimed: where the
/// message is refused, which happens when no receiving end is left, it comes
/// back unchanged. Whether it is refused depends on the other end and is
/// not claimed.
#[verifier::external_body]
pub(crate) fn enqueue(sender: &Sender<Vec<u8>>, bytes: Vec<u8>) -> (refused: Option<Vec<u8>>)
    requires
        queue_bound(*sender) is None,
    ensures
        refused matches Some(returned) ==> returned == bytes,
{
    match sender.send(bytes) {
        Ok(()) => None,
        Err(refusal) => Some(refusal.0),
    }
}

} // verus!
