//! The command surface: what each command of the shell answers, and whether
//! the shell has to announce that the binding changed.
//!
//! Failures cross this boundary as plain text, never as values of
//! [`BridgeError`].

use crate::app_state::AppState;
use crate::binding::MidiSender;
use crate::error::BridgeError;
use crate::ports::{listing, port_listed};
use crossbeam_channel::Receiver;
use vstd::prelude::*;

verus! {

/// Name of the event by which the shell announces a changed binding.
pub const PORT_UPDATED: &'static str = "midi-port-updated";

/// The answer to a command that may change the binding.
#[derive(Debug, PartialEq, Eq)]
pub struct Reply {
    /// What the caller is told.
    pub result: Result<(), String>,
    /// Whether the shell must announce [`PORT_UPDATED`].
    pub notify: bool,
}

/// Whether `answer` is `outcome` as the shell sees it: the same value on
/// success, the failure's text otherwise.
pub open spec fn rendered<T>(outcome: Result<T, BridgeError>, answer: Result<T, String>) -> bool {
    match outcome {
        Ok(value) => answer == Ok::<T, String>(value),
        Err(error) => answer matches Err(text) && text@ == error.text(),
    }
}

/// Puts an outcome into the form in which it crosses to the shell.
pub fn render<T>(outcome: Result<T, BridgeError>) -> (answer: Result<T, String>)
    ensures
        rendered(outcome, answer),
{
    match outcome {
        Ok(value) => Ok(value),
        Err(error) => Err(error.message()),
    }
}

/// The reply to a command that tried to change the binding: the change is
/// announced exactly when it took place.
pub fn reply(outcome: Result<(), BridgeError>) -> (answer: Reply)
    ensures
        rendered(outcome, answer.result),
        answer.notify == outcome is Ok,
{
    let notify = outcome.is_ok();
    Reply { result: render(outcome), notify }
}

/// Lists the output ports from the name reads of one enumeration. Announces
/// nothing.
pub fn fetch_ports(state: &AppState, probes: &Vec<Option<String>>) -> (names: Vec<
    Result<String, ()>,
>)
    ensures
        names@ == listing(probes@),
{
    state.ports_name(probes)
}

/// Starts a bind: answers with the queue for the requested port, or with the
/// reason why it cannot be bound. Announces nothing; the binding has not
/// changed yet.
pub fn prepare_port(
    state: &AppState,
    names: &Vec<Result<String, ()>>,
    port_index: usize,
    port_name: String,
) -> (answer: Result<(MidiSender, Receiver<Vec<u8>>), String>)
    ensures
        answer is Ok <==> port_listed(names@, port_index as int, port_name@),
        answer matches Ok(ends) ==> ends.0.name() == port_name@,
        answer matches Err(text) ==> text@ == BridgeError::PortNotFound.text(),
{
    render(state.prepare_port(names, port_index, port_name))
}

/// Finishes a bind and says whether to announce it.
pub fn set_port(
    state: &AppState,
    names: &Vec<Result<String, ()>>,
    port_index: usize,
    binding: MidiSender,
    opened: Result<(), String>,
) -> (answer: Reply)
    ensures
        answer.notify == answer.result is Ok,
        !port_listed(names@, port_index as int, binding.name()) ==> rendered(
            Err(BridgeError::PortNotFound),
            answer.result,
        ),
        port_listed(names@, port_index as int, binding.name()) ==> match opened {
            Err(reason) => rendered(Err(BridgeError::ConnectionError(reason)), answer.result),
            Ok(_) => answer.result is Ok || rendered(
                Err(BridgeError::LockUnavailable),
                answer.result,
            ),
        },
{
    reply(state.set_port(names, port_index, binding, opened))
}

/// Clears the binding and says whether to announce it.
pub fn unset_port(state: &AppState) -> (answer: Reply)
    ensures
        answer.notify == answer.result is Ok,
        answer.result is Err ==> rendered(Err(BridgeError::LockUnavailable), answer.result),
{
    reply(state.unset_port())
}

/// Whether a port is bound. Announces nothing.
pub fn has_active_port(state: &AppState) -> (answer: Result<bool, String>)
    ensures
        answer is Err ==> rendered(Err(BridgeError::LockUnavailable), answer),
{
    render(state.has_active_port())
}

/// Submits one message to the bound port. Announces nothing.
pub fn send(state: &AppState, bytes: Vec<u8>) -> (answer: Result<(), String>)
    ensures
        answer is Err ==> rendered(Err(BridgeError::LockUnavailable), answer) || rendered(
            Err(BridgeError::NoActiveBinding),
            answer,
        ),
{
    render(state.send(bytes))
}

} // verus!
