//! Output side of a MIDI bridge: which port is bound, how bytes reach its
//! delivery worker, and what that worker does with them.
//!
//! Nothing here touches a device. The shell around this library enumerates
//! ports, opens connections and runs the worker's thread; every decision in
//! between is taken here.
//!
//! - [`ports`]: one enumeration of the output ports, and looking a port up in it.
//! - [`binding`]: the slot that holds the active binding, and what binding,
//!   unbinding and submitting do to it.
//! - [`app_state`]: that slot behind its lock, shared by all callers.
//! - [`worker`]: the delivery worker, as a function from state and event to
//!   the next state and what to do.
//! - [`ipc_backend`]: what each command answers and when a change is announced.
//! - [`error`]: the failures and their texts.
//! - [`queue`], [`shared`]: the channel and the lock, as far as Verus is told
//!   of them.

pub mod app_state;
pub mod binding;
pub mod error;
pub mod ipc_backend;
pub mod ports;
pub mod queue;
pub mod shared;
pub mod worker;
