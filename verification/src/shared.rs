//! The lock around the slot: `std::sync::RwLock`, known to Verus only through
//! the declarations in this file.
//!
//! A lock hands out access, not values: what a guard reaches is whatever the
//! last writer left. So nothing here says what a guard holds, only what the
//! lock was made with. What is done with the slot once it is reached is
//! stated in [`crate::binding`].

use crate::binding::ActiveBinding;
use std::sync::{RwLock, RwLockReadGuard, RwLockWriteGuard};
use vstd::prelude::*;

verus! {

/// `std::sync::RwLock`, carried as an opaque value.
#[verifier::external_type_specification]
#[verifier::external_body]
#[verifier::reject_recursive_types(T)]
pub struct ExRwLock<T: ?Sized>(RwLock<T>);

/// `std::sync::RwLockReadGuard`, carried as an opaque value.
#[verifier::external_type_specification]
#[verifier::external_body]
#[verifier::reject_recursive_types(T)]
pub struct ExRwLockReadGuard<'a, T: ?Sized>(RwLockReadGuard<'a, T>);

/// `std::sync::RwLockWriteGuard`, carried as an opaque value.
#[verifier::external_type_specification]
#[verifier::external_body]
#[verifier::reject_recursive_types(T)]
pub struct ExRwLockWriteGuard<'a, T: ?Sized + 'a>(RwLockWriteGuard<'a, T>);

/// The name of the port bound in the slot that `lock` was made with, `None`
/// for an empty slot. It is what the lock holds until the first writer; it
/// says nothing of what the lock holds later.
pub uninterp spec fn made_with(lock: RwLock<ActiveBinding>) -> Option<Seq<char>>;

/// Calls `RwLock::new`. Claimed: the lock is made with the slot it is given.
#[verifier::external_body]
pub(crate) fn new_lock(slot: ActiveBinding) -> (lock: RwLock<ActiveBinding>)
    ensures
        made_with(lock) == slot.bound_name(),
{
    RwLock::new(slot)
}

/// Calls `RwLock::write`, which waits until no other guard is out. `None`
/// stands for a poisoned lock. Nothing is claimed of which of the two comes
/// back. The call must not come from a thread that holds a guard of the same
/// lock; the bridge never keeps a guard beyond the function that took it.
#[verifier::external_body]
pub(crate) fn write_access<'a>(lock: &'a RwLock<ActiveBinding>) -> (access: Option<
    RwLockWriteGuard<'a, ActiveBinding>,
>) {
    match lock.write() {
        Ok(guard) => Some(guard),
        Err(_) => None,
    }
}

/// Calls `RwLock::read`, which waits until no writer's guard is out. `None`
/// stands for a poisoned lock. Nothing is claimed of which of the two comes
/// back. The call must not come from a thread that holds a guard of the same
/// lock; the bridge never keeps a guard beyond the function that took it.
#[verifier::external_body]
pub(crate) fn read_access<'a>(lock: &'a RwLock<ActiveBinding>) -> (access: Option<
    RwLockReadGuard<'a, ActiveBinding>,
>) {
    match lock.read() {
        Ok(guard) => Some(guard),
        Err(_) => None,
    }
}

/// Calls `Deref::deref` on a read guard: the slot, for reading. Nothing is
/// claimed of what it holds.
#[verifier::external_body]
pub(crate) fn held<'a, 'b>(guard: &'a RwLockReadGuard<'b, ActiveBinding>) -> (slot:
    &'a ActiveBinding) {
    &**guard
}

/// Calls `DerefMut::deref_mut` on a write guard: the slot, for writing.
/// Nothing is claimed of what it holds.
#[verifier::external_body]
pub(crate) fn held_mut<'a, 'b>(guard: &'a mut RwLockWriteGuard<'b, ActiveBinding>) -> (slot:
    &'a mut ActiveBinding) {
    &mut **guard
}

} // verus!
