//! The reader-writer lock of the standard library, and what is taken on
//! trust about it.
//!
//! Nothing is claimed of what a lock holds: another thread may have changed
//! it between any two calls. What verified code learns of a guarded value it
//! learns from the value's own type. Only what a lock was made with has a
//! name, for that never changes.

use crate::id::SpanId;
use crate::record::SpanRecord;
use crate::snapshot::SpanSnapshot;
use std::ops::Deref;
use std::ops::DerefMut;
use std::sync::Arc;
use std::sync::RwLock;
use std::sync::RwLockReadGuard;
use std::sync::RwLockWriteGuard;
use vstd::prelude::*;

verus! {

/// `std::sync::RwLock`.
#[verifier::external_type_specification]
#[verifier::external_body]
#[verifier::reject_recursive_types(T)]
pub struct ExRwLock<T: ?Sized>(RwLock<T>);

/// `std::sync::RwLockReadGuard`: shared access, given back when the guard is
/// dropped.
#[verifier::external_type_specification]
#[verifier::external_body]
#[verifier::reject_recursive_types(T)]
pub struct ExRwLockReadGuard<'a, T: ?Sized>(RwLockReadGuard<'a, T>);

/// `std::sync::RwLockWriteGuard`: exclusive access, given back when the guard
/// is dropped.
#[verifier::external_type_specification]
#[verifier::external_body]
#[verifier::reject_recursive_types(T)]
pub struct ExRwLockWriteGuard<'a, T: ?Sized + 'a>(RwLockWriteGuard<'a, T>);

/// The set of open spans that a lock was made around: the view of the value
/// that was handed to `std::sync::RwLock::new` when the lock was made. It
/// says nothing of what the lock holds later.
pub uninterp spec fn made_with(lock: RwLock<SpanSnapshot>) -> Map<SpanId, SpanRecord>;

/// `std::sync::RwLock::new` makes an unlocked lock that guards `value`: the
/// lock was made with `value`, and nothing else is claimed of it.
#[verifier::external_body]
pub(crate) fn lock_around(value: SpanSnapshot) -> (lock: RwLock<SpanSnapshot>)
    ensures
        made_with(lock) == value@,
{
    RwLock::new(value)
}

/// `Arc::clone` makes another pointer to the same allocation: what the two
/// point to is one and the same value.
#[verifier::external_body]
pub(crate) fn shared<T>(pointer: &Arc<T>) -> (other: Arc<T>)
    ensures
        other == *pointer,
{
    Arc::clone(pointer)
}

/// `std::sync::RwLock::read` waits until no writer holds the lock and gives
/// shared access. Nothing is claimed of the result.
///
/// The call fails on a poisoned lock, and this function then panics: a lock
/// is poisoned when a writer unwound while holding it, and what it guards may
/// be half written. The call may also panic or wait for ever where the
/// calling thread holds the lock already: a caller takes the lock once and
/// gives it back before it asks again.
#[verifier::external_body]
pub(crate) fn read_access<'a, T>(lock: &'a RwLock<T>) -> (guard: RwLockReadGuard<'a, T>) {
    lock.read().unwrap()
}

/// `std::sync::RwLock::write` waits until nobody else holds the lock and
/// gives exclusive access. Nothing is claimed of the result.
///
/// The call fails on a poisoned lock, and this function then panics; and
/// the calling thread must not hold the lock already. Both are as for
/// `read_access`.
#[verifier::external_body]
pub(crate) fn write_access<'a, T>(lock: &'a RwLock<T>) -> (guard: RwLockWriteGuard<'a, T>) {
    lock.write().unwrap()
}

/// `Deref::deref` of a read guard: a reference to the guarded value, good for
/// as long as the guard is borrowed. Nothing is claimed of the value.
#[verifier::external_body]
pub(crate) fn guarded<'a, 'b, T>(guard: &'a RwLockReadGuard<'b, T>) -> (value: &'a T) {
    guard.deref()
}

/// `DerefMut::deref_mut` of a write guard: a mutable reference to the guarded
/// value, good for as long as the guard is borrowed. Nothing is claimed of the
/// value.
#[verifier::external_body]
pub(crate) fn guarded_mut<'a, 'b, T>(guard: &'a mut RwLockWriteGuard<'b, T>) -> (value:
    &'a mut T) {
    guard.deref_mut()
}

} // verus!
