use core::ops::DerefMut;
use vstd::prelude::*;

verus! {

/// `spin::mutex::Mutex`, the guard around the bus. Nothing inside it is
/// visible to the proofs.
#[verifier::external_type_specification]
#[verifier::external_body]
#[verifier::reject_recursive_types(T)]
#[verifier::reject_recursive_types(R)]
pub struct ExMutex<T: ?Sized, R>(spin::mutex::Mutex<T, R>);

/// `spin::mutex::MutexGuard`, what holding the guard hands out. The guard is
/// free again when this value is dropped.
#[verifier::external_type_specification]
#[verifier::external_body]
#[verifier::reject_recursive_types(T)]
pub struct ExMutexGuard<'a, T: 'a + ?Sized>(spin::mutex::MutexGuard<'a, T>);

/// `spin::relax::Spin`, the waiting strategy in the type of the guard. The
/// driver never waits.
#[verifier::external_type_specification]
#[verifier::external_body]
pub struct ExSpin(spin::relax::Spin);

/// `spin::Mutex::new`: a guard that nobody holds, around `value`.
#[verifier::external_body]
pub(crate) fn new_lock<T>(value: T) -> (shared: spin::Mutex<T>) {
    spin::Mutex::new(value)
}

/// `spin::Mutex::try_lock`: takes the guard if nobody holds it and returns at
/// once in either case. Whether the guard is free depends on what else is
/// running, so nothing is claimed of the result.
#[verifier::external_body]
pub(crate) fn try_lock<'a, T>(shared: &'a spin::Mutex<T>) -> (held: Option<
    spin::MutexGuard<'a, T>,
>) {
    shared.try_lock()
}

/// `DerefMut::deref_mut` of `spin::MutexGuard`: the guarded value, for as long
/// as the guard is borrowed. Nothing is claimed of the value.
#[verifier::external_body]
pub(crate) fn guarded<'g, 'a, T>(held: &'g mut spin::MutexGuard<'a, T>) -> (value: &'g mut T) {
    held.deref_mut()
}

} // verus!
