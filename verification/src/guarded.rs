//! Notifying a hook that sits behind a lock.
//!
//! Taking the lock is the caller's part: it may wait, and only the caller
//! knows that it does not already hold the lock. What the outcome of the
//! attempt means for the notification is decided here.

use vstd::prelude::*;
use std::ops::DerefMut;
use std::sync::MutexGuard;
use std::sync::PoisonError;
use crate::hook::IOHook;

verus! {

/// `std::sync::MutexGuard`, opaque here: held by whoever has the lock, which
/// is released when the guard goes out of scope.
#[verifier::external_type_specification]
#[verifier::external_body]
#[verifier::reject_recursive_types(T)]
pub struct ExMutexGuard<'a, T: ?Sized + 'a>(MutexGuard<'a, T>);

/// `std::sync::PoisonError`, opaque here: what `Mutex::lock` returns in place
/// of the guard once a holder of the lock has panicked.
#[verifier::external_type_specification]
#[verifier::external_body]
#[verifier::reject_recursive_types(T)]
pub struct ExPoisonError<T>(PoisonError<T>);

/// `DerefMut::deref_mut` of a guard: the value that the lock protects.
/// Nothing is claimed of that value.
#[verifier::external_body]
fn protected<'a, 'b, T: ?Sized>(guard: &'a mut MutexGuard<'b, T>) -> (value: &'a mut T) {
    guard.deref_mut()
}

/// The hook that an attempt to take its lock gave out: the protected hook
/// where the lock was taken, none where the lock is poisoned.
pub fn held_of<'a, 'b, H: IOHook>(
    attempt: &'a mut Result<MutexGuard<'b, H>, PoisonError<MutexGuard<'b, H>>>,
) -> (held: Option<&'a mut H>)
    ensures
        held is Some <==> *old(attempt) is Ok,
{
    match attempt {
        Ok(guard) => Some(protected(guard)),
        Err(_) => None,
    }
}

/// Reports a read of `len` bytes to `held`, the hook that an attempt to take
/// its lock gave out: one read notification to that hook. Where the attempt
/// gave none, nothing is notified.
pub fn read_held<H: IOHook>(held: Option<&mut H>, len: usize)
    ensures
        held matches Some(hook) ==> hook.read_step(len, final(hook)),
{
    match held {
        Some(hook) => {
            hook.read_hook(len);
        },
        None => {},
    }
}

/// Reports a write of `len` bytes to `held`, the hook that an attempt to take
/// its lock gave out: one write notification to that hook. Where the attempt
/// gave none, nothing is notified.
pub fn write_held<H: IOHook>(held: Option<&mut H>, len: usize)
    ensures
        held matches Some(hook) ==> hook.write_step(len, final(hook)),
{
    match held {
        Some(hook) => {
            hook.write_hook(len);
        },
        None => {},
    }
}

} // verus!
