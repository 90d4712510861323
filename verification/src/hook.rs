//! The capability an observer of socket traffic provides.

use vstd::prelude::*;

verus! {

/// An observer of completed transfers.
///
/// Each implementation says, through `read_step` and `write_step`, what one
/// notification may do to it; the two methods are held to that. A hook that
/// does not say allows any effect: both relations then hold of every pair of
/// states.
pub trait IOHook {
    /// Whether one notification of a read of `len` bytes can take `self` to `next`.
    open spec fn read_step(&self, len: usize, next: &Self) -> bool {
        true
    }

    /// Whether one notification of a write of `len` bytes can take `self` to `next`.
    open spec fn write_step(&self, len: usize, next: &Self) -> bool {
        true
    }

    /// Called after `len` bytes were read from a socket. `len` may be zero.
    fn read_hook(&mut self, len: usize)
        ensures
            old(self).read_step(len, final(self)),
    ;

    /// Called after `len` bytes were written to a socket. `len` may be zero.
    fn write_hook(&mut self, len: usize)
        ensures
            old(self).write_step(len, final(self)),
    ;
}

} // verus!
