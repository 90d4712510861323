//! The slot that holds the registered observer, and dispatch to it.

use vstd::prelude::*;
use crate::hook::IOHook;

verus! {

/// Storage for at most one registered hook.
///
/// A process keeps one slot for all its sockets. Exclusive access to the slot
/// is what serialises notifications: no two of them run inside the hook at
/// the same time. Where the hook is a handle that can be copied, so can the
/// slot: each thread then dispatches on a copy of its own, and the handle
/// serialises.
#[derive(Clone, Copy)]
pub struct HookSlot<H: IOHook> {
    hook: Option<H>,
}

impl<H: IOHook> View for HookSlot<H> {
    type V = Option<H>;

    /// The registered hook, if there is one.
    closed spec fn view(&self) -> Option<H> {
        self.hook
    }
}

/// The slot after `io_hook` is registered: it holds `io_hook`, whatever it
/// held before.
pub open spec fn registered<H: IOHook>(before: Option<H>, io_hook: H) -> Option<H> {
    Some(io_hook)
}

/// The slot after each of `hooks` is registered in turn, first to last.
pub open spec fn registered_all<H: IOHook>(before: Option<H>, hooks: Seq<H>) -> Option<H>
    decreases hooks.len(),
{
    if hooks.len() == 0 {
        before
    } else {
        registered(registered_all(before, hooks.drop_last()), hooks.last())
    }
}

/// What a read of `len` bytes does to a slot: nothing to an empty one, one
/// read notification to the hook of an occupied one.
pub open spec fn read_dispatched<H: IOHook>(before: Option<H>, len: usize, after: Option<H>) -> bool {
    match before {
        None => after is None,
        Some(h) => after is Some && h.read_step(len, &after->Some_0),
    }
}

/// What a write of `len` bytes does to a slot: nothing to an empty one, one
/// write notification to the hook of an occupied one.
pub open spec fn write_dispatched<H: IOHook>(before: Option<H>, len: usize, after: Option<H>) -> bool {
    match before {
        None => after is None,
        Some(h) => after is Some && h.write_step(len, &after->Some_0),
    }
}

impl<H: IOHook> HookSlot<H> {
    /// A slot with no hook registered.
    pub fn new() -> (slot: Self)
        ensures
            slot@ is None,
    {
        HookSlot { hook: None }
    }

    /// Whether a hook is registered.
    pub fn is_registered(&self) -> (registered: bool)
        ensures
            registered == (self@ is Some),
    {
        self.hook.is_some()
    }

    /// The registered hook, to inspect what it has observed.
    pub fn hook(&self) -> (hook: Option<&H>)
        ensures
            match hook {
                Some(h) => self@ == Some(*h),
                None => self@ is None,
            },
    {
        self.hook.as_ref()
    }
}

/// Registers `io_hook` as the observer of all transfers. A hook registered
/// before is replaced and receives nothing from then on.
pub fn init_io_hook<H: IOHook>(slot: &mut HookSlot<H>, io_hook: H)
    ensures
        final(slot)@ == registered(old(slot)@, io_hook),
{
    slot.hook = Some(io_hook);
}

/// Reports a completed read of `len` bytes to the registered hook.
pub fn read_hook<H: IOHook>(slot: &mut HookSlot<H>, len: usize)
    ensures
        read_dispatched(old(slot)@, len, final(slot)@),
        final(slot)@ is Some <==> old(slot)@ is Some,
{
    match &mut slot.hook {
        Some(hook) => {
            hook.read_hook(len);
        },
        None => {},
    }
}

/// Reports a completed write of `len` bytes to the registered hook.
pub fn write_hook<H: IOHook>(slot: &mut HookSlot<H>, len: usize)
    ensures
        write_dispatched(old(slot)@, len, final(slot)@),
        final(slot)@ is Some <==> old(slot)@ is Some,
{
    match &mut slot.hook {
        Some(hook) => {
            hook.write_hook(len);
        },
        None => {},
    }
}

/// Last registration wins: after any run of registrations the slot holds the
/// hook registered last, and a transfer dispatched then is one notification
/// to that hook. No hook registered earlier takes part.
pub proof fn lemma_last_registration_wins<H: IOHook>(
    before: Option<H>,
    hooks: Seq<H>,
    len: usize,
    after: Option<H>,
)
    requires
        hooks.len() > 0,
    ensures
        registered_all(before, hooks) == Some(hooks.last()),
        read_dispatched(registered_all(before, hooks), len, after) <==> (after is Some
            && hooks.last().read_step(len, &after->Some_0)),
        write_dispatched(registered_all(before, hooks), len, after) <==> (after is Some
            && hooks.last().write_step(len, &after->Some_0)),
{
}

/// With no registration the slot stays as it was, and a transfer dispatched
/// to an empty slot leaves it empty.
pub proof fn lemma_unregistered_dispatch_is_noop<H: IOHook>(len: usize, after: Option<H>)
    ensures
        registered_all(None::<H>, Seq::<H>::empty()) is None,
        read_dispatched(None::<H>, len, after) <==> after is None,
        write_dispatched(None::<H>, len, after) <==> after is None,
{
}

} // verus!
