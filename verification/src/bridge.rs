//! The lock-guarded callback bridge.
//!
//! [`CallbackBridge`] wraps the registration slot in a readers-writer
//! lock: registration and clearing take the writer side, dispatch takes
//! the reader side, so many native threads may dispatch concurrently
//! while no dispatch can observe a partially-updated slot.  The lock's
//! predicate is the slot invariant itself — every value the lock ever
//! holds satisfies [`CallbackSlot::wf`], so at no instant does the
//! installed raw-callback mirror disagree with slot emptiness, no
//! matter how registration, clearing and dispatch interleave.

use vstd::prelude::*;
use vstd::rwlock::RwLock;

use crate::callback::CallbackOwner;
use crate::callback::CallbackSlot;
use crate::callback::LogCallback;

verus! {

/// A registration slot behind a readers-writer lock whose invariant is
/// [`CallbackSlot::wf`].
#[verifier::reject_recursive_types(C)]
pub struct CallbackBridge<C> {
    lock: RwLock<CallbackSlot<C>, spec_fn(CallbackSlot<C>) -> bool>,
}

impl<C> CallbackBridge<C> {
    /// Every bridge's lock admits exactly the well-formed slot states;
    /// the constructor establishes this and nothing can unmake it, so
    /// the bridge's operations carry no precondition.
    #[verifier::type_invariant]
    spec fn wf(self) -> bool {
        self.lock.pred() == (|s: CallbackSlot<C>| s.wf())
    }

    /// A bridge whose slot starts empty, with the native default
    /// formatter active.
    pub fn new() -> (bridge: CallbackBridge<C>)
    {
        let slot = CallbackSlot::<C>::empty();
        CallbackBridge { lock: RwLock::new(slot, Ghost(|s: CallbackSlot<C>| s.wf())) }
    }

    /// Registers `callback` as the sole receiver of future log events,
    /// atomically replacing any capability registered before: under the
    /// writer lock there is no window in which two capabilities are
    /// both active.  Safe to call from any thread.
    pub fn register(&self, callback: C) -> (owner: CallbackOwner) {
        proof {
            use_type_invariant(self);
        }
        let (mut slot, handle) = self.lock.acquire_write();
        let owner = crate::callback::set_callback(&mut slot, callback);
        handle.release_write(slot);
        owner
    }

    /// Clears the registration and restores the native default
    /// formatter.  Idempotent, and safe to call from any thread.
    pub fn clear(&self) {
        proof {
            use_type_invariant(self);
        }
        let (mut slot, handle) = self.lock.acquire_write();
        crate::callback::clear_context(&mut slot);
        handle.release_write(slot);
    }

    /// Dispatches one decoded native log event under the reader lock.
    /// The read lock is held for the duration of the capability's `log`
    /// call, so the capability cannot be dropped mid-call.  Returns
    /// whether a capability was invoked.
    pub fn dispatch<Ctx, Args>(&self, context: Ctx, level: i32, fmt: &str, args: Args) -> (invoked:
        bool)
        where C: LogCallback<Ctx, Args>
    {
        proof {
            use_type_invariant(self);
        }
        let read_handle = self.lock.acquire_read();
        let invoked = crate::callback::dispatch(read_handle.borrow(), context, level, fmt, args);
        read_handle.release_read();
        invoked
    }
}

} // verus!
