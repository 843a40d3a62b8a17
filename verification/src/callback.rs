//! The callback bridge: the process-wide registration slot and the
//! dispatch of native log events to the registered capability.
//!
//! The native library supports exactly one active log callback at a
//! time, globally.  The bridge mediates that: a [`CallbackSlot`] holds
//! at most one capability together with a mirror of whether the
//! bridge's raw dispatcher is installed in the native library, and the
//! invariant [`CallbackSlot::wf`] ties the two together — the raw
//! dispatcher is installed exactly when a capability is registered.
//!
//! The slot works on plain values; the surrounding program owns the
//! actual global cell, performs the native "set log callback" call
//! whenever the `installed` mirror changes, and decodes each raw native
//! event into the context, level, format text and argument handles that
//! [`dispatch`] takes.

use vstd::prelude::*;

use crate::level::Level;

verus! {

/// A capability a host application implements to receive log events.
///
/// `Ctx` is the opaque per-event context handle and `Args` the opaque
/// variadic-argument handle; both are valid only for the duration of
/// one `log` call and must not be retained.  A `log` implementation
/// must not panic: it is reached from a native callback that may not
/// unwind, so it has to treat its own failures as not propagateable.
pub trait LogCallback<Ctx, Args>: Send + Sync {
    /// Receives one log event.
    fn log(&self, context: Ctx, level: Level, fmt: &str, args: Args);
}

/// The process-wide registration state: at most one capability, and a
/// mirror of whether the bridge's raw dispatcher is installed in the
/// native library.
pub struct CallbackSlot<C> {
    /// The registered capability, if any.
    pub active: Option<C>,
    /// Whether the native library's raw-callback pointer is the
    /// bridge's dispatcher (`true`) or the native default (`false`).
    pub installed: bool,
}

impl<C> CallbackSlot<C> {
    /// The slot invariant: the raw dispatcher is installed in the
    /// native library if and only if a capability is registered.
    pub open spec fn wf(self) -> bool {
        self.active is Some <==> self.installed
    }

    /// The state at process start: no capability, native default
    /// formatter active.
    pub fn empty() -> (s: CallbackSlot<C>)
        ensures
            s.active is None,
            !s.installed,
            s.wf(),
    {
        CallbackSlot { active: None, installed: false }
    }
}

/// The slot after a capability is registered.
pub open spec fn spec_set_context<C>(s: CallbackSlot<C>, callback: C) -> CallbackSlot<C> {
    CallbackSlot { active: Some(callback), installed: true }
}

/// The slot after the registration is cleared.
pub open spec fn spec_clear_context<C>(s: CallbackSlot<C>) -> CallbackSlot<C> {
    CallbackSlot { active: None, installed: false }
}

/// Registers `callback` as the sole receiver of future log events and
/// installs the bridge's raw dispatcher.  A capability that was already
/// registered is replaced outright — replacement is not an error, and
/// no state holds two capabilities at once.
pub fn set_context<C>(slot: &mut CallbackSlot<C>, callback: C)
    ensures
        *final(slot) == spec_set_context(*old(slot), callback),
        final(slot).active == Some(callback),
        final(slot).installed,
        final(slot).wf(),
{
    slot.active = Some(callback);
    slot.installed = true;
}

/// Clears the registration and restores the native default formatter.
/// Idempotent: clearing an already-empty slot is a no-op.
pub fn clear_context<C>(slot: &mut CallbackSlot<C>)
    ensures
        *final(slot) == spec_clear_context(*old(slot)),
        final(slot).active is None,
        !final(slot).installed,
        final(slot).wf(),
{
    slot.active = None;
    slot.installed = false;
}

/// A scoped token for an active registration.  Releasing it clears the
/// slot; release is explicit, so that the clearing carries a contract.
pub struct CallbackOwner {}

impl CallbackOwner {
    /// Releases the registration this token stands for, restoring the
    /// native default formatter.
    pub fn release<C>(self, slot: &mut CallbackSlot<C>)
        ensures
            *final(slot) == spec_clear_context(*old(slot)),
            final(slot).wf(),
    {
        clear_context(slot);
    }
}

/// Registers `callback` and hands back the token whose release undoes
/// the registration.
pub fn set_callback<C>(slot: &mut CallbackSlot<C>, callback: C) -> (owner: CallbackOwner)
    ensures
        *final(slot) == spec_set_context(*old(slot), callback),
        final(slot).wf(),
{
    set_context(slot, callback);
    CallbackOwner {  }
}

/// Dispatches one decoded native log event to the registered
/// capability, if any.  The native numeric level is decoded with the
/// fallback-safe conversion — an undefined level becomes `Info`, never
/// a failure, because a log event must not crash the host.  Returns
/// whether a capability was invoked: with an empty slot the event goes
/// nowhere.
pub fn dispatch<Ctx, Args, C: LogCallback<Ctx, Args>>(
    slot: &CallbackSlot<C>,
    context: Ctx,
    level: i32,
    fmt: &str,
    args: Args,
) -> (invoked: bool)
    ensures
        invoked == (slot.active is Some),
{
    match &slot.active {
        Some(callback) => {
            callback.log(context, Level::from_native_or_default(level), fmt, args);
            true
        },
        None => false,
    }
}

/// Law: registering capability `a` and then capability `b` leaves
/// exactly `b` active — the replacement is total, with no state in
/// which `a` could still be reached.
pub proof fn lemma_register_replaces<C>(s: CallbackSlot<C>, a: C, b: C)
    ensures
        spec_set_context(spec_set_context(s, a), b).active == Some(b),
        spec_set_context(spec_set_context(s, a), b) == spec_set_context(s, b),
{
}

/// Law: clearing restores "no custom callback" from any state, and is
/// idempotent.
pub proof fn lemma_clear_restores_default<C>(s: CallbackSlot<C>)
    ensures
        spec_clear_context(s).active is None,
        !spec_clear_context(s).installed,
        spec_clear_context(spec_clear_context(s)) == spec_clear_context(s),
{
}

/// Law: both registration operations leave the slot synchronized with
/// the native raw-callback pointer — the installed mirror never
/// disagrees with slot emptiness.
pub proof fn lemma_operations_preserve_sync<C>(s: CallbackSlot<C>, callback: C)
    ensures
        spec_set_context(s, callback).wf(),
        spec_clear_context(s).wf(),
{
}

} // verus!
