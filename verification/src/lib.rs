//! Deferred destruction of owned values.
//!
//! A value whose destruction is expensive can be put into a [`DeferDrop`]
//! wrapper tied to a [`GarbageCan`]. When the wrapper goes out of scope it
//! does not destruct the value on the current thread: it moves the value onto
//! the can's unbounded queue and returns at once, leaving the destruction to
//! the can's background worker. Unwrapping the wrapper instead hands the
//! value back to the caller and cancels the deferral, so exactly one of the
//! two paths ever consumes the value.
//!
//! Verus checks no destructor bodies and no process-wide `static` state, so
//! the can is an explicit value here: callers create one, usually a single
//! one per process kept in a [`once_slot::OnceSlot`], and pass it to
//! [`DeferDrop::new`].

mod garbage;
pub mod once_slot;

use crate::garbage::Chute;
pub use crate::garbage::GarbageCan;
pub use crate::once_slot::OnceSlot;
use vstd::prelude::*;

verus! {

/// A wrapper that owns one value until exactly one of two consumers takes it:
/// the caller, through [`DeferDrop::into_inner`], or the disposal worker of
/// the [`GarbageCan`] the wrapper was created with, when the wrapper goes out
/// of scope. The wrapper's view is the value it still holds, if any; every
/// wrapper a caller can reach holds one.
pub struct DeferDrop<T: Send + 'static> {
    inner: Option<T>,
    chute: Chute,
}

impl<T: Send + 'static> View for DeferDrop<T> {
    type V = Option<T>;

    closed spec fn view(&self) -> Option<T> {
        self.inner
    }
}

impl<T: Send + 'static> DeferDrop<T> {
    /// Wrap `value` for deferred destruction by `can`'s worker. Taking the
    /// producer handle aside, this has no side effect and never fails: the
    /// value is only stored, and nothing reaches the queue until the wrapper
    /// goes out of scope.
    pub fn new(value: T, can: &GarbageCan) -> (r: Self)
        ensures
            r@ == Some(value),
    {
        DeferDrop { inner: Some(value), chute: can.chute() }
    }

    /// Consume the wrapper and hand its value back to the caller. This is the
    /// cancellation path: ownership returns to the caller, the wrapper is
    /// left holding nothing, and its destruction becomes a no-op, so no
    /// background disposal ever happens for the value.
    pub fn into_inner(this: Self) -> (r: T)
        requires
            this@ is Some,
        ensures
            Some(r) == this@,
    {
        let mut hollowed = this;
        let value = hollowed.inner.take();
        value.unwrap()
    }

    /// Read access to the held value.
    pub fn as_ref(&self) -> (r: &T)
        requires
            self@ is Some,
        ensures
            self@ == Some(*r),
    {
        self.inner.as_ref().unwrap()
    }

    /// Mutate access to the held value, by replacement: `value` takes its
    /// place and the previously held value is returned to the caller, who now
    /// owns it. Verus cannot pass a mutable reference out of a function, so
    /// mutation is by exchange.
    pub fn replace(&mut self, value: T) -> (r: T)
        requires
            old(self)@ is Some,
        ensures
            Some(r) == old(self)@,
            final(self)@ == Some(value),
    {
        let previous = self.inner.take();
        self.inner = Some(value);
        previous.unwrap()
    }

    /// Move the held value, if one is left, onto the disposal queue. A value
    /// reaches the queue exactly when the wrapper still held one, and after
    /// the call the wrapper holds nothing: a second call, or the destructor
    /// running after an unwrap already emptied the wrapper, queues nothing,
    /// so no value can be destructed twice.
    fn flush(&mut self) -> (queued: bool)
        ensures
            queued == (old(self)@ is Some),
            final(self)@ is None,
    {
        let value = self.inner.take();
        match value {
            Some(value) => {
                self.chute.consign(value);
                true
            },
            None => false,
        }
    }
}

impl<T: Send + 'static> Drop for DeferDrop<T> {
    /// Verus checks no destructor body, so the destructor does exactly one
    /// thing: it calls the verified disposal path, which queues the held
    /// value, if the caller has not already taken it, and returns without
    /// waiting for the destruction to run.
    #[verifier::external_body]
    fn drop(&mut self)
        opens_invariants none
        no_unwind
    {
        let _ = self.flush();
    }
}

/// Law: wrapping a value and then unwrapping it is the identity. `w` stands
/// for what `new(v, can)` returned, `r` for what `into_inner(w)` returned;
/// the value the caller gets back is the value that was wrapped.
pub proof fn lemma_wrap_then_unwrap<T: Send + 'static>(v: T, w: DeferDrop<T>, r: T)
    requires
        w@ == Some(v),
        Some(r) == w@,
    ensures
        r == v,
{
}

} // verus!
