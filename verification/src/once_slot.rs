//! A shared slot that is initialized at most once.
//!
//! The slot backs the process-wide disposal channel: arbitrarily many threads
//! may race to create the channel, and exactly one of them must win while the
//! rest wait for the winner and then share its result.

use vstd::prelude::*;

verus! {

/// Declares `once_cell::sync::OnceCell`, the synchronization primitive that
/// carries the slot's storage: a cell holding at most one `T`, written at most
/// once, readable concurrently afterwards.
#[verifier::external_type_specification]
#[verifier::external_body]
#[verifier::reject_recursive_types(T)]
pub struct ExOnceCell<T>(once_cell::sync::OnceCell<T>);

/// Relies on `once_cell::sync::OnceCell::new`: creates an empty cell.
pub assume_specification<T>[ once_cell::sync::OnceCell::<T>::new ]() -> once_cell::sync::OnceCell<
    T,
>;

/// Relies on `once_cell::sync::OnceCell::get_or_init`: returns a reference to
/// the cell's content, running `f` to create it only if the cell is empty.
/// When many threads call it concurrently, exactly one of their initializers
/// runs; the others block until it finishes and then read the same stored
/// value, never a partially written one. If `f` panics, the panic propagates
/// and the cell stays empty. An `f` that reaches back into the same cell
/// deadlocks; keeping initializers free of such re-entry is the caller's
/// obligation and cannot be stated here.
pub assume_specification<T, F>[ once_cell::sync::OnceCell::<T>::get_or_init ](
    cell: &once_cell::sync::OnceCell<T>,
    f: F,
) -> &T where F: FnOnce() -> T
    requires
        f.requires(()),
;

/// A container for at most one `T`, guaranteeing that across arbitrarily many
/// concurrent first accesses exactly one initializer runs, and exposing the
/// resulting value for shared read access afterwards. The stored value, if
/// one was ever created, is destructed together with the slot; a slot that
/// was never initialized destructs nothing.
#[verifier::reject_recursive_types(T)]
pub struct OnceSlot<T> {
    cell: once_cell::sync::OnceCell<T>,
}

impl<T> OnceSlot<T> {
    /// An empty slot. No initializer has run and none runs until the first
    /// `get`.
    pub fn new() -> Self {
        OnceSlot { cell: once_cell::sync::OnceCell::new() }
    }

    /// The reference to the value in the slot, running `init` if the slot has
    /// not been initialized yet. As with the underlying cell, the initializer
    /// runs at most once over the slot's lifetime, however many threads call
    /// `get` at the same time; every caller gets the value the winning
    /// initializer stored. Which caller wins the race is decided by the
    /// scheduler, so no clause can tie the result to this call's `init`;
    /// what `get` returns is whatever the one completed initialization
    /// produced, shared by all callers.
    pub fn get<F: FnOnce() -> T>(&self, init: F) -> &T
        requires
            init.requires(()),
    {
        self.cell.get_or_init(init)
    }
}

} // verus!
