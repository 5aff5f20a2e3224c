use vstd::prelude::*;

verus! {

/// The entry point for chat use cases.
///
/// Each use case is split in two verified steps around the store call: a
/// request step that validates the command and builds what the store is given,
/// and an outcome step that checks what the store answered and builds the
/// result with its events.
#[derive(Clone, Debug)]
pub struct Chat<S> {
    store: S,
}

impl<S> Chat<S> {
    /// Creates a chat application backed by `store`.
    pub fn new(store: S) -> (r: Self)
        ensures
            r.store_view() == store,
    {
        Chat { store }
    }

    /// The store this application is backed by.
    pub closed spec fn store_view(&self) -> S {
        self.store
    }

    /// Returns the store the use cases run against.
    pub fn store(&self) -> (r: &S)
        ensures
            *r == self.store_view(),
    {
        &self.store
    }
}

} // verus!
