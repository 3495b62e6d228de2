//! Adapter that lets a blocking delay stand where an asynchronous delay is
//! asked for.

use vstd::prelude::*;

verus! {

/// Wrapper of a blocking delay provider.
pub struct WithDelayNs<T> {
    wrapped: T,
}

impl<T> WithDelayNs<T> {
    /// The delay provider inside the wrapper.
    pub closed spec fn wrapped(&self) -> T {
        self.wrapped
    }

    /// Wraps a delay provider.
    pub fn new(wrapped: T) -> (adapter: Self)
        ensures
            adapter.wrapped() == wrapped,
    {
        Self { wrapped }
    }

    /// Gives the delay provider back.
    pub fn into_inner(self) -> (wrapped: T)
        ensures
            wrapped == self.wrapped(),
    {
        self.wrapped
    }

    /// Access to the delay provider, to run a blocking delay on it.
    pub fn get_mut(&mut self) -> (wrapped: &mut T)
        ensures
            *wrapped == old(self).wrapped(),
            final(self).wrapped() == *final(wrapped),
    {
        &mut self.wrapped
    }
}

} // verus!
