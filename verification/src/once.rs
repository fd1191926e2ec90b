//! One-time initialization: the first call of [`Once::call_once`] runs its
//! closure, every later call does nothing.
use vstd::prelude::*;

verus! {

/// A one-time initialization guard.
pub struct Once {
    initialized: bool,
}

impl Once {
    /// Whether the closure of a call has run to completion.
    pub closed spec fn done(&self) -> bool {
        self.initialized
    }

    /// A guard whose closure has not run yet.
    pub fn new() -> (r: Self)
        ensures
            !r.done(),
    {
        Once { initialized: false }
    }

    /// Runs `f` if no closure has run on this guard yet; afterwards the
    /// guard is initialized. A later call leaves `f` unrun.
    pub fn call_once<F: FnOnce()>(&mut self, f: F)
        requires
            !old(self).done() ==> call_requires(f, ()),
        ensures
            final(self).done(),
            !old(self).done() ==> call_ensures(f, (), ()),
    {
        if self.initialized {
            return;
        }
        f();
        self.initialized = true;
    }

    /// Whether the closure of a call has run to completion.
    pub fn is_initialized(&self) -> (r: bool)
        ensures
            r == self.done(),
    {
        self.initialized
    }
}

} // verus!
