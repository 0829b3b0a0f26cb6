//! A unit of work that the worker pool runs once.
use vstd::prelude::*;

verus! {

/// Work handed to the worker pool: boxed, run once.
pub trait FnBox {
    /// Whether the work may run now.
    spec fn ready(&self) -> bool;

    /// Runs the work.
    fn call_box(self: Box<Self>)
        requires
            self.ready(),
    ;
}

impl<F: FnOnce()> FnBox for F {
    open spec fn ready(&self) -> bool {
        call_requires(*self, ())
    }

    /// Runs the closure: it ends as the closure's own contract says.
    fn call_box(self: Box<F>)
        ensures
            call_ensures(*self, (), ()),
    {
        (*self)()
    }
}

}
