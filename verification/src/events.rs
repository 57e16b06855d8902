//! Handlers for routed click events.

use vstd::prelude::*;

verus! {

/// Handler for a button's routed `Click` event: implementors receive one
/// notification per fired click.
pub trait ClickHandler: Send + 'static {
    /// Whether a click may be delivered to this handler now; any time,
    /// unless the implementor says otherwise.
    open spec fn accepts_click(&self) -> bool {
        true
    }

    fn on_click(&mut self)
        requires
            old(self).accepts_click(),
    ;
}

impl<F: FnMut() + Send + 'static> ClickHandler for F {
    open spec fn accepts_click(&self) -> bool {
        call_requires(*self, ())
    }

    /// Calls the closure once.
    fn on_click(&mut self)
        ensures
            call_ensures(*old(self), (), ()),
    {
        self();
    }
}

/// A closure takes a click whenever it may be called with no arguments.
pub proof fn lemma_closure_accepts_click<F: FnMut() + Send + 'static>(f: F)
    ensures
        call_requires(f, ()) ==> f.accepts_click(),
{
}

} // verus!
