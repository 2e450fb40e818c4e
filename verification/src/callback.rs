//! A callback: a closure that takes nothing and hands nothing back, kept
//! together with the count of its invocations. Nothing but an invocation
//! moves the count.

use vstd::prelude::*;

verus! {

/// Something that can be called with nothing, again and again. Every
/// closure of that shape is one.
trait Closure {
    /// Whether it may be called.
    spec fn ready(&self) -> bool;

    /// Calls it once.
    fn call(&self)
        requires
            self.ready(),
    ;
}

impl<F: Fn()> Closure for F {
    spec fn ready(&self) -> bool {
        call_requires(*self, ())
    }

    fn call(&self) {
        self()
    }
}

/// A closure and the count of its invocations.
pub struct Callback {
    closure: Box<dyn Closure>,
    invoked: Ghost<nat>,
}

impl Callback {
    #[verifier::type_invariant]
    spec fn well_formed(self) -> bool {
        self.closure.ready()
    }

    /// How many times the closure has been invoked.
    pub closed spec fn invocations(&self) -> nat {
        self.invoked@
    }

    /// A callback that invokes `closure`, and has not done so yet.
    pub fn new<F: Fn() + 'static>(closure: F) -> (callback: Callback)
        requires
            call_requires(closure, ()),
        ensures
            callback.invocations() == 0,
    {
        let closure: Box<dyn Closure> = Box::new(closure);
        Callback { closure, invoked: Ghost(0) }
    }

    /// Invokes the closure once. It has returned when this returns.
    pub fn invoke(&mut self)
        ensures
            final(self).invocations() == old(self).invocations() + 1,
    {
        proof {
            use_type_invariant(&*self);
        }
        self.closure.call();
        self.invoked = Ghost(self.invoked@ + 1);
    }
}

} // verus!
