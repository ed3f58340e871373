use vstd::prelude::*;
use std::marker::PhantomData;

verus! {

/// A signal that can be connected to one single handler.
///
/// `Arg` is the argument handed to the handler; it is usually a tuple.
pub struct Signal<Arg, H> {
    handler: Option<H>,
    marker: PhantomData<Arg>,
}

impl<Arg, H: Fn(Arg)> Signal<Arg, H> {
    /// The handler currently connected, if any.
    pub closed spec fn handler(&self) -> Option<H> {
        self.handler
    }

    /// A signal with no handler.
    pub fn new() -> (r: Self)
        ensures
            r.handler() is None,
    {
        Signal { handler: None, marker: PhantomData }
    }

    /// Emit the signal with the given argument: the handler, if one is set, is called once.
    pub fn emit(&self, a: Arg)
        requires
            self.handler() matches Some(h) ==> h.requires((a,)),
        ensures
            self.handler() matches Some(h) ==> h.ensures((a,), ()),
    {
        if let Some(h) = &self.handler {
            h(a);
        }
    }

    /// Set the handler to be called when the signal is emitted, replacing any previous one.
    pub fn set_handler(&mut self, f: H)
        ensures
            final(self).handler() == Some(f),
    {
        self.handler = Some(f);
    }
}

impl<Arg, H: Fn(Arg)> Default for Signal<Arg, H> {
    fn default() -> (r: Self)
        ensures
            r.handler() is None,
    {
        Self::new()
    }
}

} // verus!
