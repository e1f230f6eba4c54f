use vstd::prelude::*;

verus! {

/// Owns at most one backend process handle at a time.
pub struct ProcessManager<C> {
    child: Option<C>,
}

impl<C> ProcessManager<C> {
    /// The handle owned now, if any.
    pub closed spec fn owned(&self) -> Option<C> {
        self.child
    }

    /// A supervisor that owns no process.
    pub fn new() -> (r: ProcessManager<C>)
        ensures
            r.owned() is None,
    {
        ProcessManager { child: None }
    }

    /// Takes ownership of a freshly started process. A handle owned before is
    /// handed back untouched: it is not terminated.
    pub fn attach(&mut self, child: C) -> (prev: Option<C>)
        ensures
            final(self).owned() == Some(child),
            prev == old(self).owned(),
    {
        let prev = self.child.take();
        self.child = Some(child);
        prev
    }

    /// Hands out the owned handle for termination; afterwards nothing is
    /// owned, so a second call returns `None`.
    pub fn take_child(&mut self) -> (r: Option<C>)
        ensures
            r == old(self).owned(),
            final(self).owned() is None,
    {
        self.child.take()
    }

    /// Whether a process is owned.
    pub fn is_running(&self) -> (r: bool)
        ensures
            r == self.owned() is Some,
    {
        self.child.is_some()
    }
}

} // verus!
