//! The stop hook that lets the API and the GUI interrupt a running vCPU.
//!
//! The boot registers a hook once the VM exists (see
//! [`crate::vmm::boot::BootAction::MapRam`]); a stop request calls it; the
//! hook is cleared when the vCPU has exited.
use vstd::prelude::*;

verus! {

/// Holds the stop hook of the running VM, if any.
pub struct StopControl<F> {
    hook: Option<F>,
}

impl<F: Fn()> StopControl<F> {
    /// The registered hook.
    pub closed spec fn spec_hook(&self) -> Option<F> {
        self.hook
    }

    /// No hook registered.
    pub fn new() -> (c: Self)
        ensures
            c.spec_hook() is None,
    {
        StopControl { hook: None }
    }

    /// Registers `hook` (or clears the hook, with `None`).
    pub fn set_stop_hook(&mut self, hook: Option<F>)
        ensures
            final(self).spec_hook() == hook,
    {
        self.hook = hook;
    }

    /// Asks the running vCPU to stop: calls the hook when one is registered (the call's
    /// postcondition then holds) and says whether one was. The hook stays registered.
    pub fn request_stop(&self) -> (stopped: bool)
        requires
            self.spec_hook() matches Some(h) ==> h.requires(()),
        ensures
            stopped == self.spec_hook() is Some,
            self.spec_hook() matches Some(h) ==> h.ensures((), ()),
    {
        match &self.hook {
            Some(h) => {
                h();
                true
            },
            None => false,
        }
    }
}

} // verus!
