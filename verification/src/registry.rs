//! The process-wide "one runtime" flag, held as an explicit registry object.
//!
//! The engine is a true process-wide singleton, so at most one runtime may be
//! live per process. Rather than a bare global, the flag is an explicit
//! registry value with compare-and-set semantics: construction acquires it,
//! teardown releases it, and a second acquisition while it is held fails fast
//! instead of retrying.

use vstd::prelude::*;

use crate::errors::Error;

verus! {

/// Whether an acquisition of the registry succeeds: it does exactly when no
/// runtime is currently registered.
pub open spec fn acquire_succeeds(reg: RuntimeRegistry) -> bool {
    !reg.is_running()
}

/// The process-scoped record of whether a runtime is live.
pub struct RuntimeRegistry {
    running: bool,
}

impl RuntimeRegistry {
    /// Whether a runtime is currently registered as live.
    pub closed spec fn is_running(&self) -> bool {
        self.running
    }

    /// A fresh registry with no runtime registered.
    pub fn new() -> (r: Self)
        ensures
            !r.is_running(),
    {
        RuntimeRegistry { running: false }
    }

    /// Whether a runtime is currently registered as live.
    pub fn running(&self) -> (r: bool)
        ensures
            r == self.is_running(),
    {
        self.running
    }

    /// Claim the registry for a runtime under construction.
    ///
    /// Fails with `RuntimeAlreadyExists`, leaving the registry unchanged,
    /// exactly when a runtime is already registered.
    pub fn try_acquire(&mut self) -> (r: Result<(), Error>)
        ensures
            r is Ok <==> acquire_succeeds(*old(self)),
            r is Ok ==> final(self).is_running(),
            r is Err ==> r == Result::<(), Error>::Err(Error::RuntimeAlreadyExists)
                && *final(self) == *old(self),
    {
        if self.running {
            Err(Error::RuntimeAlreadyExists)
        } else {
            self.running = true;
            Ok(())
        }
    }

    /// Release the registry; after this a new runtime may be constructed.
    pub fn release(&mut self)
        ensures
            !final(self).is_running(),
    {
        self.running = false;
    }
}

/// One runtime per process: while a runtime is registered as live, an
/// acquisition attempt fails; once the registry has been released, an
/// acquisition attempt succeeds.
pub proof fn lemma_single_runtime(live: RuntimeRegistry, released: RuntimeRegistry)
    requires
        live.is_running(),
        !released.is_running(),
    ensures
        !acquire_succeeds(live),
        acquire_succeeds(released),
{
}

} // verus!
