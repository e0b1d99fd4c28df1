//! Process-wide lifecycle of the browser runtime: reference counted, with
//! explicit initialisation and shutdown transitions.
use vstd::prelude::*;

verus! {

/// How many users hold the browser runtime, and whether it is initialised.
#[derive(Debug)]
pub struct RuntimeLifecycle {
    ref_count: usize,
    initialized: bool,
}

/// Why a user could not acquire the runtime.
#[derive(Clone, Copy, Debug, PartialEq, Eq, Structural)]
pub enum LifecycleError {
    InitializationFailed,
}

pub struct LifecycleView {
    pub ref_count: nat,
    pub initialized: bool,
}

impl View for RuntimeLifecycle {
    type V = LifecycleView;

    closed spec fn view(&self) -> LifecycleView {
        LifecycleView { ref_count: self.ref_count as nat, initialized: self.initialized }
    }
}

impl RuntimeLifecycle {
    pub fn new() -> (r: RuntimeLifecycle)
        ensures
            r@ == (LifecycleView { ref_count: 0, initialized: false }),
    {
        RuntimeLifecycle { ref_count: 0, initialized: false }
    }

    /// Whether the next `retain` must first initialise the runtime: only
    /// the first user does.
    pub fn needs_initialize(&self) -> (r: bool)
        ensures
            r == (self@.ref_count == 0),
    {
        self.ref_count == 0
    }

    /// Adds a user. `initialized_now` is the outcome of the initialisation
    /// that `needs_initialize` asked for (ignored otherwise); when it
    /// failed, nothing changes and the error is returned.
    pub fn retain(&mut self, initialized_now: bool) -> (r: Result<(), LifecycleError>)
        requires
            old(self)@.ref_count < usize::MAX,
        ensures
            old(self)@.ref_count == 0 && !initialized_now ==> r == Err::<(), LifecycleError>(
                LifecycleError::InitializationFailed,
            ) && final(self)@ == old(self)@,
            old(self)@.ref_count == 0 && initialized_now ==> r is Ok && final(self)@ == (
            LifecycleView { ref_count: 1, initialized: true }),
            old(self)@.ref_count > 0 ==> r is Ok && final(self)@ == (LifecycleView {
                ref_count: old(self)@.ref_count + 1,
                initialized: old(self)@.initialized,
            }),
    {
        if self.ref_count == 0 {
            if !initialized_now {
                return Err(LifecycleError::InitializationFailed);
            }
            self.initialized = true;
        }
        self.ref_count = self.ref_count + 1;
        Ok(())
    }

    /// Drops a user. Returns whether the runtime must now be shut down:
    /// when the last user leaves an initialised runtime. Releasing with no
    /// user changes nothing.
    pub fn release(&mut self) -> (shutdown: bool)
        ensures
            old(self)@.ref_count == 0 ==> !shutdown && final(self)@ == old(self)@,
            old(self)@.ref_count > 0 ==> final(self)@.ref_count == old(self)@.ref_count - 1,
            old(self)@.ref_count > 0 ==> shutdown == (old(self)@.ref_count == 1
                && old(self)@.initialized),
            old(self)@.ref_count > 0 ==> final(self)@.initialized == (old(self)@.initialized
                && !shutdown),
    {
        if self.ref_count == 0 {
            return false;
        }
        self.ref_count = self.ref_count - 1;
        if self.ref_count == 0 && self.initialized {
            self.initialized = false;
            true
        } else {
            false
        }
    }

    pub fn ref_count(&self) -> (r: usize)
        ensures
            r == self@.ref_count,
    {
        self.ref_count
    }

    pub fn is_initialized(&self) -> (r: bool)
        ensures
            r == self@.initialized,
    {
        self.initialized
    }
}

} // verus!
