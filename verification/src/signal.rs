//! The interrupt flag: the loop's view of the user's request to stop.
//!
//! The real process-wide flag is an atomic boolean that a signal handler
//! sets; the handler and its registration live outside the library. This
//! module models the flag's behaviour — it starts clear and, once set, is
//! never cleared again — and offers the fallback registration used on hosts
//! without a signal facility.

use vstd::prelude::*;

verus! {

/// The user's request to stop the watch loop. It starts clear; `signal_interrupt`
/// is the only way to change it, and there is no way to clear it again, so the
/// flag moves monotonically from clear to set, as a signal-delivered flag does.
pub struct InterruptFlag {
    requested: bool,
}

impl InterruptFlag {
    /// Whether the interrupt has been requested.
    pub closed spec fn is_set_spec(&self) -> bool {
        self.requested
    }

    /// A fresh, clear flag.
    pub fn new() -> (r: InterruptFlag)
        ensures
            !r.is_set_spec(),
    {
        InterruptFlag { requested: false }
    }

    /// Record the interrupt request. Setting an already-set flag is harmless.
    pub fn signal_interrupt(&mut self)
        ensures
            final(self).is_set_spec(),
    {
        self.requested = true;
    }

    /// Read the flag without changing it.
    pub fn is_set(&self) -> (r: bool)
        ensures
            r == self.is_set_spec(),
    {
        self.requested
    }
}

/// Fallback signal registration for hosts without an interrupt-signal
/// facility: it arranges nothing, leaves the flag exactly as it was, and the
/// loop can then only be stopped by outside process termination.
#[allow(unused_variables)]
pub fn register(signal_number: i32, flag: &mut InterruptFlag)
    ensures
        *final(flag) == *old(flag),
{
}

} // verus!
