//! The shutdown signal, carried as an explicit value rather than as
//! process-wide state.  Broadcasting the change to waiting tasks is the
//! embedding program's business; the signal itself is just this flag.

use vstd::prelude::*;

verus! {

/// Whether the program is shutting down.
#[derive(Clone, Copy, Debug, PartialEq, Eq, Structural)]
pub struct ShutdownSignal {
    pub shutting_down: bool,
}

impl ShutdownSignal {
    /// A fresh signal: not shutting down.
    pub fn new() -> (r: ShutdownSignal)
        ensures
            !r.shutting_down,
    {
        ShutdownSignal { shutting_down: false }
    }
}

/// Sends the signal to shut the program down.
pub fn shutdown(signal: &mut ShutdownSignal)
    ensures
        final(signal).shutting_down,
{
    signal.shutting_down = true;
}

/// Resets the signal so it can be triggered again; useful for tests.
pub fn reset_shutdown(signal: &mut ShutdownSignal)
    ensures
        !final(signal).shutting_down,
{
    signal.shutting_down = false;
}

/// Whether we are currently shutting down.
pub fn is_shutting_down(signal: &ShutdownSignal) -> (r: bool)
    ensures
        r == signal.shutting_down,
{
    signal.shutting_down
}

} // verus!
