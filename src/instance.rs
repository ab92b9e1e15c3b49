//! Decisions of the single-instance coordinator. Binding, accepting and
//! connecting are done by the caller; this module says what follows. A
//! primary instance treats every accepted connection as a show request.
use vstd::prelude::*;

verus! {

/// The byte a second launch sends to the running instance: "show yourself".
pub const ACTIVATE_SIGNAL: u8 = 49;

/// What a launch does once it has tried to bind the shared endpoint.
#[derive(Debug, Clone, Copy, PartialEq, Eq, Structural)]
pub enum Startup {
    /// The endpoint is ours: run the launcher and keep listening.
    Serve,
    /// Another instance holds it: send it this byte and exit.
    SignalAndExit(u8),
}

/// The endpoint bound: this is the primary instance. Otherwise a primary
/// already runs, and this launch only signals it.
pub fn on_bind(bound: bool) -> (r: Startup)
    ensures
        bound ==> r == Startup::Serve,
        !bound ==> r == Startup::SignalAndExit(ACTIVATE_SIGNAL),
{
    if bound {
        Startup::Serve
    } else {
        Startup::SignalAndExit(ACTIVATE_SIGNAL)
    }
}

} // verus!
