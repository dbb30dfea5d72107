//! Crash handling: the engine's fatal-log callback hands a formatted
//! message to the process-wide crash handler.  A handler must do minimal
//! work: the engine is in an undefined state when it fires, so the process
//! should be assumed about to terminate.

use vstd::prelude::*;

verus! {

/// Handles engine crashes.  Implementations must do the least work
/// possible: no heavy allocation, and never a lock the engine might hold.
/// The platform layer keeps the process-wide handler slot and calls this
/// from the fatal-log callback with the already-formatted message.
pub trait ObsCrashHandler {
    /// Handles one crash message.
    fn handle_crash(&mut self, message: String);
}

/// A crash handler that keeps the reported messages; the platform layer
/// drains and prints them.
pub struct ConsoleCrashHandler {
    reported: Vec<String>,
}

impl ConsoleCrashHandler {
    /// The crash messages received so far.
    pub closed spec fn reported_view(self) -> Seq<String> {
        self.reported@
    }

    /// A handler with nothing reported.
    pub fn new() -> (r: ConsoleCrashHandler)
        ensures
            r.reported_view() == Seq::<String>::empty(),
    {
        let r = ConsoleCrashHandler { reported: Vec::new() };
        proof {
            assert(r.reported@ =~= Seq::<String>::empty());
        }
        r
    }

    /// How many crashes have been reported.
    pub fn reported_count(&self) -> (r: usize)
        ensures
            r == self.reported_view().len(),
    {
        self.reported.len()
    }

    /// Records one crash message; the contracted form of `handle_crash`.
    pub fn record_crash(&mut self, message: String)
        ensures
            final(self).reported_view() == old(self).reported_view().push(message),
    {
        self.reported.push(message);
    }
}

impl ObsCrashHandler for ConsoleCrashHandler {
    fn handle_crash(&mut self, message: String) {
        self.record_crash(message);
    }
}

} // verus!
