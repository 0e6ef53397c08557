//! Versioning of the persisted application state, kept by the
//! persistence collaborator that consumes the engine's snapshots.

use vstd::prelude::*;

verus! {

/// Version information for state file compatibility.
#[derive(Debug, Clone, PartialEq, Eq, Structural)]
pub struct StateVersion {
    pub major: u32,
    pub minor: u32,
    pub patch: u32,
}

/// The major version that this build reads and writes.
pub const CURRENT_MAJOR: u32 = 1;

impl StateVersion {
    /// The version stamped on state files written by this build.
    pub fn current() -> (v: StateVersion)
        ensures
            v.major == CURRENT_MAJOR,
            v.minor == 0,
            v.patch == 0,
    {
        StateVersion { major: CURRENT_MAJOR, minor: 0, patch: 0 }
    }

    /// A state file is compatible exactly when its major version matches.
    pub fn is_compatible(&self) -> (r: bool)
        ensures
            r == (self.major == CURRENT_MAJOR),
    {
        self.major == CURRENT_MAJOR
    }
}

} // verus!
