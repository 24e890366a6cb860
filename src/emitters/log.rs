//! The log emitter: its configuration, and the sink built from it.

use vstd::prelude::*;

verus! {

/// A sink that records each reading in the log.
#[derive(Copy, Clone, Debug, PartialEq, Eq, Structural)]
pub struct Log {}

/// The configuration of a log emitter: there is nothing to set.
#[derive(Copy, Clone, Debug, PartialEq, Eq, Structural)]
pub struct LogOptions {}

impl LogOptions {
    /// The sink this configuration describes.
    pub fn get_emitter(&self) -> (r: Log)
        ensures
            r == (Log {}),
    {
        Log {}
    }
}

} // verus!
