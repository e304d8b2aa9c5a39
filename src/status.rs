//! Exit codes that the pipeline core produces.
use vstd::prelude::*;

verus! {

/// The job ran and reported success.
pub const SUCCESS: i32 = 0;

/// The job ran and reported a general failure.
pub const FAILURE: i32 = 1;

/// A process of the pipeline could not be spawned.
pub const NO_SUCH_COMMAND: i32 = 127;

/// A process of the pipeline was killed by a terminating signal.
pub const TERMINATED: i32 = 143;

} // verus!
