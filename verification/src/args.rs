//! Command-line intent, as plain values.
//!
//! The binary front end parses the actual command line and hands the
//! result over in this record. Resolving the worker count from it is
//! the one piece of logic involved.

use vstd::prelude::*;

verus! {

/// What the user asked for on the command line.
#[derive(Debug, Clone)]
pub struct Args {
    /// Directory holding the files to optimize.
    pub directory: String,
    /// Optimization level override, a 0-6 ordinal.
    pub level: u8,
    /// Requested worker count, if any.
    pub threads: Option<usize>,
    /// Suppress the progress display.
    pub quiet: bool,
    /// Print a line for every file whose size changed.
    pub verbose: bool,
    /// Path of a configuration file to use instead of the default.
    pub config: Option<String>,
    /// Write an example configuration file and exit.
    pub init: bool,
}

/// The worker count a request resolves to: the requested count if one
/// was given, else the available hardware parallelism, with a minimum
/// of one worker either way.
pub open spec fn spec_worker_count(requested: Option<usize>, available: usize) -> usize {
    match requested {
        Some(n) => if n == 0 {
            1
        } else {
            n
        },
        None => if available == 0 {
            1
        } else {
            available
        },
    }
}

/// Resolve the worker count for the batch coordinator.
pub fn resolve_worker_count(requested: Option<usize>, available: usize) -> (r: usize)
    ensures
        r == spec_worker_count(requested, available),
        r >= 1,
{
    match requested {
        Some(n) => if n == 0 {
            1
        } else {
            n
        },
        None => if available == 0 {
            1
        } else {
            available
        },
    }
}

} // verus!
