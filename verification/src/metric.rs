//! The unit of output: how many requests ended with one HTTP status.

use vstd::prelude::*;

verus! {

/// The number of requests that were answered with `status` in the queried
/// window.
#[derive(Debug, Clone, Copy, PartialEq, Eq)]
pub struct CfStatusMetric {
    pub status: u16,
    pub count: u64,
}

} // verus!
