//! Configuration values that are kept on chain.

use vstd::prelude::*;

verus! {

/// The version of the system, of which only the major number is kept.
#[derive(Clone, Copy, Debug, PartialEq, Eq, Structural, Hash, PartialOrd, Ord)]
pub struct LibraVersion {
    pub major: u64,
}

} // verus!
