//! The structured errors a constructor can surface across the boundary.

use vstd::prelude::*;

verus! {

/// Why a calculator could not be constructed.
#[derive(Clone, Copy, Debug, PartialEq, Eq, Structural)]
pub enum Error {
    /// The engine could not parse the given bytes as a beatmap.
    InvalidBeatmap,
}

} // verus!
