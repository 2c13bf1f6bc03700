//! The two layers of a verification's result.

use vstd::prelude::*;

verus! {

/// The index exceeds our available inputs.
#[derive(Debug, Clone, Copy, PartialEq, Eq, Structural)]
pub struct IndexOutOfBounds;

/// The transaction does not correctly unlock the script.
#[derive(Debug, Clone, Copy, PartialEq, Eq, Structural)]
pub struct ConsensusViolation;

impl IndexOutOfBounds {
    /// A description for people.
    pub fn to_string(&self) -> (r: String)
        ensures
            r@ == "input index is out of bounds"@,
    {
        "input index is out of bounds".to_owned()
    }
}

impl ConsensusViolation {
    /// A description for people.
    pub fn to_string(&self) -> (r: String)
        ensures
            r@ == "consensus rules violated"@,
    {
        "consensus rules violated".to_owned()
    }
}

} // verus!
