//! Task identifiers.

use vstd::prelude::*;

verus! {

/// The handle by which a task is addressed: a positive integer that the
/// registry hands out once and never again.
#[derive(Clone, Copy, Debug, PartialEq, Eq, Structural, PartialOrd, Ord, Hash)]
pub struct UID(pub u64);

impl UID {
    /// The identifier's number.
    pub fn val(self) -> (v: u64)
        ensures
            v == self.0,
    {
        self.0
    }
}

} // verus!
