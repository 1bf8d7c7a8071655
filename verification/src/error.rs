//! The one failure that the library reports.

use vstd::prelude::*;

verus! {

/// An index that selects no coordinate of the value it was applied to.
#[derive(Debug, Clone, Copy, PartialEq, Eq, Structural)]
pub struct InvalidIndex {
    /// The index that was refused.
    pub index: u8,
}

} // verus!
