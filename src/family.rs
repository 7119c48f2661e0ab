//! Queue family identity.

use vstd::prelude::*;

verus! {

/// Identifies the queue family that a command buffer belongs to.
#[derive(Clone, Copy, Debug, PartialEq, Eq, Hash, Structural)]
pub struct FamilyId {
    pub index: u32,
}

} // verus!
