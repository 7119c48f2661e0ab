//! The backend side of a command buffer.

use vstd::prelude::*;

verus! {

/// A raw backend command buffer handle.
/// The lifecycle wrapper only stores the handle and forwards what `submit` produces.
pub trait CommandBuffer {
    /// Backend-specific value used to populate a queue submission.
    type Submit;

    /// Produce the submission payload for this buffer.
    fn submit(&self) -> Self::Submit;
}

} // verus!
