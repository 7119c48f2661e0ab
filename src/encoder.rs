//! Access to a raw buffer for populating it with commands.

use vstd::prelude::*;

use crate::device::CommandBuffer;

verus! {

/// Offered only while a buffer is recording: grants mutable access to the raw
/// backend handle so that commands can be encoded into it.
pub trait Encoder<C> {
    type Buffer: CommandBuffer;

    /// The raw buffer being recorded.
    fn buffer(&mut self) -> &mut Self::Buffer;
}

} // verus!
