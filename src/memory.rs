//! Device memory held by a resource.

use vstd::prelude::*;

verus! {

/// An owned region of device memory. This library only holds it for the
/// lifetime of the resource it backs and never interprets it.
#[derive(Debug)]
pub struct MemoryBlock<M> {
    memory: M,
    offset: u64,
    size: u64,
}

impl<M> View for MemoryBlock<M> {
    type V = (M, u64, u64);

    closed spec fn view(&self) -> (M, u64, u64) {
        (self.memory, self.offset, self.size)
    }
}

impl<M> MemoryBlock<M> {
    /// The block of `size` bytes at `offset` within `memory`.
    pub fn new(memory: M, offset: u64, size: u64) -> (r: MemoryBlock<M>)
        ensures
            r@ == (memory, offset, size),
    {
        MemoryBlock { memory, offset, size }
    }

    /// The memory object the block lies in.
    pub fn memory(&self) -> (r: &M)
        ensures
            *r == self@.0,
    {
        &self.memory
    }

    /// Offset of the block within its memory object.
    pub fn offset(&self) -> (r: u64)
        ensures
            r == self@.1,
    {
        self.offset
    }

    /// Size of the block in bytes.
    pub fn size(&self) -> (r: u64)
        ensures
            r == self@.2,
    {
        self.size
    }
}

} // verus!
