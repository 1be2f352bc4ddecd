use vstd::prelude::*;

verus! {

/// A memory allocation: its size and memory type.
#[derive(Debug, Clone, Copy, PartialEq, Eq, Structural)]
pub struct MemoryAI {
    pub allocation_size: u64,
    pub memory_type_index: u32,
}

impl MemoryAI {
    pub fn new(allocation_size: u64, memory_type_index: u32) -> (ai: MemoryAI)
        ensures
            ai == (MemoryAI { allocation_size, memory_type_index }),
    {
        MemoryAI { allocation_size, memory_type_index }
    }
}

} // verus!
