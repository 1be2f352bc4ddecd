use vstd::prelude::*;

verus! {

pub const SHARING_MODE_EXCLUSIVE: i32 = 0;
pub const SHARING_MODE_CONCURRENT: i32 = 1;

pub const BUFFER_USAGE_TRANSFER_SRC: u32 = 0b1;
pub const BUFFER_USAGE_TRANSFER_DST: u32 = 0b10;
pub const BUFFER_USAGE_UNIFORM_BUFFER: u32 = 0b1_0000;
pub const BUFFER_USAGE_INDEX_BUFFER: u32 = 0b100_0000;
pub const BUFFER_USAGE_VERTEX_BUFFER: u32 = 0b1000_0000;

/// The settings of a buffer to create, but the queue families that share it.
#[derive(Debug, Clone, Copy, PartialEq, Eq, Structural)]
pub struct BufferInfo {
    pub flags: u32,
    pub size: u64,
    pub usage: u32,
    pub sharing_mode: i32,
}

/// The settings that a buffer is created with.
pub struct BufferCI {
    pub info: BufferInfo,
    pub queue_families: Vec<u32>,
}

impl BufferCI {
    /// A buffer of `size` bytes, which must be more than 0, with no usage yet,
    /// owned by one queue family.
    pub fn new(size: u64) -> (ci: BufferCI)
        requires
            size > 0,
        ensures
            ci.info == (BufferInfo { flags: 0, size, usage: 0, sharing_mode: SHARING_MODE_EXCLUSIVE }),
            ci.queue_families@ == Seq::<u32>::empty(),
    {
        BufferCI { info: BufferInfo { flags: 0, size, usage: 0, sharing_mode: SHARING_MODE_EXCLUSIVE }, queue_families: Vec::new() }
    }

    pub fn flags(self, flags: u32) -> (ci: BufferCI)
        ensures
            ci.info == (BufferInfo { flags, ..self.info }),
            ci.queue_families@ == self.queue_families@,
    {
        BufferCI { info: BufferInfo { flags, ..self.info }, queue_families: self.queue_families }
    }

    pub fn usage(self, flags: u32) -> (ci: BufferCI)
        ensures
            ci.info == (BufferInfo { usage: flags, ..self.info }),
            ci.queue_families@ == self.queue_families@,
    {
        BufferCI { info: BufferInfo { usage: flags, ..self.info }, queue_families: self.queue_families }
    }

    /// The queue families that share the buffer, more than one; the buffer is
    /// then shared concurrently.
    pub fn sharing_queues(self, families_indices: Vec<u32>) -> (ci: BufferCI)
        requires
            families_indices@.len() > 1,
        ensures
            ci.info == (BufferInfo { sharing_mode: SHARING_MODE_CONCURRENT, ..self.info }),
            ci.queue_families@ == families_indices@,
    {
        BufferCI { info: BufferInfo { sharing_mode: SHARING_MODE_CONCURRENT, ..self.info }, queue_families: families_indices }
    }

    /// A buffer can be created only with some usage.
    pub fn is_buildable(&self) -> (ok: bool)
        ensures
            ok == (self.info.usage != 0),
    {
        self.info.usage != 0
    }
}

} // verus!
