use vstd::prelude::*;

verus! {

pub const COMMAND_BUFFER_LEVEL_PRIMARY: i32 = 0;

/// The command buffers to allocate from a pool.
#[derive(Debug, Clone, Copy, PartialEq, Eq, Structural)]
pub struct CommandBufferAI {
    pub command_pool: u64,
    pub level: i32,
    pub command_buffer_count: u32,
}

impl CommandBufferAI {
    /// `count` primary command buffers of pool `pool`; `count` must be more than 0.
    pub fn new(pool: u64, count: u32) -> (ai: CommandBufferAI)
        requires
            count > 0,
        ensures
            ai == (CommandBufferAI { command_pool: pool, level: COMMAND_BUFFER_LEVEL_PRIMARY, command_buffer_count: count }),
    {
        CommandBufferAI { command_pool: pool, level: COMMAND_BUFFER_LEVEL_PRIMARY, command_buffer_count: count }
    }

    pub fn level(self, level: i32) -> (ai: CommandBufferAI)
        ensures
            ai == (CommandBufferAI { level, ..self }),
    {
        CommandBufferAI { level, ..self }
    }
}

/// A command pool for the queues of one family.
#[derive(Debug, Clone, Copy, PartialEq, Eq, Structural)]
pub struct CommandPoolCI {
    pub flags: u32,
    pub queue_family_index: u32,
}

impl CommandPoolCI {
    pub fn new(queue_family: u32) -> (ci: CommandPoolCI)
        ensures
            ci == (CommandPoolCI { flags: 0, queue_family_index: queue_family }),
    {
        CommandPoolCI { flags: 0, queue_family_index: queue_family }
    }

    pub fn flags(self, flags: u32) -> (ci: CommandPoolCI)
        ensures
            ci == (CommandPoolCI { flags, ..self }),
    {
        CommandPoolCI { flags, ..self }
    }
}

} // verus!
