use vstd::prelude::*;

use crate::ci::buffer::{BufferCI, BufferInfo, BUFFER_USAGE_TRANSFER_DST, BUFFER_USAGE_TRANSFER_SRC, SHARING_MODE_EXCLUSIVE};

verus! {

pub const MEMORY_PROPERTY_DEVICE_LOCAL: u32 = 0b1;
pub const MEMORY_PROPERTY_HOST_VISIBLE: u32 = 0b10;
pub const MEMORY_PROPERTY_HOST_COHERENT: u32 = 0b100;

/// What the memory of an allocation is used for.
#[derive(Debug, Clone, Copy, PartialEq, Eq, Structural)]
pub enum MemoryUsage {
    Unknown,
    GpuOnly,
    CpuOnly,
    CpuToGpu,
    GpuToCpu,
}

/// The request for a memory allocation: its usage, flags, the memory
/// properties it requires and prefers, the memory types it accepts (`0`
/// accepts any) and the pool, by handle, that it is taken from.
#[derive(Debug, Clone, Copy, PartialEq, Eq, Structural)]
pub struct VmaAllocationCI {
    pub usage: MemoryUsage,
    pub flags: u32,
    pub required_flags: u32,
    pub preferred_flags: u32,
    pub memory_type_bits: u32,
    pub pool: Option<u64>,
}

impl VmaAllocationCI {
    /// The request with nothing set: unknown usage, no flags, any memory type, the default pool.
    pub open spec fn spec_default_ci() -> VmaAllocationCI {
        VmaAllocationCI {
            usage: MemoryUsage::Unknown,
            flags: 0,
            required_flags: 0,
            preferred_flags: 0,
            memory_type_bits: 0,
            pool: None,
        }
    }

    pub fn default_ci() -> (ci: VmaAllocationCI)
        ensures
            ci == Self::spec_default_ci(),
    {
        VmaAllocationCI {
            usage: MemoryUsage::Unknown,
            flags: 0,
            required_flags: 0,
            preferred_flags: 0,
            // a zero mask accepts every memory type.
            memory_type_bits: 0,
            pool: None,
        }
    }

    pub fn new(usage: MemoryUsage, required_flags: u32) -> (ci: VmaAllocationCI)
        ensures
            ci == (VmaAllocationCI { usage, required_flags, ..Self::spec_default_ci() }),
    {
        VmaAllocationCI { usage, required_flags, ..VmaAllocationCI::default_ci() }
    }

    pub fn flags(self, flags: u32) -> (ci: VmaAllocationCI)
        ensures
            ci == (VmaAllocationCI { flags, ..self }),
    {
        VmaAllocationCI { flags, ..self }
    }

    pub fn preferred_flags(self, flags: u32) -> (ci: VmaAllocationCI)
        ensures
            ci == (VmaAllocationCI { preferred_flags: flags, ..self }),
    {
        VmaAllocationCI { preferred_flags: flags, ..self }
    }

    pub fn accept_memory_types(self, acceptable_type_bits: u32) -> (ci: VmaAllocationCI)
        ensures
            ci == (VmaAllocationCI { memory_type_bits: acceptable_type_bits, ..self }),
    {
        VmaAllocationCI { memory_type_bits: acceptable_type_bits, ..self }
    }

    pub fn with_pool(self, pool: u64) -> (ci: VmaAllocationCI)
        ensures
            ci == (VmaAllocationCI { pool: Some(pool), ..self }),
    {
        VmaAllocationCI { pool: Some(pool), ..self }
    }
}

/// A buffer to create and the memory to allocate it in.
pub struct BufferRequest {
    pub buffer: BufferCI,
    pub allocation: VmaAllocationCI,
}

/// `request` asks for an exclusively owned buffer of `size` bytes with usage
/// `usage`, in memory of usage `memory` that has the properties `required`.
pub open spec fn spec_buffer_request(request: BufferRequest, size: u64, usage: u32, memory: MemoryUsage, required: u32) -> bool {
    &&& request.buffer.info == (BufferInfo { flags: 0, size, usage, sharing_mode: SHARING_MODE_EXCLUSIVE })
    &&& request.buffer.queue_families@ == Seq::<u32>::empty()
    &&& request.allocation == (VmaAllocationCI { usage: memory, required_flags: required, ..VmaAllocationCI::spec_default_ci() })
}

/// A buffer of `size` bytes that the device reads with `usage` and that is
/// filled by a transfer.
pub fn device_buffer_request(size: u64, usage: u32) -> (request: BufferRequest)
    requires
        size > 0,
    ensures
        spec_buffer_request(request, size, usage | BUFFER_USAGE_TRANSFER_DST, MemoryUsage::GpuOnly, MEMORY_PROPERTY_DEVICE_LOCAL),
{
    BufferRequest {
        buffer: BufferCI::new(size).usage(usage | BUFFER_USAGE_TRANSFER_DST),
        allocation: VmaAllocationCI::new(MemoryUsage::GpuOnly, MEMORY_PROPERTY_DEVICE_LOCAL),
    }
}

/// A buffer of `size` bytes that the host writes and a transfer reads from.
pub fn staging_buffer_request(size: u64) -> (request: BufferRequest)
    requires
        size > 0,
    ensures
        spec_buffer_request(
            request,
            size,
            BUFFER_USAGE_TRANSFER_SRC,
            MemoryUsage::CpuToGpu,
            MEMORY_PROPERTY_HOST_VISIBLE | MEMORY_PROPERTY_HOST_COHERENT,
        ),
{
    BufferRequest {
        buffer: BufferCI::new(size).usage(BUFFER_USAGE_TRANSFER_SRC),
        allocation: VmaAllocationCI::new(MemoryUsage::CpuToGpu, MEMORY_PROPERTY_HOST_VISIBLE | MEMORY_PROPERTY_HOST_COHERENT),
    }
}

/// `device` and `staging` are the device and the staging buffer of `size`
/// bytes of data that the device reads with `usage`.
pub open spec fn spec_upload_requests(device: BufferRequest, staging: BufferRequest, size: u64, usage: u32) -> bool {
    &&& spec_buffer_request(device, size, usage | BUFFER_USAGE_TRANSFER_DST, MemoryUsage::GpuOnly, MEMORY_PROPERTY_DEVICE_LOCAL)
    &&& spec_buffer_request(
        staging,
        size,
        BUFFER_USAGE_TRANSFER_SRC,
        MemoryUsage::CpuToGpu,
        MEMORY_PROPERTY_HOST_VISIBLE | MEMORY_PROPERTY_HOST_COHERENT,
    )
}

} // verus!
