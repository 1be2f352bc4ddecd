use vstd::prelude::*;

verus! {

pub const DESCRIPTOR_TYPE_UNIFORM_BUFFER: i32 = 6;

/// How many descriptors of a type a pool holds.
#[derive(Debug, Clone, Copy, PartialEq, Eq, Structural)]
pub struct DescriptorPoolSize {
    pub ty: i32,
    pub descriptor_count: u32,
}

/// A descriptor pool: the most sets it allocates and the descriptors it holds.
pub struct DescriptorPoolCI {
    pub flags: u32,
    pub max_sets: u32,
    pub pool_sizes: Vec<DescriptorPoolSize>,
}

impl DescriptorPoolCI {
    /// A pool of at most `max_set_count` sets, which must be more than 0.
    pub fn new(max_set_count: u32) -> (ci: DescriptorPoolCI)
        requires
            max_set_count > 0,
        ensures
            ci.flags == 0,
            ci.max_sets == max_set_count,
            ci.pool_sizes@ == Seq::<DescriptorPoolSize>::empty(),
    {
        DescriptorPoolCI { flags: 0, max_sets: max_set_count, pool_sizes: Vec::new() }
    }

    pub fn flags(self, flags: u32) -> (ci: DescriptorPoolCI)
        ensures
            ci.flags == flags,
            ci.max_sets == self.max_sets,
            ci.pool_sizes@ == self.pool_sizes@,
    {
        DescriptorPoolCI { flags, ..self }
    }

    /// Holds `count` more descriptors of type `type_`; `count` must be more than 0.
    pub fn add_descriptor(self, type_: i32, count: u32) -> (ci: DescriptorPoolCI)
        requires
            count > 0,
        ensures
            ci.flags == self.flags,
            ci.max_sets == self.max_sets,
            ci.pool_sizes@ == self.pool_sizes@.push(DescriptorPoolSize { ty: type_, descriptor_count: count }),
    {
        let mut pool_sizes = self.pool_sizes;
        pool_sizes.push(DescriptorPoolSize { ty: type_, descriptor_count: count });
        DescriptorPoolCI { pool_sizes, ..self }
    }

    /// A pool can be created only once it holds some descriptors.
    pub fn is_buildable(&self) -> (ok: bool)
        ensures
            ok == (self.pool_sizes@.len() > 0),
    {
        self.pool_sizes.len() > 0
    }
}

/// A binding of a descriptor set layout.
#[derive(Debug, Clone, Copy, PartialEq, Eq, Structural)]
pub struct DescriptorSetLayoutBinding {
    pub binding: u32,
    pub descriptor_type: i32,
    pub descriptor_count: u32,
    pub stage_flags: u32,
}

/// The bindings of a descriptor set layout.
pub struct DescriptorSetLayoutCI {
    pub flags: u32,
    pub bindings: Vec<DescriptorSetLayoutBinding>,
}

impl DescriptorSetLayoutCI {
    pub fn new() -> (ci: DescriptorSetLayoutCI)
        ensures
            ci.flags == 0,
            ci.bindings@ == Seq::<DescriptorSetLayoutBinding>::empty(),
    {
        DescriptorSetLayoutCI { flags: 0, bindings: Vec::new() }
    }

    pub fn add_binding(self, binding: DescriptorSetLayoutBinding) -> (ci: DescriptorSetLayoutCI)
        ensures
            ci.flags == self.flags,
            ci.bindings@ == self.bindings@.push(binding),
    {
        let mut bindings = self.bindings;
        bindings.push(binding);
        DescriptorSetLayoutCI { bindings, ..self }
    }

    pub fn flags(self, flags: u32) -> (ci: DescriptorSetLayoutCI)
        ensures
            ci.flags == flags,
            ci.bindings@ == self.bindings@,
    {
        DescriptorSetLayoutCI { flags, ..self }
    }
}

/// The descriptor sets to allocate from a pool, one per layout.
pub struct DescriptorSetAI {
    pub descriptor_pool: u64,
    pub set_layouts: Vec<u64>,
}

impl DescriptorSetAI {
    pub fn new(pool: u64) -> (ai: DescriptorSetAI)
        ensures
            ai.descriptor_pool == pool,
            ai.set_layouts@ == Seq::<u64>::empty(),
    {
        DescriptorSetAI { descriptor_pool: pool, set_layouts: Vec::new() }
    }

    pub fn add_set_layout(self, set_layout: u64) -> (ai: DescriptorSetAI)
        ensures
            ai.descriptor_pool == self.descriptor_pool,
            ai.set_layouts@ == self.set_layouts@.push(set_layout),
    {
        let mut set_layouts = self.set_layouts;
        set_layouts.push(set_layout);
        DescriptorSetAI { set_layouts, ..self }
    }

    /// Sets can be allocated only for some layouts.
    pub fn is_buildable(&self) -> (ok: bool)
        ensures
            ok == (self.set_layouts@.len() > 0),
    {
        self.set_layouts.len() > 0
    }
}

/// What a write to a descriptor set updates: the set, the binding, the first
/// array element, how many descriptors and of which type.
#[derive(Debug, Clone, Copy, PartialEq, Eq, Structural)]
pub struct WriteDescriptor {
    pub dst_set: u64,
    pub dst_binding: u32,
    pub dst_array_element: u32,
    pub descriptor_count: u32,
    pub descriptor_type: i32,
}

/// A buffer range that a descriptor refers to.
#[derive(Debug, Clone, Copy, PartialEq, Eq, Structural)]
pub struct DescriptorBufferInfo {
    pub buffer: u64,
    pub offset: u64,
    pub range: u64,
}

/// An image view and sampler that a descriptor refers to.
#[derive(Debug, Clone, Copy, PartialEq, Eq, Structural)]
pub struct DescriptorImageInfo {
    pub sampler: u64,
    pub image_view: u64,
    pub image_layout: i32,
}

/// A write of descriptors to a descriptor set.
pub trait DescriptorSetWritable {
    /// What the write updates.
    spec fn spec_write(&self) -> WriteDescriptor;

    fn write_info(&self) -> (write: WriteDescriptor)
        ensures
            write == self.spec_write(),
    ;
}

/// A write of buffer descriptors.
pub struct DescriptorBufferSetWI {
    pub write: WriteDescriptor,
    pub buffers: Vec<DescriptorBufferInfo>,
}

impl DescriptorBufferSetWI {
    /// A write of no buffers yet to binding `binding` of set `set`, with descriptors of type `type_`.
    pub fn new(set: u64, binding: u32, type_: i32) -> (wi: DescriptorBufferSetWI)
        ensures
            wi.write == (WriteDescriptor {
                dst_set: set,
                dst_binding: binding,
                dst_array_element: 0,
                descriptor_count: 0,
                descriptor_type: type_,
            }),
            wi.buffers@ == Seq::<DescriptorBufferInfo>::empty(),
    {
        DescriptorBufferSetWI {
            write: WriteDescriptor { dst_set: set, dst_binding: binding, dst_array_element: 0, descriptor_count: 0, descriptor_type: type_ },
            buffers: Vec::new(),
        }
    }

    /// Adds a buffer; the count becomes the number of buffers.
    pub fn add_buffer(self, info: DescriptorBufferInfo) -> (wi: DescriptorBufferSetWI)
        ensures
            wi.buffers@ == self.buffers@.push(info),
            wi.write == (WriteDescriptor { descriptor_count: wi.buffers@.len() as u32, ..self.write }),
    {
        let mut buffers = self.buffers;
        buffers.push(info);
        let count = #[verifier::truncate] (buffers.len() as u32);
        DescriptorBufferSetWI { write: WriteDescriptor { descriptor_count: count, ..self.write }, buffers }
    }

    /// Replaces the buffers; the count becomes their number.
    pub fn set_buffer(&mut self, infos: Vec<DescriptorBufferInfo>)
        ensures
            final(self).buffers@ == infos@,
            final(self).write == (WriteDescriptor { descriptor_count: infos@.len() as u32, ..old(self).write }),
    {
        let count = #[verifier::truncate] (infos.len() as u32);
        self.write = WriteDescriptor { descriptor_count: count, ..self.write };
        self.buffers = infos;
    }

    pub fn dst_array_element(self, array_element: u32) -> (wi: DescriptorBufferSetWI)
        ensures
            wi.buffers@ == self.buffers@,
            wi.write == (WriteDescriptor { dst_array_element: array_element, ..self.write }),
    {
        DescriptorBufferSetWI { write: WriteDescriptor { dst_array_element: array_element, ..self.write }, buffers: self.buffers }
    }
}

impl DescriptorSetWritable for DescriptorBufferSetWI {
    open spec fn spec_write(&self) -> WriteDescriptor {
        self.write
    }

    fn write_info(&self) -> (write: WriteDescriptor) {
        self.write
    }
}

/// A write of image descriptors.
pub struct DescriptorImageSetWI {
    pub write: WriteDescriptor,
    pub images: Vec<DescriptorImageInfo>,
}

impl DescriptorImageSetWI {
    /// A write of no images yet to binding `binding` of set `set`, with descriptors of type `type_`.
    pub fn new(set: u64, binding: u32, type_: i32) -> (wi: DescriptorImageSetWI)
        ensures
            wi.write == (WriteDescriptor {
                dst_set: set,
                dst_binding: binding,
                dst_array_element: 0,
                descriptor_count: 0,
                descriptor_type: type_,
            }),
            wi.images@ == Seq::<DescriptorImageInfo>::empty(),
    {
        DescriptorImageSetWI {
            write: WriteDescriptor { dst_set: set, dst_binding: binding, dst_array_element: 0, descriptor_count: 0, descriptor_type: type_ },
            images: Vec::new(),
        }
    }

    /// Adds an image; the count becomes the number of images.
    pub fn add_image(self, info: DescriptorImageInfo) -> (wi: DescriptorImageSetWI)
        ensures
            wi.images@ == self.images@.push(info),
            wi.write == (WriteDescriptor { descriptor_count: wi.images@.len() as u32, ..self.write }),
    {
        let mut images = self.images;
        images.push(info);
        let count = #[verifier::truncate] (images.len() as u32);
        DescriptorImageSetWI { write: WriteDescriptor { descriptor_count: count, ..self.write }, images }
    }

    /// Replaces the images; the count becomes their number.
    pub fn set_images(&mut self, infos: Vec<DescriptorImageInfo>)
        ensures
            final(self).images@ == infos@,
            final(self).write == (WriteDescriptor { descriptor_count: infos@.len() as u32, ..old(self).write }),
    {
        let count = #[verifier::truncate] (infos.len() as u32);
        self.write = WriteDescriptor { descriptor_count: count, ..self.write };
        self.images = infos;
    }

    pub fn dst_array_element(self, array_element: u32) -> (wi: DescriptorImageSetWI)
        ensures
            wi.images@ == self.images@,
            wi.write == (WriteDescriptor { dst_array_element: array_element, ..self.write }),
    {
        DescriptorImageSetWI { write: WriteDescriptor { dst_array_element: array_element, ..self.write }, images: self.images }
    }
}

impl DescriptorSetWritable for DescriptorImageSetWI {
    open spec fn spec_write(&self) -> WriteDescriptor {
        self.write
    }

    fn write_info(&self) -> (write: WriteDescriptor) {
        self.write
    }
}

/// A copy of descriptors between two sets.
#[derive(Debug, Clone, Copy, PartialEq, Eq, Structural)]
pub struct CopyDescriptorSet {
    pub src_set: u64,
    pub src_binding: u32,
    pub src_array_element: u32,
    pub dst_set: u64,
    pub dst_binding: u32,
    pub dst_array_element: u32,
    pub descriptor_count: u32,
}

/// The writes and copies of one descriptor set update, in order.
pub struct DescriptorSetsUpdateCI {
    pub writes: Vec<WriteDescriptor>,
    pub copies: Vec<CopyDescriptorSet>,
}

impl DescriptorSetsUpdateCI {
    pub fn new() -> (ci: DescriptorSetsUpdateCI)
        ensures
            ci.writes@ == Seq::<WriteDescriptor>::empty(),
            ci.copies@ == Seq::<CopyDescriptorSet>::empty(),
    {
        DescriptorSetsUpdateCI { writes: Vec::new(), copies: Vec::new() }
    }

    pub fn add_write<W: DescriptorSetWritable>(self, value: &W) -> (ci: DescriptorSetsUpdateCI)
        ensures
            ci.writes@ == self.writes@.push(value.spec_write()),
            ci.copies@ == self.copies@,
    {
        let mut writes = self.writes;
        writes.push(value.write_info());
        DescriptorSetsUpdateCI { writes, copies: self.copies }
    }

    pub fn add_copy(self, value: &CopyDescriptorSet) -> (ci: DescriptorSetsUpdateCI)
        ensures
            ci.writes@ == self.writes@,
            ci.copies@ == self.copies@.push(*value),
    {
        let mut copies = self.copies;
        copies.push(*value);
        DescriptorSetsUpdateCI { writes: self.writes, copies }
    }
}

} // verus!
