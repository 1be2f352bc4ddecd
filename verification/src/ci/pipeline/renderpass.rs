use vstd::prelude::*;

verus! {

pub const FORMAT_UNDEFINED: i32 = 0;
pub const SAMPLE_COUNT_1: u32 = 0b1;
pub const ATTACHMENT_LOAD_OP_DONT_CARE: i32 = 2;
pub const ATTACHMENT_STORE_OP_DONT_CARE: i32 = 1;
pub const IMAGE_LAYOUT_UNDEFINED: i32 = 0;
pub const PIPELINE_BIND_POINT_GRAPHICS: i32 = 0;
/// The subpass outside the render pass.
pub const SUBPASS_EXTERNAL: u32 = 0xFFFF_FFFF;

/// The value an attachment is cleared to, as four 4-byte words.
#[derive(Debug, Clone, Copy, PartialEq, Eq, Structural)]
pub struct ClearValue {
    pub word0: u32,
    pub word1: u32,
    pub word2: u32,
    pub word3: u32,
}

/// How a render pass instance is begun.
pub struct RenderPassBI {
    pub render_pass: u64,
    pub framebuffer: u64,
    pub offset_x: i32,
    pub offset_y: i32,
    pub width: u32,
    pub height: u32,
    pub clears: Vec<ClearValue>,
}

impl RenderPassBI {
    /// Begins `render_pass` on `framebuffer` over an empty area at the origin, clearing nothing.
    pub fn new(render_pass: u64, framebuffer: u64) -> (bi: RenderPassBI)
        ensures
            bi.render_pass == render_pass,
            bi.framebuffer == framebuffer,
            bi.offset_x == 0 && bi.offset_y == 0,
            bi.width == 0 && bi.height == 0,
            bi.clears@ == Seq::<ClearValue>::empty(),
    {
        RenderPassBI { render_pass, framebuffer, offset_x: 0, offset_y: 0, width: 0, height: 0, clears: Vec::new() }
    }

    pub fn render_extent(self, width: u32, height: u32) -> (bi: RenderPassBI)
        ensures
            bi.render_pass == self.render_pass && bi.framebuffer == self.framebuffer,
            bi.offset_x == self.offset_x && bi.offset_y == self.offset_y,
            bi.width == width && bi.height == height,
            bi.clears@ == self.clears@,
    {
        RenderPassBI { width, height, ..self }
    }

    pub fn render_area_offset(self, x: i32, y: i32) -> (bi: RenderPassBI)
        ensures
            bi.render_pass == self.render_pass && bi.framebuffer == self.framebuffer,
            bi.offset_x == x && bi.offset_y == y,
            bi.width == self.width && bi.height == self.height,
            bi.clears@ == self.clears@,
    {
        RenderPassBI { offset_x: x, offset_y: y, ..self }
    }

    pub fn add_clear_value(self, value: ClearValue) -> (bi: RenderPassBI)
        ensures
            bi.render_pass == self.render_pass && bi.framebuffer == self.framebuffer,
            bi.offset_x == self.offset_x && bi.offset_y == self.offset_y,
            bi.width == self.width && bi.height == self.height,
            bi.clears@ == self.clears@.push(value),
    {
        let mut clears = self.clears;
        clears.push(value);
        RenderPassBI { clears, ..self }
    }

    /// Replaces the clear values.
    pub fn set_clear_values(self, values: Vec<ClearValue>) -> (bi: RenderPassBI)
        ensures
            bi.render_pass == self.render_pass && bi.framebuffer == self.framebuffer,
            bi.offset_x == self.offset_x && bi.offset_y == self.offset_y,
            bi.width == self.width && bi.height == self.height,
            bi.clears@ == values@,
    {
        RenderPassBI { clears: values, ..self }
    }
}

/// An attachment of a render pass: its format, samples, load and store
/// operations and layouts.
#[derive(Debug, Clone, Copy, PartialEq, Eq, Structural)]
pub struct AttachmentDescCI {
    pub flags: u32,
    pub format: i32,
    pub samples: u32,
    pub load_op: i32,
    pub store_op: i32,
    pub stencil_load_op: i32,
    pub stencil_store_op: i32,
    pub initial_layout: i32,
    pub final_layout: i32,
}

impl AttachmentDescCI {
    /// One sample, contents neither loaded nor stored, layouts undefined.
    pub open spec fn spec_default_ci() -> AttachmentDescCI {
        AttachmentDescCI {
            flags: 0,
            format: FORMAT_UNDEFINED,
            samples: SAMPLE_COUNT_1,
            load_op: ATTACHMENT_LOAD_OP_DONT_CARE,
            store_op: ATTACHMENT_STORE_OP_DONT_CARE,
            stencil_load_op: ATTACHMENT_LOAD_OP_DONT_CARE,
            stencil_store_op: ATTACHMENT_STORE_OP_DONT_CARE,
            initial_layout: IMAGE_LAYOUT_UNDEFINED,
            final_layout: IMAGE_LAYOUT_UNDEFINED,
        }
    }

    pub fn default_ci() -> (ci: AttachmentDescCI)
        ensures
            ci == Self::spec_default_ci(),
    {
        AttachmentDescCI {
            flags: 0,
            format: FORMAT_UNDEFINED,
            samples: SAMPLE_COUNT_1,
            load_op: ATTACHMENT_LOAD_OP_DONT_CARE,
            store_op: ATTACHMENT_STORE_OP_DONT_CARE,
            stencil_load_op: ATTACHMENT_LOAD_OP_DONT_CARE,
            stencil_store_op: ATTACHMENT_STORE_OP_DONT_CARE,
            initial_layout: IMAGE_LAYOUT_UNDEFINED,
            final_layout: IMAGE_LAYOUT_UNDEFINED,
        }
    }

    pub fn new(format: i32) -> (ci: AttachmentDescCI)
        ensures
            ci == (AttachmentDescCI { format, ..Self::spec_default_ci() }),
    {
        AttachmentDescCI { format, ..AttachmentDescCI::default_ci() }
    }

    pub fn sample_count(self, count: u32) -> (ci: AttachmentDescCI)
        ensures
            ci == (AttachmentDescCI { samples: count, ..self }),
    {
        AttachmentDescCI { samples: count, ..self }
    }

    pub fn op(self, load: i32, store: i32) -> (ci: AttachmentDescCI)
        ensures
            ci == (AttachmentDescCI { load_op: load, store_op: store, ..self }),
    {
        AttachmentDescCI { load_op: load, store_op: store, ..self }
    }

    pub fn stencil_op(self, load: i32, store: i32) -> (ci: AttachmentDescCI)
        ensures
            ci == (AttachmentDescCI { stencil_load_op: load, stencil_store_op: store, ..self }),
    {
        AttachmentDescCI { stencil_load_op: load, stencil_store_op: store, ..self }
    }

    pub fn layout(self, initial: i32, final_: i32) -> (ci: AttachmentDescCI)
        ensures
            ci == (AttachmentDescCI { initial_layout: initial, final_layout: final_, ..self }),
    {
        AttachmentDescCI { initial_layout: initial, final_layout: final_, ..self }
    }

    pub fn flags(self, flags: u32) -> (ci: AttachmentDescCI)
        ensures
            ci == (AttachmentDescCI { flags, ..self }),
    {
        AttachmentDescCI { flags, ..self }
    }
}

/// A reference of a subpass to an attachment of the render pass.
#[derive(Debug, Clone, Copy, PartialEq, Eq, Structural)]
pub struct AttachmentReference {
    pub attachment: u32,
    pub layout: i32,
}

/// The counts that a subpass description hands to Vulkan next to its attachment lists.
#[derive(Debug, Clone, Copy, PartialEq, Eq, Structural)]
pub struct SubpassCounts {
    pub input_attachment_count: u32,
    pub color_attachment_count: u32,
    pub preserve_attachment_count: u32,
}

/// A subpass of a render pass: the attachments it reads, writes, resolves,
/// preserves, and its depth-stencil attachment.
pub struct SubpassDescCI {
    pub flags: u32,
    pub pipeline_bind_point: i32,
    pub counts: SubpassCounts,
    pub inputs: Vec<AttachmentReference>,
    pub colors: Vec<AttachmentReference>,
    pub resolves: Option<Vec<AttachmentReference>>,
    pub preserves: Vec<u32>,
    pub depth_stencil: Option<AttachmentReference>,
}

impl SubpassDescCI {
    pub fn new(bind_point: i32) -> (ci: SubpassDescCI)
        ensures
            ci.flags == 0,
            ci.pipeline_bind_point == bind_point,
            ci.counts == (SubpassCounts {
                input_attachment_count: 0,
                color_attachment_count: 0,
                preserve_attachment_count: 0,
            }),
            ci.inputs@ == Seq::<AttachmentReference>::empty(),
            ci.colors@ == Seq::<AttachmentReference>::empty(),
            ci.resolves.is_none(),
            ci.preserves@ == Seq::<u32>::empty(),
            ci.depth_stencil.is_none(),
    {
        SubpassDescCI {
            flags: 0,
            pipeline_bind_point: bind_point,
            counts: SubpassCounts { input_attachment_count: 0, color_attachment_count: 0, preserve_attachment_count: 0 },
            inputs: Vec::new(),
            colors: Vec::new(),
            resolves: None,
            preserves: Vec::new(),
            depth_stencil: None,
        }
    }

    /// Reads attachment `attachment_index` in layout `image_layout` as an input.
    pub fn add_input_attachment(self, attachment_index: u32, image_layout: i32) -> (ci: SubpassDescCI)
        ensures
            ci.flags == self.flags && ci.pipeline_bind_point == self.pipeline_bind_point,
            ci.inputs@ == self.inputs@.push(AttachmentReference { attachment: attachment_index, layout: image_layout }),
            ci.counts == (SubpassCounts { input_attachment_count: ci.inputs@.len() as u32, ..self.counts }),
            ci.colors@ == self.colors@,
            ci.resolves == self.resolves,
            ci.preserves@ == self.preserves@,
            ci.depth_stencil == self.depth_stencil,
    {
        let mut inputs = self.inputs;
        inputs.push(AttachmentReference { attachment: attachment_index, layout: image_layout });
        let count = #[verifier::truncate] (inputs.len() as u32);
        SubpassDescCI { inputs, counts: SubpassCounts { input_attachment_count: count, ..self.counts }, ..self }
    }

    /// Writes attachment `attachment_index` in layout `image_layout` as a colour attachment.
    pub fn add_color_attachment(self, attachment_index: u32, image_layout: i32) -> (ci: SubpassDescCI)
        ensures
            ci.flags == self.flags && ci.pipeline_bind_point == self.pipeline_bind_point,
            ci.colors@ == self.colors@.push(AttachmentReference { attachment: attachment_index, layout: image_layout }),
            ci.counts == (SubpassCounts { color_attachment_count: ci.colors@.len() as u32, ..self.counts }),
            ci.inputs@ == self.inputs@,
            ci.resolves == self.resolves,
            ci.preserves@ == self.preserves@,
            ci.depth_stencil == self.depth_stencil,
    {
        let mut colors = self.colors;
        colors.push(AttachmentReference { attachment: attachment_index, layout: image_layout });
        let count = #[verifier::truncate] (colors.len() as u32);
        SubpassDescCI { colors, counts: SubpassCounts { color_attachment_count: count, ..self.counts }, ..self }
    }

    /// Resolves into attachment `attachment_index`; the counts stay, as the
    /// resolve list is as long as the colour list.
    pub fn add_resolve_attachment(self, attachment_index: u32, image_layout: i32) -> (ci: SubpassDescCI)
        ensures
            ci.flags == self.flags && ci.pipeline_bind_point == self.pipeline_bind_point,
            ci.resolves.is_some(),
            ci.resolves.unwrap()@ == (match self.resolves {
                Some(rs) => rs@,
                None => Seq::<AttachmentReference>::empty(),
            }).push(AttachmentReference { attachment: attachment_index, layout: image_layout }),
            ci.counts == self.counts,
            ci.inputs@ == self.inputs@,
            ci.colors@ == self.colors@,
            ci.preserves@ == self.preserves@,
            ci.depth_stencil == self.depth_stencil,
    {
        let mut resolves = match self.resolves {
            Some(rs) => rs,
            None => Vec::new(),
        };
        resolves.push(AttachmentReference { attachment: attachment_index, layout: image_layout });
        SubpassDescCI {
            flags: self.flags,
            pipeline_bind_point: self.pipeline_bind_point,
            counts: self.counts,
            inputs: self.inputs,
            colors: self.colors,
            resolves: Some(resolves),
            preserves: self.preserves,
            depth_stencil: self.depth_stencil,
        }
    }

    /// Preserves attachment `attachment_index`; the preserve count becomes the
    /// number of preserved attachments.
    pub fn add_preserve_attachment(self, attachment_index: u32) -> (ci: SubpassDescCI)
        ensures
            ci.flags == self.flags && ci.pipeline_bind_point == self.pipeline_bind_point,
            ci.preserves@ == self.preserves@.push(attachment_index),
            ci.counts == (SubpassCounts { preserve_attachment_count: ci.preserves@.len() as u32, ..self.counts }),
            ci.inputs@ == self.inputs@,
            ci.colors@ == self.colors@,
            ci.resolves == self.resolves,
            ci.depth_stencil == self.depth_stencil,
    {
        let mut preserves = self.preserves;
        preserves.push(attachment_index);
        let count = #[verifier::truncate] (preserves.len() as u32);
        SubpassDescCI { preserves, counts: SubpassCounts { preserve_attachment_count: count, ..self.counts }, ..self }
    }

    /// Uses attachment `attachment_index` as the depth-stencil attachment.
    pub fn set_depth_stencil_attachment(self, attachment_index: u32, image_layout: i32) -> (ci: SubpassDescCI)
        ensures
            ci.flags == self.flags && ci.pipeline_bind_point == self.pipeline_bind_point,
            ci.depth_stencil == Some(AttachmentReference { attachment: attachment_index, layout: image_layout }),
            ci.counts == self.counts,
            ci.inputs@ == self.inputs@,
            ci.colors@ == self.colors@,
            ci.resolves == self.resolves,
            ci.preserves@ == self.preserves@,
    {
        SubpassDescCI { depth_stencil: Some(AttachmentReference { attachment: attachment_index, layout: image_layout }), ..self }
    }

    pub fn flags(self, flags: u32) -> (ci: SubpassDescCI)
        ensures
            ci.flags == flags && ci.pipeline_bind_point == self.pipeline_bind_point,
            ci.counts == self.counts,
            ci.inputs@ == self.inputs@,
            ci.colors@ == self.colors@,
            ci.resolves == self.resolves,
            ci.preserves@ == self.preserves@,
            ci.depth_stencil == self.depth_stencil,
    {
        SubpassDescCI { flags, ..self }
    }

    /// A subpass that resolves does so for each of its colour attachments.
    pub open spec fn spec_resolves_match(&self) -> bool {
        match self.resolves {
            Some(rs) => rs@.len() as u32 == self.counts.color_attachment_count,
            None => true,
        }
    }
}

/// An ordering between two subpasses.
#[derive(Debug, Clone, Copy, PartialEq, Eq, Structural)]
pub struct SubpassDependencyCI {
    pub src_subpass: u32,
    pub dst_subpass: u32,
    pub src_stage_mask: u32,
    pub dst_stage_mask: u32,
    pub src_access_mask: u32,
    pub dst_access_mask: u32,
    pub dependency_flags: u32,
}

impl SubpassDependencyCI {
    /// A dependency between the outside of the render pass and itself that orders nothing.
    pub open spec fn spec_default_ci() -> SubpassDependencyCI {
        SubpassDependencyCI {
            src_subpass: SUBPASS_EXTERNAL,
            dst_subpass: SUBPASS_EXTERNAL,
            src_stage_mask: 0,
            dst_stage_mask: 0,
            src_access_mask: 0,
            dst_access_mask: 0,
            dependency_flags: 0,
        }
    }

    pub fn default_ci() -> (ci: SubpassDependencyCI)
        ensures
            ci == Self::spec_default_ci(),
    {
        SubpassDependencyCI {
            src_subpass: SUBPASS_EXTERNAL,
            dst_subpass: SUBPASS_EXTERNAL,
            src_stage_mask: 0,
            dst_stage_mask: 0,
            src_access_mask: 0,
            dst_access_mask: 0,
            dependency_flags: 0,
        }
    }

    pub fn new(src: u32, dst: u32) -> (ci: SubpassDependencyCI)
        ensures
            ci == (SubpassDependencyCI { src_subpass: src, dst_subpass: dst, ..Self::spec_default_ci() }),
    {
        SubpassDependencyCI { src_subpass: src, dst_subpass: dst, ..SubpassDependencyCI::default_ci() }
    }

    pub fn stage_mask(self, src: u32, dst: u32) -> (ci: SubpassDependencyCI)
        ensures
            ci == (SubpassDependencyCI { src_stage_mask: src, dst_stage_mask: dst, ..self }),
    {
        SubpassDependencyCI { src_stage_mask: src, dst_stage_mask: dst, ..self }
    }

    pub fn access_mask(self, src: u32, dst: u32) -> (ci: SubpassDependencyCI)
        ensures
            ci == (SubpassDependencyCI { src_access_mask: src, dst_access_mask: dst, ..self }),
    {
        SubpassDependencyCI { src_access_mask: src, dst_access_mask: dst, ..self }
    }

    pub fn flags(self, flags: u32) -> (ci: SubpassDependencyCI)
        ensures
            ci == (SubpassDependencyCI { dependency_flags: flags, ..self }),
    {
        SubpassDependencyCI { dependency_flags: flags, ..self }
    }
}

/// A render pass: its attachments, subpasses and dependencies, in the order
/// they were added.
pub struct RenderPassCI {
    pub flags: u32,
    pub attachments: Vec<AttachmentDescCI>,
    pub subpasses: Vec<SubpassDescCI>,
    pub dependencies: Vec<SubpassDependencyCI>,
}

impl RenderPassCI {
    pub fn new() -> (ci: RenderPassCI)
        ensures
            ci.flags == 0,
            ci.attachments@ == Seq::<AttachmentDescCI>::empty(),
            ci.subpasses@.len() == 0,
            ci.dependencies@ == Seq::<SubpassDependencyCI>::empty(),
    {
        RenderPassCI { flags: 0, attachments: Vec::new(), subpasses: Vec::new(), dependencies: Vec::new() }
    }

    pub fn add_attachment(self, attachment: AttachmentDescCI) -> (ci: RenderPassCI)
        ensures
            ci.flags == self.flags,
            ci.attachments@ == self.attachments@.push(attachment),
            ci.subpasses@ == self.subpasses@,
            ci.dependencies@ == self.dependencies@,
    {
        let mut attachments = self.attachments;
        attachments.push(attachment);
        RenderPassCI { attachments, ..self }
    }

    /// Adds a subpass, which resolves for each of its colour attachments if it resolves at all.
    pub fn add_subpass(self, subpass: SubpassDescCI) -> (ci: RenderPassCI)
        requires
            subpass.spec_resolves_match(),
        ensures
            ci.flags == self.flags,
            ci.attachments@ == self.attachments@,
            ci.subpasses@ == self.subpasses@.push(subpass),
            ci.dependencies@ == self.dependencies@,
    {
        let mut subpasses = self.subpasses;
        subpasses.push(subpass);
        RenderPassCI { subpasses, ..self }
    }

    pub fn add_dependency(self, dependency: SubpassDependencyCI) -> (ci: RenderPassCI)
        ensures
            ci.flags == self.flags,
            ci.attachments@ == self.attachments@,
            ci.subpasses@ == self.subpasses@,
            ci.dependencies@ == self.dependencies@.push(dependency),
    {
        let mut dependencies = self.dependencies;
        dependencies.push(dependency);
        RenderPassCI { dependencies, ..self }
    }

    pub fn flags(self, flags: u32) -> (ci: RenderPassCI)
        ensures
            ci.flags == flags,
            ci.attachments@ == self.attachments@,
            ci.subpasses@ == self.subpasses@,
            ci.dependencies@ == self.dependencies@,
    {
        RenderPassCI { flags, ..self }
    }
}

} // verus!
