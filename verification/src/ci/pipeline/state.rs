use vstd::prelude::*;

verus! {

pub const VERTEX_INPUT_RATE_VERTEX: i32 = 0;
pub const PRIMITIVE_TOPOLOGY_TRIANGLE_LIST: i32 = 3;
pub const POLYGON_MODE_FILL: i32 = 0;
pub const CULL_MODE_NONE: u32 = 0;
pub const FRONT_FACE_COUNTER_CLOCKWISE: i32 = 0;
pub const LOGIC_OP_COPY: i32 = 3;
pub const BLEND_FACTOR_ZERO: i32 = 0;
pub const BLEND_FACTOR_ONE: i32 = 1;
pub const BLEND_OP_ADD: i32 = 0;
pub const COLOR_COMPONENT_RGBA: u32 = 0b1111;
pub const STENCIL_OP_KEEP: i32 = 0;
pub const COMPARE_OP_LESS_OR_EQUAL: i32 = 3;
pub const COMPARE_OP_ALWAYS: i32 = 7;
pub const SAMPLE_COUNT_1: u32 = 0b1;
/// The bits of the 4-byte float `1.0`.
pub const FLOAT_ONE_BITS: u32 = 0x3f80_0000;

/// How a vertex buffer binding is read.
#[derive(Debug, Clone, Copy, PartialEq, Eq, Structural)]
pub struct VertexInputBinding {
    pub binding: u32,
    pub stride: u32,
    pub input_rate: i32,
}

/// Where a vertex attribute is read from.
#[derive(Debug, Clone, Copy, PartialEq, Eq, Structural)]
pub struct VertexInputAttribute {
    pub location: u32,
    pub binding: u32,
    pub format: i32,
    pub offset: u32,
}

/// The vertex input of a pipeline: its bindings and attributes, in the order they were added.
pub struct VertexInputSCI {
    pub flags: u32,
    pub bindings: Vec<VertexInputBinding>,
    pub attributes: Vec<VertexInputAttribute>,
}

impl VertexInputSCI {
    pub fn new() -> (sci: VertexInputSCI)
        ensures
            sci.flags == 0,
            sci.bindings@ == Seq::<VertexInputBinding>::empty(),
            sci.attributes@ == Seq::<VertexInputAttribute>::empty(),
    {
        VertexInputSCI { flags: 0, bindings: Vec::new(), attributes: Vec::new() }
    }

    pub fn add_binding(self, binding: VertexInputBinding) -> (sci: VertexInputSCI)
        ensures
            sci.flags == self.flags,
            sci.bindings@ == self.bindings@.push(binding),
            sci.attributes@ == self.attributes@,
    {
        let mut bindings = self.bindings;
        bindings.push(binding);
        VertexInputSCI { flags: self.flags, bindings, attributes: self.attributes }
    }

    pub fn add_attribute(self, attribute: VertexInputAttribute) -> (sci: VertexInputSCI)
        ensures
            sci.flags == self.flags,
            sci.bindings@ == self.bindings@,
            sci.attributes@ == self.attributes@.push(attribute),
    {
        let mut attributes = self.attributes;
        attributes.push(attribute);
        VertexInputSCI { flags: self.flags, bindings: self.bindings, attributes }
    }

    pub fn flags(self, flags: u32) -> (sci: VertexInputSCI)
        ensures
            sci.flags == flags,
            sci.bindings@ == self.bindings@,
            sci.attributes@ == self.attributes@,
    {
        VertexInputSCI { flags, bindings: self.bindings, attributes: self.attributes }
    }

    /// Numbers the attributes by their position: the `i`-th attribute is read
    /// at location `i`.
    pub fn inner_set_attribute_locations(&mut self)
        ensures
            final(self).flags == old(self).flags,
            final(self).bindings@ == old(self).bindings@,
            final(self).attributes@.len() == old(self).attributes@.len(),
            forall|i: int| 0 <= i < old(self).attributes@.len() ==> #[trigger] final(self).attributes@[i] == (
            VertexInputAttribute { location: i as u32, ..old(self).attributes@[i] }),
    {
        let n = self.attributes.len();
        for i in 0..n
            invariant
                n == old(self).attributes@.len(),
                self.flags == old(self).flags,
                self.bindings@ == old(self).bindings@,
                self.attributes@.len() == n,
                forall|k: int| 0 <= k < i ==> #[trigger] self.attributes@[k] == (VertexInputAttribute {
                    location: k as u32,
                    ..old(self).attributes@[k]
                }),
                forall|k: int| i <= k < n ==> #[trigger] self.attributes@[k] == old(self).attributes@[k],
        {
            let attribute = VertexInputAttribute { location: #[verifier::truncate] (i as u32), ..self.attributes[i] };
            self.attributes.set(i, attribute);
        }
    }
}

/// How vertices are assembled into primitives.
#[derive(Debug, Clone, Copy, PartialEq, Eq, Structural)]
pub struct InputAssemblySCI {
    pub flags: u32,
    pub topology: i32,
    pub primitive_restart_enable: bool,
}

impl InputAssemblySCI {
    /// Triangle lists without primitive restart.
    pub open spec fn new_spec() -> InputAssemblySCI {
        InputAssemblySCI { flags: 0, topology: PRIMITIVE_TOPOLOGY_TRIANGLE_LIST, primitive_restart_enable: false }
    }

    pub fn new() -> (sci: InputAssemblySCI)
        ensures
            sci == Self::new_spec(),
    {
        InputAssemblySCI { flags: 0, topology: PRIMITIVE_TOPOLOGY_TRIANGLE_LIST, primitive_restart_enable: false }
    }

    pub fn topology(self, topology: i32) -> (sci: InputAssemblySCI)
        ensures
            sci == (InputAssemblySCI { topology, ..self }),
    {
        InputAssemblySCI { topology, ..self }
    }

    pub fn primitive_restart(self, is_enable: bool) -> (sci: InputAssemblySCI)
        ensures
            sci == (InputAssemblySCI { primitive_restart_enable: is_enable, ..self }),
    {
        InputAssemblySCI { primitive_restart_enable: is_enable, ..self }
    }

    pub fn flags(self, flags: u32) -> (sci: InputAssemblySCI)
        ensures
            sci == (InputAssemblySCI { flags, ..self }),
    {
        InputAssemblySCI { flags, ..self }
    }
}

/// How primitives are rasterized; its float settings are kept as the bits
/// of 4-byte floats.
#[derive(Debug, Clone, Copy, PartialEq, Eq, Structural)]
pub struct RasterizationSCI {
    pub flags: u32,
    pub depth_clamp_enable: bool,
    pub rasterizer_discard_enable: bool,
    pub polygon_mode: i32,
    pub cull_mode: u32,
    pub front_face: i32,
    pub depth_bias_enable: bool,
    pub depth_bias_constant_factor: u32,
    pub depth_bias_clamp: u32,
    pub depth_bias_slope_factor: u32,
    pub line_width: u32,
}

impl RasterizationSCI {
    /// Filled, unculled, counter-clockwise polygons with no depth clamp or
    /// bias, drawn with lines one pixel wide.
    pub open spec fn spec_default_ci() -> RasterizationSCI {
        RasterizationSCI {
            flags: 0,
            depth_clamp_enable: false,
            rasterizer_discard_enable: false,
            polygon_mode: POLYGON_MODE_FILL,
            cull_mode: CULL_MODE_NONE,
            front_face: FRONT_FACE_COUNTER_CLOCKWISE,
            depth_bias_enable: false,
            depth_bias_constant_factor: 0,
            depth_bias_clamp: 0,
            depth_bias_slope_factor: 0,
            line_width: FLOAT_ONE_BITS,
        }
    }

    pub fn new() -> (sci: RasterizationSCI)
        ensures
            sci == Self::spec_default_ci(),
    {
        RasterizationSCI {
            flags: 0,
            depth_clamp_enable: false,
            rasterizer_discard_enable: false,
            polygon_mode: POLYGON_MODE_FILL,
            cull_mode: CULL_MODE_NONE,
            front_face: FRONT_FACE_COUNTER_CLOCKWISE,
            depth_bias_enable: false,
            depth_bias_constant_factor: 0,
            depth_bias_clamp: 0,
            depth_bias_slope_factor: 0,
            line_width: FLOAT_ONE_BITS,
        }
    }

    pub fn depth_clamp(self, is_enable: bool, bias: u32) -> (sci: RasterizationSCI)
        ensures
            sci == (RasterizationSCI { depth_clamp_enable: is_enable, depth_bias_clamp: bias, ..self }),
    {
        RasterizationSCI { depth_clamp_enable: is_enable, depth_bias_clamp: bias, ..self }
    }

    pub fn rasterizer_discard(self, is_enable: bool) -> (sci: RasterizationSCI)
        ensures
            sci == (RasterizationSCI { rasterizer_discard_enable: is_enable, ..self }),
    {
        RasterizationSCI { rasterizer_discard_enable: is_enable, ..self }
    }

    pub fn cull_face(self, mode: u32, front_face: i32) -> (sci: RasterizationSCI)
        ensures
            sci == (RasterizationSCI { cull_mode: mode, front_face, ..self }),
    {
        RasterizationSCI { cull_mode: mode, front_face, ..self }
    }

    pub fn polygon(self, mode: i32) -> (sci: RasterizationSCI)
        ensures
            sci == (RasterizationSCI { polygon_mode: mode, ..self }),
    {
        RasterizationSCI { polygon_mode: mode, ..self }
    }

    pub fn depth_bias(self, is_enable: bool, constant_factor: u32, slope_factor: u32) -> (sci: RasterizationSCI)
        ensures
            sci == (RasterizationSCI {
                depth_bias_enable: is_enable,
                depth_bias_constant_factor: constant_factor,
                depth_bias_slope_factor: slope_factor,
                ..self
            }),
    {
        RasterizationSCI {
            depth_bias_enable: is_enable,
            depth_bias_constant_factor: constant_factor,
            depth_bias_slope_factor: slope_factor,
            ..self
        }
    }

    pub fn line_width(self, width: u32) -> (sci: RasterizationSCI)
        ensures
            sci == (RasterizationSCI { line_width: width, ..self }),
    {
        RasterizationSCI { line_width: width, ..self }
    }

    pub fn flags(self, flags: u32) -> (sci: RasterizationSCI)
        ensures
            sci == (RasterizationSCI { flags, ..self }),
    {
        RasterizationSCI { flags, ..self }
    }
}

/// How the colour of one attachment is blended.
#[derive(Debug, Clone, Copy, PartialEq, Eq, Structural)]
pub struct BlendAttachmentSCI {
    pub blend_enable: bool,
    pub src_color_blend_factor: i32,
    pub dst_color_blend_factor: i32,
    pub color_blend_op: i32,
    pub src_alpha_blend_factor: i32,
    pub dst_alpha_blend_factor: i32,
    pub alpha_blend_op: i32,
    pub color_write_mask: u32,
}

impl BlendAttachmentSCI {
    /// No blending: the source replaces the destination, all channels written.
    pub open spec fn spec_default_ci() -> BlendAttachmentSCI {
        BlendAttachmentSCI {
            blend_enable: false,
            src_color_blend_factor: BLEND_FACTOR_ONE,
            dst_color_blend_factor: BLEND_FACTOR_ZERO,
            color_blend_op: BLEND_OP_ADD,
            src_alpha_blend_factor: BLEND_FACTOR_ONE,
            dst_alpha_blend_factor: BLEND_FACTOR_ZERO,
            alpha_blend_op: BLEND_OP_ADD,
            color_write_mask: COLOR_COMPONENT_RGBA,
        }
    }

    pub fn new() -> (sci: BlendAttachmentSCI)
        ensures
            sci == Self::spec_default_ci(),
    {
        BlendAttachmentSCI {
            blend_enable: false,
            src_color_blend_factor: BLEND_FACTOR_ONE,
            dst_color_blend_factor: BLEND_FACTOR_ZERO,
            color_blend_op: BLEND_OP_ADD,
            src_alpha_blend_factor: BLEND_FACTOR_ONE,
            dst_alpha_blend_factor: BLEND_FACTOR_ZERO,
            alpha_blend_op: BLEND_OP_ADD,
            color_write_mask: COLOR_COMPONENT_RGBA,
        }
    }

    pub fn blend_enable(self, is_enable: bool) -> (sci: BlendAttachmentSCI)
        ensures
            sci == (BlendAttachmentSCI { blend_enable: is_enable, ..self }),
    {
        BlendAttachmentSCI { blend_enable: is_enable, ..self }
    }

    pub fn color(self, op: i32, src_factor: i32, dst_factor: i32) -> (sci: BlendAttachmentSCI)
        ensures
            sci == (BlendAttachmentSCI {
                src_color_blend_factor: src_factor,
                dst_color_blend_factor: dst_factor,
                color_blend_op: op,
                ..self
            }),
    {
        BlendAttachmentSCI { src_color_blend_factor: src_factor, dst_color_blend_factor: dst_factor, color_blend_op: op, ..self }
    }

    pub fn alpha(self, op: i32, src_factor: i32, dst_factor: i32) -> (sci: BlendAttachmentSCI)
        ensures
            sci == (BlendAttachmentSCI {
                src_alpha_blend_factor: src_factor,
                dst_alpha_blend_factor: dst_factor,
                alpha_blend_op: op,
                ..self
            }),
    {
        BlendAttachmentSCI { src_alpha_blend_factor: src_factor, dst_alpha_blend_factor: dst_factor, alpha_blend_op: op, ..self }
    }

    pub fn color_write_mask(self, mask: u32) -> (sci: BlendAttachmentSCI)
        ensures
            sci == (BlendAttachmentSCI { color_write_mask: mask, ..self }),
    {
        BlendAttachmentSCI { color_write_mask: mask, ..self }
    }
}

/// How the colour attachments of a pipeline are blended; the blend constants
/// are kept as the bits of 4-byte floats.
pub struct ColorBlendSCI {
    pub flags: u32,
    pub logic_op_enable: bool,
    pub logic_op: i32,
    pub blend_constants: [u32; 4],
    pub attachments: Vec<BlendAttachmentSCI>,
}

impl ColorBlendSCI {
    pub fn new() -> (sci: ColorBlendSCI)
        ensures
            sci.flags == 0,
            !sci.logic_op_enable,
            sci.logic_op == LOGIC_OP_COPY,
            sci.blend_constants@ == seq![0u32, 0u32, 0u32, 0u32],
            sci.attachments@ == Seq::<BlendAttachmentSCI>::empty(),
    {
        let sci = ColorBlendSCI {
            flags: 0,
            logic_op_enable: false,
            logic_op: LOGIC_OP_COPY,
            blend_constants: [0, 0, 0, 0],
            attachments: Vec::new(),
        };
        assert(sci.blend_constants@ =~= seq![0u32, 0u32, 0u32, 0u32]);
        sci
    }

    pub fn add_attachment(self, attachment: BlendAttachmentSCI) -> (sci: ColorBlendSCI)
        ensures
            sci.flags == self.flags,
            sci.logic_op_enable == self.logic_op_enable,
            sci.logic_op == self.logic_op,
            sci.blend_constants == self.blend_constants,
            sci.attachments@ == self.attachments@.push(attachment),
    {
        let mut attachments = self.attachments;
        attachments.push(attachment);
        ColorBlendSCI {
            flags: self.flags,
            logic_op_enable: self.logic_op_enable,
            logic_op: self.logic_op,
            blend_constants: self.blend_constants,
            attachments,
        }
    }

    pub fn logic_op(self, is_enable: bool, op: i32) -> (sci: ColorBlendSCI)
        ensures
            sci.flags == self.flags,
            sci.logic_op_enable == is_enable,
            sci.logic_op == op,
            sci.blend_constants == self.blend_constants,
            sci.attachments@ == self.attachments@,
    {
        ColorBlendSCI { logic_op_enable: is_enable, logic_op: op, ..self }
    }

    pub fn blend_constants(self, constants: [u32; 4]) -> (sci: ColorBlendSCI)
        ensures
            sci.flags == self.flags,
            sci.logic_op_enable == self.logic_op_enable,
            sci.logic_op == self.logic_op,
            sci.blend_constants == constants,
            sci.attachments@ == self.attachments@,
    {
        ColorBlendSCI { blend_constants: constants, ..self }
    }

    pub fn flags(self, flags: u32) -> (sci: ColorBlendSCI)
        ensures
            sci.flags == flags,
            sci.logic_op_enable == self.logic_op_enable,
            sci.logic_op == self.logic_op,
            sci.blend_constants == self.blend_constants,
            sci.attachments@ == self.attachments@,
    {
        ColorBlendSCI { flags, ..self }
    }
}

/// A viewport, its floats kept as the bits of 4-byte floats.
#[derive(Debug, Clone, Copy, PartialEq, Eq, Structural)]
pub struct Viewport {
    pub x: u32,
    pub y: u32,
    pub width: u32,
    pub height: u32,
    pub min_depth: u32,
    pub max_depth: u32,
}

/// A scissor rectangle.
#[derive(Debug, Clone, Copy, PartialEq, Eq, Structural)]
pub struct Rect2D {
    pub x: i32,
    pub y: i32,
    pub width: u32,
    pub height: u32,
}

/// The viewports and scissors of a pipeline: either given, or only counted
/// when they are set at draw time.
pub struct ViewportSCI {
    pub flags: u32,
    pub viewport_count: u32,
    pub scissor_count: u32,
    pub viewports: Vec<Viewport>,
    pub scissors: Vec<Rect2D>,
}

impl ViewportSCI {
    pub fn new() -> (sci: ViewportSCI)
        ensures
            sci.flags == 0,
            sci.viewport_count == 0,
            sci.scissor_count == 0,
            sci.viewports@ == Seq::<Viewport>::empty(),
            sci.scissors@ == Seq::<Rect2D>::empty(),
    {
        ViewportSCI { flags: 0, viewport_count: 0, scissor_count: 0, viewports: Vec::new(), scissors: Vec::new() }
    }

    /// `count` viewports, set at draw time; the viewports given so far are dropped.
    pub fn with_dynamic_viewport_count(self, count: u32) -> (sci: ViewportSCI)
        ensures
            sci.flags == self.flags,
            sci.viewport_count == count,
            sci.scissor_count == self.scissor_count,
            sci.viewports@ == Seq::<Viewport>::empty(),
            sci.scissors@ == self.scissors@,
    {
        ViewportSCI { viewport_count: count, viewports: Vec::new(), ..self }
    }

    /// `count` scissors, set at draw time; the scissors given so far are dropped.
    pub fn with_dynamic_scissor_count(self, count: u32) -> (sci: ViewportSCI)
        ensures
            sci.flags == self.flags,
            sci.viewport_count == self.viewport_count,
            sci.scissor_count == count,
            sci.viewports@ == self.viewports@,
            sci.scissors@ == Seq::<Rect2D>::empty(),
    {
        ViewportSCI { scissor_count: count, scissors: Vec::new(), ..self }
    }

    /// Adds a viewport; the count becomes the number of viewports given.
    pub fn add_viewport(self, viewport: Viewport) -> (sci: ViewportSCI)
        ensures
            sci.flags == self.flags,
            sci.viewports@ == self.viewports@.push(viewport),
            sci.viewport_count == sci.viewports@.len() as u32,
            sci.scissor_count == self.scissor_count,
            sci.scissors@ == self.scissors@,
    {
        let mut viewports = self.viewports;
        viewports.push(viewport);
        let viewport_count = #[verifier::truncate] (viewports.len() as u32);
        ViewportSCI { flags: self.flags, viewport_count, scissor_count: self.scissor_count, viewports, scissors: self.scissors }
    }

    /// Adds a scissor; the count becomes the number of scissors given.
    pub fn add_scissor(self, scissor: Rect2D) -> (sci: ViewportSCI)
        ensures
            sci.flags == self.flags,
            sci.viewports@ == self.viewports@,
            sci.viewport_count == self.viewport_count,
            sci.scissors@ == self.scissors@.push(scissor),
            sci.scissor_count == sci.scissors@.len() as u32,
    {
        let mut scissors = self.scissors;
        scissors.push(scissor);
        let scissor_count = #[verifier::truncate] (scissors.len() as u32);
        ViewportSCI { flags: self.flags, viewport_count: self.viewport_count, scissor_count, viewports: self.viewports, scissors }
    }

    pub fn flags(self, flags: u32) -> (sci: ViewportSCI)
        ensures
            sci.flags == flags,
            sci.viewport_count == self.viewport_count,
            sci.scissor_count == self.scissor_count,
            sci.viewports@ == self.viewports@,
            sci.scissors@ == self.scissors@,
    {
        ViewportSCI { flags, ..self }
    }
}

/// The stencil test of one face.
#[derive(Debug, Clone, Copy, PartialEq, Eq, Structural)]
pub struct StencilOpState {
    pub fail_op: i32,
    pub pass_op: i32,
    pub depth_fail_op: i32,
    pub compare_op: i32,
    pub compare_mask: u32,
    pub write_mask: u32,
    pub reference: u32,
}

/// The depth and stencil tests of a pipeline; the depth bounds are kept as
/// the bits of 4-byte floats.
#[derive(Debug, Clone, Copy, PartialEq, Eq, Structural)]
pub struct DepthStencilSCI {
    pub flags: u32,
    pub depth_test_enable: bool,
    pub depth_write_enable: bool,
    pub depth_compare_op: i32,
    pub depth_bounds_test_enable: bool,
    pub stencil_test_enable: bool,
    pub front: StencilOpState,
    pub back: StencilOpState,
    pub min_depth_bounds: u32,
    pub max_depth_bounds: u32,
}

impl DepthStencilSCI {
    /// The stencil operations that keep every value and always pass.
    pub open spec fn spec_keep_stencil() -> StencilOpState {
        StencilOpState {
            fail_op: STENCIL_OP_KEEP,
            pass_op: STENCIL_OP_KEEP,
            depth_fail_op: STENCIL_OP_KEEP,
            compare_op: COMPARE_OP_ALWAYS,
            compare_mask: 0,
            write_mask: 0,
            reference: 0,
        }
    }

    /// No depth, bounds or stencil test; depth compared less-or-equal once
    /// tested, within the bounds 0 to 1.
    pub open spec fn spec_default_ci() -> DepthStencilSCI {
        DepthStencilSCI {
            flags: 0,
            depth_test_enable: false,
            depth_write_enable: false,
            depth_compare_op: COMPARE_OP_LESS_OR_EQUAL,
            depth_bounds_test_enable: false,
            stencil_test_enable: false,
            front: Self::spec_keep_stencil(),
            back: Self::spec_keep_stencil(),
            min_depth_bounds: 0,
            max_depth_bounds: FLOAT_ONE_BITS,
        }
    }

    pub fn default_ci() -> (sci: DepthStencilSCI)
        ensures
            sci == Self::spec_default_ci(),
    {
        let stencil_op = StencilOpState {
            fail_op: STENCIL_OP_KEEP,
            pass_op: STENCIL_OP_KEEP,
            depth_fail_op: STENCIL_OP_KEEP,
            compare_op: COMPARE_OP_ALWAYS,
            compare_mask: 0,
            write_mask: 0,
            reference: 0,
        };
        DepthStencilSCI {
            flags: 0,
            depth_test_enable: false,
            depth_write_enable: false,
            depth_compare_op: COMPARE_OP_LESS_OR_EQUAL,
            depth_bounds_test_enable: false,
            stencil_test_enable: false,
            front: stencil_op,
            back: stencil_op,
            min_depth_bounds: 0,
            max_depth_bounds: FLOAT_ONE_BITS,
        }
    }

    pub fn new() -> (sci: DepthStencilSCI)
        ensures
            sci == Self::spec_default_ci(),
    {
        DepthStencilSCI::default_ci()
    }

    pub fn depth_test(self, is_enable_test: bool, is_enable_write: bool, compare_op: i32) -> (sci: DepthStencilSCI)
        ensures
            sci == (DepthStencilSCI {
                depth_test_enable: is_enable_test,
                depth_write_enable: is_enable_write,
                depth_compare_op: compare_op,
                ..self
            }),
    {
        DepthStencilSCI { depth_test_enable: is_enable_test, depth_write_enable: is_enable_write, depth_compare_op: compare_op, ..self }
    }

    pub fn depth_bounds(self, is_enable: bool, min: u32, max: u32) -> (sci: DepthStencilSCI)
        ensures
            sci == (DepthStencilSCI {
                depth_bounds_test_enable: is_enable,
                min_depth_bounds: min,
                max_depth_bounds: max,
                ..self
            }),
    {
        DepthStencilSCI { depth_bounds_test_enable: is_enable, min_depth_bounds: min, max_depth_bounds: max, ..self }
    }

    pub fn stencil(self, is_enable: bool, front: StencilOpState, back: StencilOpState) -> (sci: DepthStencilSCI)
        ensures
            sci == (DepthStencilSCI { stencil_test_enable: is_enable, front, back, ..self }),
    {
        DepthStencilSCI { stencil_test_enable: is_enable, front, back, ..self }
    }

    pub fn flags(self, flags: u32) -> (sci: DepthStencilSCI)
        ensures
            sci == (DepthStencilSCI { flags, ..self }),
    {
        DepthStencilSCI { flags, ..self }
    }
}

/// The multisampling of a pipeline; the minimum sample shading is kept as the
/// bits of a 4-byte float.
#[derive(Debug, Clone, Copy, PartialEq, Eq, Structural)]
pub struct MultisampleSCI {
    pub flags: u32,
    pub rasterization_samples: u32,
    pub sample_shading_enable: bool,
    pub min_sample_shading: u32,
    pub sample_mask: Option<u32>,
    pub alpha_to_coverage_enable: bool,
    pub alpha_to_one_enable: bool,
}

impl MultisampleSCI {
    /// One sample per pixel, no sample shading, mask or alpha conversion.
    pub open spec fn new_spec() -> MultisampleSCI {
        MultisampleSCI {
            flags: 0,
            rasterization_samples: SAMPLE_COUNT_1,
            sample_shading_enable: false,
            min_sample_shading: 0,
            sample_mask: None,
            alpha_to_coverage_enable: false,
            alpha_to_one_enable: false,
        }
    }

    pub fn new() -> (sci: MultisampleSCI)
        ensures
            sci == Self::new_spec(),
    {
        MultisampleSCI {
            flags: 0,
            rasterization_samples: SAMPLE_COUNT_1,
            sample_shading_enable: false,
            min_sample_shading: 0,
            sample_mask: None,
            alpha_to_coverage_enable: false,
            alpha_to_one_enable: false,
        }
    }

    pub fn sample_count(self, count: u32) -> (sci: MultisampleSCI)
        ensures
            sci == (MultisampleSCI { rasterization_samples: count, ..self }),
    {
        MultisampleSCI { rasterization_samples: count, ..self }
    }

    pub fn sample_shading(self, is_enable: bool, min: u32) -> (sci: MultisampleSCI)
        ensures
            sci == (MultisampleSCI { sample_shading_enable: is_enable, min_sample_shading: min, ..self }),
    {
        MultisampleSCI { sample_shading_enable: is_enable, min_sample_shading: min, ..self }
    }

    pub fn sample_mask(self, mask: u32) -> (sci: MultisampleSCI)
        ensures
            sci == (MultisampleSCI { sample_mask: Some(mask), ..self }),
    {
        MultisampleSCI { sample_mask: Some(mask), ..self }
    }

    pub fn alpha(self, is_enable_alpha2coverage: bool, is_enable_alpha2one: bool) -> (sci: MultisampleSCI)
        ensures
            sci == (MultisampleSCI {
                alpha_to_coverage_enable: is_enable_alpha2coverage,
                alpha_to_one_enable: is_enable_alpha2one,
                ..self
            }),
    {
        MultisampleSCI { alpha_to_coverage_enable: is_enable_alpha2coverage, alpha_to_one_enable: is_enable_alpha2one, ..self }
    }

    pub fn flags(self, flags: u32) -> (sci: MultisampleSCI)
        ensures
            sci == (MultisampleSCI { flags, ..self }),
    {
        MultisampleSCI { flags, ..self }
    }
}

/// The states of a pipeline that are set at draw time.
pub struct DynamicSCI {
    pub flags: u32,
    pub dynamics: Vec<i32>,
}

impl DynamicSCI {
    pub fn new() -> (sci: DynamicSCI)
        ensures
            sci.flags == 0,
            sci.dynamics@ == Seq::<i32>::empty(),
    {
        DynamicSCI { flags: 0, dynamics: Vec::new() }
    }

    pub fn add_dynamic(self, state: i32) -> (sci: DynamicSCI)
        ensures
            sci.flags == self.flags,
            sci.dynamics@ == self.dynamics@.push(state),
    {
        let mut dynamics = self.dynamics;
        dynamics.push(state);
        DynamicSCI { flags: self.flags, dynamics }
    }

    pub fn flags(self, flags: u32) -> (sci: DynamicSCI)
        ensures
            sci.flags == flags,
            sci.dynamics@ == self.dynamics@,
    {
        DynamicSCI { flags, dynamics: self.dynamics }
    }
}

} // verus!
