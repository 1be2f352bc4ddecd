pub mod renderpass;
pub mod state;

use vstd::prelude::*;

use crate::ci::pipeline::state::{
    ColorBlendSCI, DepthStencilSCI, DynamicSCI, InputAssemblySCI, MultisampleSCI, RasterizationSCI,
    VertexInputSCI, ViewportSCI, LOGIC_OP_COPY,
};
use crate::ci::shader::ShaderStageCI;

verus! {

/// A range of push constants.
#[derive(Debug, Clone, Copy, PartialEq, Eq, Structural)]
pub struct PushConstantRange {
    pub stage_flags: u32,
    pub offset: u32,
    pub size: u32,
}

/// The descriptor set layouts and push constants of a pipeline layout.
pub struct PipelineLayoutCI {
    pub flags: u32,
    pub set_layouts: Vec<u64>,
    pub push_constants: Vec<PushConstantRange>,
}

impl PipelineLayoutCI {
    pub fn new() -> (ci: PipelineLayoutCI)
        ensures
            ci.flags == 0,
            ci.set_layouts@ == Seq::<u64>::empty(),
            ci.push_constants@ == Seq::<PushConstantRange>::empty(),
    {
        PipelineLayoutCI { flags: 0, set_layouts: Vec::new(), push_constants: Vec::new() }
    }

    pub fn add_set_layout(self, set_layout: u64) -> (ci: PipelineLayoutCI)
        ensures
            ci.flags == self.flags,
            ci.set_layouts@ == self.set_layouts@.push(set_layout),
            ci.push_constants@ == self.push_constants@,
    {
        let mut set_layouts = self.set_layouts;
        set_layouts.push(set_layout);
        PipelineLayoutCI { set_layouts, ..self }
    }

    pub fn add_push_constants(self, range: PushConstantRange) -> (ci: PipelineLayoutCI)
        ensures
            ci.flags == self.flags,
            ci.set_layouts@ == self.set_layouts@,
            ci.push_constants@ == self.push_constants@.push(range),
    {
        let mut push_constants = self.push_constants;
        push_constants.push(range);
        PipelineLayoutCI { push_constants, ..self }
    }

    pub fn flags(self, flags: u32) -> (ci: PipelineLayoutCI)
        ensures
            ci.flags == flags,
            ci.set_layouts@ == self.set_layouts@,
            ci.push_constants@ == self.push_constants@,
    {
        PipelineLayoutCI { flags, ..self }
    }
}

/// The attachments and size of a framebuffer.
pub struct FramebufferCI {
    pub flags: u32,
    pub render_pass: u64,
    pub width: u32,
    pub height: u32,
    pub layers: u32,
    pub attachments: Vec<u64>,
}

impl FramebufferCI {
    /// A framebuffer for `render_pass` whose width, height and layers are the
    /// width, height and depth of `dimension`.
    pub fn new(render_pass: u64, width: u32, height: u32, depth: u32) -> (ci: FramebufferCI)
        ensures
            ci.flags == 0,
            ci.render_pass == render_pass,
            ci.width == width && ci.height == height && ci.layers == depth,
            ci.attachments@ == Seq::<u64>::empty(),
    {
        FramebufferCI { flags: 0, render_pass, width, height, layers: depth, attachments: Vec::new() }
    }

    /// A framebuffer of one layer.
    pub fn new_2d(render_pass: u64, width: u32, height: u32) -> (ci: FramebufferCI)
        ensures
            ci.flags == 0,
            ci.render_pass == render_pass,
            ci.width == width && ci.height == height && ci.layers == 1,
            ci.attachments@ == Seq::<u64>::empty(),
    {
        FramebufferCI::new(render_pass, width, height, 1)
    }

    pub fn add_attachment(self, attachment: u64) -> (ci: FramebufferCI)
        ensures
            ci.flags == self.flags,
            ci.render_pass == self.render_pass,
            ci.width == self.width && ci.height == self.height && ci.layers == self.layers,
            ci.attachments@ == self.attachments@.push(attachment),
    {
        let mut attachments = self.attachments;
        attachments.push(attachment);
        FramebufferCI { attachments, ..self }
    }

    pub fn flags(self, flags: u32) -> (ci: FramebufferCI)
        ensures
            ci.flags == flags,
            ci.render_pass == self.render_pass,
            ci.width == self.width && ci.height == self.height && ci.layers == self.layers,
            ci.attachments@ == self.attachments@,
    {
        FramebufferCI { flags, ..self }
    }
}

/// The settings of a pipeline cache: an empty cache.
#[derive(Debug, Clone, Copy, PartialEq, Eq, Structural)]
pub struct PipelineCacheCI {
    pub flags: u32,
}

impl PipelineCacheCI {
    pub fn new() -> (ci: PipelineCacheCI)
        ensures
            ci.flags == 0,
    {
        PipelineCacheCI { flags: 0 }
    }

    pub fn flags(self, flags: u32) -> (ci: PipelineCacheCI)
        ensures
            ci.flags == flags,
    {
        PipelineCacheCI { flags }
    }
}

/// The settings of a graphics pipeline that are not one of its states.
#[derive(Debug, Clone, Copy, PartialEq, Eq, Structural)]
pub struct GraphicsPipelineInfo {
    pub flags: u32,
    pub render_pass: u64,
    pub layout: u64,
    pub subpass: u32,
    pub base_pipeline_handle: u64,
    pub base_pipeline_index: i32,
}

/// A graphics pipeline: its settings, its shader stages, each of its states
/// and the cache it is built with, if not the device's.
pub struct GraphicsPipelineCI {
    pub info: GraphicsPipelineInfo,
    pub shader_stages: Vec<ShaderStageCI>,
    pub vertex_input: VertexInputSCI,
    pub input_assembly: InputAssemblySCI,
    pub rasterization: RasterizationSCI,
    pub color_blend: ColorBlendSCI,
    pub viewport: ViewportSCI,
    pub depth_stencil: DepthStencilSCI,
    pub multisample: MultisampleSCI,
    pub dynamics: DynamicSCI,
    pub cache: Option<u64>,
}

impl GraphicsPipelineCI {
    /// A pipeline for `pass` with layout `pipeline_layout`, on subpass 0,
    /// derived from no pipeline, with every state at its default.
    pub fn new(pass: u64, pipeline_layout: u64) -> (ci: GraphicsPipelineCI)
        ensures
            ci.info == (GraphicsPipelineInfo {
                flags: 0,
                render_pass: pass,
                layout: pipeline_layout,
                subpass: 0,
                base_pipeline_handle: 0,
                base_pipeline_index: -1i32,
            }),
            ci.shader_stages@.len() == 0,
            ci.vertex_input.flags == 0,
            ci.vertex_input.attributes@.len() == 0 && ci.vertex_input.bindings@.len() == 0,
            ci.input_assembly == InputAssemblySCI::new_spec(),
            ci.rasterization == RasterizationSCI::spec_default_ci(),
            ci.color_blend.flags == 0,
            !ci.color_blend.logic_op_enable,
            ci.color_blend.logic_op == LOGIC_OP_COPY,
            ci.color_blend.blend_constants@ == seq![0u32, 0u32, 0u32, 0u32],
            ci.color_blend.attachments@.len() == 0,
            ci.viewport.flags == 0 && ci.viewport.viewport_count == 0 && ci.viewport.scissor_count == 0,
            ci.viewport.viewports@.len() == 0 && ci.viewport.scissors@.len() == 0,
            ci.depth_stencil == DepthStencilSCI::spec_default_ci(),
            ci.multisample == MultisampleSCI::new_spec(),
            ci.dynamics.flags == 0,
            ci.dynamics.dynamics@.len() == 0,
            ci.cache.is_none(),
    {
        GraphicsPipelineCI {
            info: GraphicsPipelineInfo {
                flags: 0,
                render_pass: pass,
                layout: pipeline_layout,
                subpass: 0,
                base_pipeline_handle: 0,
                base_pipeline_index: -1,
            },
            shader_stages: Vec::new(),
            vertex_input: VertexInputSCI::new(),
            input_assembly: InputAssemblySCI::new(),
            rasterization: RasterizationSCI::new(),
            color_blend: ColorBlendSCI::new(),
            viewport: ViewportSCI::new(),
            depth_stencil: DepthStencilSCI::new(),
            multisample: MultisampleSCI::new(),
            dynamics: DynamicSCI::new(),
            cache: None,
        }
    }

    pub fn set_use_subpass(&mut self, subpass: u32)
        ensures
            *final(self) == (GraphicsPipelineCI { info: GraphicsPipelineInfo { subpass, ..old(self).info }, ..*old(self) }),
    {
        self.info = GraphicsPipelineInfo { subpass, ..self.info };
    }

    pub fn set_base_pipeline(&mut self, pipeline: u64)
        ensures
            *final(self) == (GraphicsPipelineCI {
                info: GraphicsPipelineInfo { base_pipeline_handle: pipeline, ..old(self).info },
                ..*old(self)
            }),
    {
        self.info = GraphicsPipelineInfo { base_pipeline_handle: pipeline, ..self.info };
    }

    pub fn set_flags(&mut self, flags: u32)
        ensures
            *final(self) == (GraphicsPipelineCI { info: GraphicsPipelineInfo { flags, ..old(self).info }, ..*old(self) }),
    {
        self.info = GraphicsPipelineInfo { flags, ..self.info };
    }

    pub fn set_shaders(&mut self, cis: Vec<ShaderStageCI>)
        ensures
            *final(self) == (GraphicsPipelineCI { shader_stages: cis, ..*old(self) }),
    {
        self.shader_stages = cis;
    }

    pub fn set_vertex_input(&mut self, sci: VertexInputSCI)
        ensures
            *final(self) == (GraphicsPipelineCI { vertex_input: sci, ..*old(self) }),
    {
        self.vertex_input = sci;
    }

    pub fn set_input_assembly(&mut self, sci: InputAssemblySCI)
        ensures
            *final(self) == (GraphicsPipelineCI { input_assembly: sci, ..*old(self) }),
    {
        self.input_assembly = sci;
    }

    pub fn set_rasterization(&mut self, sci: RasterizationSCI)
        ensures
            *final(self) == (GraphicsPipelineCI { rasterization: sci, ..*old(self) }),
    {
        self.rasterization = sci;
    }

    pub fn set_color_blend(&mut self, sci: ColorBlendSCI)
        ensures
            *final(self) == (GraphicsPipelineCI { color_blend: sci, ..*old(self) }),
    {
        self.color_blend = sci;
    }

    pub fn set_viewport(&mut self, sci: ViewportSCI)
        ensures
            *final(self) == (GraphicsPipelineCI { viewport: sci, ..*old(self) }),
    {
        self.viewport = sci;
    }

    pub fn set_depth_stencil(&mut self, sci: DepthStencilSCI)
        ensures
            *final(self) == (GraphicsPipelineCI { depth_stencil: sci, ..*old(self) }),
    {
        self.depth_stencil = sci;
    }

    pub fn set_multisample(&mut self, sci: MultisampleSCI)
        ensures
            *final(self) == (GraphicsPipelineCI { multisample: sci, ..*old(self) }),
    {
        self.multisample = sci;
    }

    pub fn set_dynamic(&mut self, sci: DynamicSCI)
        ensures
            *final(self) == (GraphicsPipelineCI { dynamics: sci, ..*old(self) }),
    {
        self.dynamics = sci;
    }

    pub fn set_pipeline_cache(&mut self, cache: u64)
        ensures
            *final(self) == (GraphicsPipelineCI { cache: Some(cache), ..*old(self) }),
    {
        self.cache = Some(cache);
    }

    /// The cache the pipeline is built with: its own, else the device's.
    pub fn build_cache(&self, device_cache: u64) -> (cache: u64)
        ensures
            cache == (match self.cache {
                Some(c) => c,
                None => device_cache,
            }),
    {
        match self.cache {
            Some(c) => c,
            None => device_cache,
        }
    }
}

} // verus!
