use vstd::prelude::*;

use crate::error::{VkError, VkResult};
use crate::gltf::attributes::{spec_counts_fit, spec_read_vertices, AttributesData};
use crate::gltf::indices::{
    spec_bounds_ordered, spec_indices_range, spec_shifted, IndexAccessor, IndicesData,
};

verus! {

/// How the vertices of a glTF primitive are assembled.
#[derive(Debug, Clone, Copy, PartialEq, Eq, Structural)]
pub enum DrawMode {
    Points,
    Lines,
    LineLoop,
    LineStrip,
    Triangles,
    TriangleStrip,
    TriangleFan,
}

/// The name of a draw mode.
pub open spec fn spec_draw_mode_name(mode: DrawMode) -> &'static str {
    match mode {
        DrawMode::Points => "Points",
        DrawMode::Lines => "Lines",
        DrawMode::LineLoop => "LineLoop",
        DrawMode::LineStrip => "LineStrip",
        DrawMode::Triangles => "Triangles",
        DrawMode::TriangleStrip => "TriangleStrip",
        DrawMode::TriangleFan => "TriangleFan",
    }
}

pub fn translate_draw_mode(from: DrawMode) -> (name: &'static str)
    ensures
        name == spec_draw_mode_name(from),
{
    match from {
        DrawMode::Points => "Points",
        DrawMode::Lines => "Lines",
        DrawMode::LineLoop => "LineLoop",
        DrawMode::LineStrip => "LineStrip",
        DrawMode::Triangles => "Triangles",
        DrawMode::TriangleStrip => "TriangleStrip",
        DrawMode::TriangleFan => "TriangleFan",
    }
}

/// The draw call of a primitive.
#[derive(Debug, Clone, Copy, PartialEq, Eq, Structural)]
pub enum RenderParams {
    DrawArray { vertex_count: u32, first_vertex: u32 },
    DrawIndex { index_count: u32, first_index: u32 },
}

/// A glTF primitive, as far as the model loader reads it: its draw mode, for
/// each vertex attribute of the layout in order how many values it has, its
/// index accessor and indices, and its material.
pub struct PrimitiveData {
    pub mode: DrawMode,
    pub attribute_counts: Vec<Option<usize>>,
    pub indices: Option<IndexAccessor>,
    pub index_values: Option<Vec<u32>>,
    pub material: Option<usize>,
}

/// A primitive of a mesh: how to draw it and which material it uses.
#[derive(Debug, Clone, Copy, PartialEq, Eq, Structural)]
pub struct Primitive {
    pub params: RenderParams,
    pub material: Option<usize>,
}

/// What reading primitives has built up so far: the number of vertices, the
/// vertex offset of the next run of indices, and the indices.
pub struct MeshReadState {
    pub vertices: nat,
    pub index_start: u32,
    pub indices: Seq<u32>,
}

/// The read state of a vertex store and an index store.
pub open spec fn spec_read_state(attributes: AttributesData, indices: IndicesData) -> MeshReadState {
    MeshReadState { vertices: attributes.vertices(), index_start: indices.start(), indices: indices.content() }
}

/// Reading `p` from `st` does not overflow: triangles only are read, their
/// attribute counts fit, and the vertex and index numbers stay in range.
pub open spec fn spec_primitive_ok(st: MeshReadState, p: PrimitiveData) -> bool {
    p.mode == DrawMode::Triangles ==> {
        &&& spec_counts_fit(p.attribute_counts@)
        &&& st.vertices + spec_read_vertices(p.attribute_counts@) <= usize::MAX
        &&& p.indices is Some ==> {
            &&& spec_bounds_ordered(p.indices)
            &&& spec_indices_range(p.indices) is Ok && p.index_values.is_some() ==> {
                &&& st.index_start + (spec_indices_range(p.indices)->Ok_0 as u32) <= u32::MAX
                &&& forall|i: int| 0 <= i < p.index_values.unwrap()@.len() ==> #[trigger] p.index_values.unwrap()@[i] + st.index_start <= u32::MAX
                &&& (st.indices.len() + p.index_values.unwrap()@.len()) * 4 <= usize::MAX
            }
        }
    }
}

/// The primitive read from `p` at state `st`, or the error, and the state after.
pub open spec fn spec_read_primitive(st: MeshReadState, p: PrimitiveData) -> (Result<Primitive, VkError>, MeshReadState) {
    if p.mode != DrawMode::Triangles {
        (Err(VkError::UnsupportedRenderMode(spec_draw_mode_name(p.mode))), st)
    } else {
        let count = spec_read_vertices(p.attribute_counts@);
        let st1 = MeshReadState { vertices: st.vertices + count, ..st };
        match p.indices {
            None => (
                Ok(Primitive {
                    params: RenderParams::DrawArray {
                        vertex_count: count as u32,
                        first_vertex: st.vertices as u32,
                    },
                    material: p.material,
                }),
                st1,
            ),
            Some(_) => match spec_indices_range(p.indices) {
                Err(e) => (Err(e), st1),
                Ok(range) => match p.index_values {
                    None => (Err(VkError::Custom("Missing indices property in glTF primitive.")), st1),
                    Some(vs) => (
                        Ok(Primitive {
                            params: RenderParams::DrawIndex {
                                index_count: vs@.len() as u32,
                                first_index: st.index_start,
                            },
                            material: p.material,
                        }),
                        MeshReadState {
                            index_start: (st.index_start + (range as u32)) as u32,
                            indices: st.indices + spec_shifted(vs@, st.index_start),
                            ..st1
                        },
                    ),
                },
            },
        }
    }
}

impl Primitive {
    /// Reads one glTF primitive: its vertices go to `attributes`, its indices, if
    /// it has any, to `indices`. Only triangle lists are supported.
    pub fn from_doc(doc_primitive: &PrimitiveData, attributes: &mut AttributesData, indices: &mut IndicesData) -> (result:
        VkResult<Primitive>)
        requires
            old(indices).wf(),
            spec_primitive_ok(spec_read_state(*old(attributes), *old(indices)), *doc_primitive),
        ensures
            final(indices).wf(),
            final(attributes).size() == old(attributes).size(),
            final(attributes).flags() == old(attributes).flags(),
            final(attributes).wf() == old(attributes).wf(),
            doc_primitive.mode != DrawMode::Triangles ==> *final(attributes) == *old(attributes) && *final(indices)
                == *old(indices),
            (result, spec_read_state(*final(attributes), *final(indices))) == spec_read_primitive(
                spec_read_state(*old(attributes), *old(indices)),
                *doc_primitive,
            ),
    {
        if doc_primitive.mode != DrawMode::Triangles {
            // only triangle lists are supported.
            return Err(VkError::UnsupportedRenderMode(translate_draw_mode(doc_primitive.mode)));
        }
        // read the vertex attributes of the primitive.
        let attribute_info = attributes.extend(&doc_primitive.attribute_counts);
        let render_params = match &doc_primitive.indices {
            None => {
                // the primitive is drawn from its vertices.
                RenderParams::DrawArray {
                    first_vertex: attribute_info.first_vertex as u32,
                    vertex_count: attribute_info.vertex_count as u32,
                }
            },
            Some(_) => {
                // the primitive is drawn from its indices.
                let indices_info = match indices.extend(&doc_primitive.indices, &doc_primitive.index_values) {
                    Ok(info) => info,
                    Err(e) => {
                        return Err(e);
                    },
                };
                RenderParams::DrawIndex {
                    first_index: indices_info.first_index,
                    index_count: indices_info.indices_count,
                }
            },
        };
        Ok(Primitive { params: render_params, material: doc_primitive.material })
    }
}

} // verus!
