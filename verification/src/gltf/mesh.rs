use vstd::prelude::*;

use crate::ci::buffer::{BUFFER_USAGE_INDEX_BUFFER, BUFFER_USAGE_VERTEX_BUFFER};
use crate::ci::vma::{device_buffer_request, spec_upload_requests, staging_buffer_request, BufferRequest};
use crate::error::{VkError, VkResult};
use crate::gltf::asset::AssetElementList;
use crate::gltf::attributes::{AttributeFlags, AttributesData};
use crate::gltf::indices::IndicesData;
use crate::gltf::primitive::{
    spec_primitive_ok, spec_read_primitive, spec_read_state, MeshReadState, Primitive, PrimitiveData,
};

verus! {

/// The primitives read from `ps` in order, starting at `st`, or the first
/// error, and the state where reading stopped.
pub open spec fn spec_read_mesh(st: MeshReadState, ps: Seq<PrimitiveData>) -> (Result<Seq<Primitive>, VkError>, MeshReadState)
    decreases ps.len(),
{
    if ps.len() == 0 {
        (Ok(Seq::empty()), st)
    } else {
        let (before, st1) = spec_read_mesh(st, ps.drop_last());
        match before {
            Err(e) => (Err(e), st1),
            Ok(prims) => {
                let (r, st2) = spec_read_primitive(st1, ps.last());
                match r {
                    Err(e) => (Err(e), st2),
                    Ok(p) => (Ok(prims.push(p)), st2),
                }
            },
        }
    }
}

/// Each primitive that is reached reads without overflow.
pub open spec fn spec_mesh_ok(st: MeshReadState, ps: Seq<PrimitiveData>) -> bool
    decreases ps.len(),
{
    if ps.len() == 0 {
        true
    } else {
        let (before, st1) = spec_read_mesh(st, ps.drop_last());
        &&& spec_mesh_ok(st, ps.drop_last())
        &&& before is Ok ==> spec_primitive_ok(st1, ps.last())
    }
}

/// A glTF mesh: its primitives.
pub struct Mesh {
    primitives: Vec<Primitive>,
}

impl Mesh {
    pub closed spec fn primitives(&self) -> Seq<Primitive> {
        self.primitives@
    }

    /// The primitives, in the order they were read.
    pub fn primitives_list(&self) -> (ps: &[Primitive])
        ensures
            ps@ == self.primitives(),
    {
        self.primitives.as_slice()
    }

    /// Reads the primitives of one glTF mesh in order, stopping at the first error.
    pub fn from_doc(doc_primitives: &Vec<PrimitiveData>, attributes: &mut AttributesData, indices: &mut IndicesData) -> (result:
        VkResult<Mesh>)
        requires
            old(indices).wf(),
            spec_mesh_ok(spec_read_state(*old(attributes), *old(indices)), doc_primitives@),
        ensures
            final(indices).wf(),
            final(attributes).size() == old(attributes).size(),
            final(attributes).flags() == old(attributes).flags(),
            final(attributes).wf() == old(attributes).wf(),
            ({
                let (r, st) = spec_read_mesh(spec_read_state(*old(attributes), *old(indices)), doc_primitives@);
                &&& spec_read_state(*final(attributes), *final(indices)) == st
                &&& match r {
                    Ok(ps) => result matches Ok(mesh) && mesh.primitives() == ps,
                    Err(e) => result == Err::<Mesh, VkError>(e),
                }
            }),
    {
        let ghost start = spec_read_state(*attributes, *indices);
        let mut primitives: Vec<Primitive> = Vec::new();
        let n = doc_primitives.len();
        for k in 0..n
            invariant
                n == doc_primitives@.len(),
                indices.wf(),
                attributes.size() == old(attributes).size(),
                attributes.flags() == old(attributes).flags(),
                attributes.wf() == old(attributes).wf(),
                start == spec_read_state(*old(attributes), *old(indices)),
                spec_mesh_ok(start, doc_primitives@),
                spec_read_mesh(start, doc_primitives@.take(k as int)) == (
                    Ok::<Seq<Primitive>, VkError>(primitives@),
                    spec_read_state(*attributes, *indices),
                ),
        {
            proof {
                lemma_mesh_ok_prefix(start, doc_primitives@, k as int + 1);
                assert(doc_primitives@.take(k + 1).drop_last() =~= doc_primitives@.take(k as int));
                assert(doc_primitives@.take(k + 1).last() == doc_primitives@[k as int]);
            }
            let primitive = match Primitive::from_doc(&doc_primitives[k], attributes, indices) {
                Ok(p) => p,
                Err(e) => {
                    proof {
                        lemma_read_mesh_stops(start, doc_primitives@, k as int + 1);
                    }
                    return Err(e);
                },
            };
            primitives.push(primitive);
        }
        assert(doc_primitives@.take(n as int) =~= doc_primitives@);
        Ok(Mesh { primitives })
    }
}

/// Every prefix of a list of primitives that reads without overflow does too.
pub proof fn lemma_mesh_ok_prefix(st: MeshReadState, ps: Seq<PrimitiveData>, k: int)
    requires
        0 <= k <= ps.len(),
        spec_mesh_ok(st, ps),
    ensures
        spec_mesh_ok(st, ps.take(k)),
    decreases ps.len(),
{
    if k < ps.len() {
        lemma_mesh_ok_prefix(st, ps.drop_last(), k);
        assert(ps.drop_last().take(k) =~= ps.take(k));
    } else {
        assert(ps.take(k) =~= ps);
    }
}

/// Once reading a prefix fails, reading the whole list fails with the same
/// error and stops in the same state.
pub proof fn lemma_read_mesh_stops(st: MeshReadState, ps: Seq<PrimitiveData>, k: int)
    requires
        0 <= k <= ps.len(),
        spec_read_mesh(st, ps.take(k)).0 is Err,
    ensures
        spec_read_mesh(st, ps) == spec_read_mesh(st, ps.take(k)),
    decreases ps.len(),
{
    if k < ps.len() {
        assert(ps.drop_last().take(k) =~= ps.take(k));
        lemma_read_mesh_stops(st, ps.drop_last(), k);
    } else {
        assert(ps.take(k) =~= ps);
    }
}

/// A glTF mesh as the model loader reads it: its index in the document and its primitives.
pub struct MeshData {
    pub index: usize,
    pub primitives: Vec<PrimitiveData>,
}

/// The meshes read from `ms` in order, starting at `st`: the primitives of each
/// by document index, later meshes taking the place of earlier ones with the
/// same index, or the first error; and the state where reading stopped.
pub open spec fn spec_read_meshes(st: MeshReadState, ms: Seq<MeshData>) -> (Result<Map<usize, Seq<Primitive>>, VkError>, MeshReadState)
    decreases ms.len(),
{
    if ms.len() == 0 {
        (Ok(Map::empty()), st)
    } else {
        let (before, st1) = spec_read_meshes(st, ms.drop_last());
        match before {
            Err(e) => (Err(e), st1),
            Ok(read) => {
                let (r, st2) = spec_read_mesh(st1, ms.last().primitives@);
                match r {
                    Err(e) => (Err(e), st2),
                    Ok(ps) => (Ok(read.insert(ms.last().index, ps)), st2),
                }
            },
        }
    }
}

/// Each mesh that is reached reads without overflow.
pub open spec fn spec_meshes_ok(st: MeshReadState, ms: Seq<MeshData>) -> bool
    decreases ms.len(),
{
    if ms.len() == 0 {
        true
    } else {
        let (before, st1) = spec_read_meshes(st, ms.drop_last());
        &&& spec_meshes_ok(st, ms.drop_last())
        &&& before is Ok ==> spec_mesh_ok(st1, ms.last().primitives@)
    }
}

/// The meshes of a model with their shared vertex and index data.
pub struct MeshAsset {
    attributes: AttributesData,
    indices: IndicesData,
    meshes: AssetElementList<Mesh>,
}

impl MeshAsset {
    pub closed spec fn wf(&self) -> bool {
        self.indices.wf() && self.meshes.wf()
    }

    /// The vertex and index data read so far.
    pub closed spec fn read_state(&self) -> MeshReadState {
        spec_read_state(self.attributes, self.indices)
    }

    /// The primitives of each mesh, by document index.
    pub closed spec fn meshes(&self) -> Map<usize, Seq<Primitive>> {
        self.meshes.elements().map_values(|m: Mesh| m.primitives())
    }

    /// How many meshes were stored.
    pub closed spec fn stored(&self) -> nat {
        self.meshes.stored()
    }

    /// The size in bytes of one vertex.
    pub closed spec fn vertex_size(&self) -> u64 {
        self.attributes.size()
    }

    /// The vertex attributes that are read.
    pub closed spec fn attribute_flags(&self) -> AttributeFlags {
        self.attributes.flags()
    }

    /// An empty mesh store for the attribute combination `flag`.
    pub fn try_from(flag: AttributeFlags) -> (result: VkResult<MeshAsset>)
        ensures
            match AttributeFlags::spec_vertex_size(flag.bits()) {
                Some(size) => result matches Ok(asset) && {
                    &&& asset.wf()
                    &&& asset.vertex_size() == size
                    &&& asset.attribute_flags() == flag
                    &&& asset.read_state() == (MeshReadState { vertices: 0, index_start: 0, indices: Seq::empty() })
                    &&& asset.meshes() == Map::<usize, Seq<Primitive>>::empty()
                    &&& asset.stored() == 0
                },
                None => result == Err::<MeshAsset, VkError>(VkError::Unimplemented("Primitive attributes combination")),
            },
    {
        let attributes = match AttributesData::try_from(flag) {
            Ok(a) => a,
            Err(e) => {
                return Err(e);
            },
        };
        let result = MeshAsset { attributes, indices: IndicesData::new(), meshes: AssetElementList::new() };
        assert(result.meshes() =~= Map::<usize, Seq<Primitive>>::empty());
        Ok(result)
    }

    /// Reads the meshes of a document in order, stopping at the first error.
    pub fn read_doc(&mut self, doc_meshes: &Vec<MeshData>) -> (result: VkResult<()>)
        requires
            old(self).wf(),
            old(self).stored() + doc_meshes@.len() <= usize::MAX,
            spec_meshes_ok(old(self).read_state(), doc_meshes@),
        ensures
            final(self).wf(),
            final(self).vertex_size() == old(self).vertex_size(),
            final(self).attribute_flags() == old(self).attribute_flags(),
            ({
                let (r, st) = spec_read_meshes(old(self).read_state(), doc_meshes@);
                &&& final(self).read_state() == st
                &&& match r {
                    Ok(read) => result is Ok && final(self).meshes() == old(self).meshes().union_prefer_right(read),
                    Err(e) => result == Err::<(), VkError>(e),
                }
            }),
    {
        let ghost start = self.read_state();
        let ghost meshes0 = self.meshes();
        let n = doc_meshes.len();
        for k in 0..n
            invariant
                n == doc_meshes@.len(),
                self.wf(),
                self.vertex_size() == old(self).vertex_size(),
                self.attribute_flags() == old(self).attribute_flags(),
                start == old(self).read_state(),
                meshes0 == old(self).meshes(),
                self.stored() == old(self).stored() + k,
                old(self).stored() + n <= usize::MAX,
                spec_meshes_ok(start, doc_meshes@),
                spec_read_meshes(start, doc_meshes@.take(k as int)).0 is Ok,
                spec_read_meshes(start, doc_meshes@.take(k as int)).1 == self.read_state(),
                self.meshes() == meshes0.union_prefer_right(spec_read_meshes(start, doc_meshes@.take(k as int)).0->Ok_0),
        {
            proof {
                lemma_meshes_ok_prefix(start, doc_meshes@, k as int + 1);
                assert(doc_meshes@.take(k + 1).drop_last() =~= doc_meshes@.take(k as int));
                assert(doc_meshes@.take(k + 1).last() == doc_meshes@[k as int]);
            }
            let json_index = doc_meshes[k].index;
            let mesh = match Mesh::from_doc(&doc_meshes[k].primitives, &mut self.attributes, &mut self.indices) {
                Ok(m) => m,
                Err(e) => {
                    proof {
                        lemma_read_meshes_stops(start, doc_meshes@, k as int + 1);
                    }
                    return Err(e);
                },
            };
            let ghost before = self.meshes();
            let ghost ps = mesh.primitives();
            self.meshes.push(json_index, mesh);
            proof {
                let read = spec_read_meshes(start, doc_meshes@.take(k as int)).0->Ok_0;
                assert(self.meshes() =~= before.insert(json_index, ps));
                assert(meshes0.union_prefer_right(read.insert(json_index, ps)) =~= meshes0.union_prefer_right(read).insert(json_index, ps));
            }
        }
        assert(doc_meshes@.take(n as int) =~= doc_meshes@);
        Ok(())
    }

    /// The vertex counts of the meshes read so far.
    pub fn attributes(&self) -> (attributes: &AttributesData)
        ensures
            attributes.vertices() == self.read_state().vertices,
            attributes.size() == self.vertex_size(),
            attributes.flags() == self.attribute_flags(),
    {
        &self.attributes
    }

    /// The index data of the meshes read so far.
    pub fn indices(&self) -> (indices: &IndicesData)
        ensures
            indices.start() == self.read_state().index_start,
            indices.content() == self.read_state().indices,
            self.wf() ==> indices.wf(),
    {
        &self.indices
    }

    /// The meshes read so far.
    pub fn list(&self) -> (list: &AssetElementList<Mesh>)
        ensures
            list.elements().map_values(|m: Mesh| m.primitives()) == self.meshes(),
            list.stored() == self.stored(),
            self.wf() ==> list.wf(),
    {
        &self.meshes
    }
}

/// The buffers that hold the meshes on the device, and the staging buffers
/// that their data is written to first; there are index buffers once a run
/// of indices was read.
pub struct MeshBufferRequests {
    pub vertices: BufferRequest,
    pub staging_vertices: BufferRequest,
    pub indices: Option<BufferRequest>,
    pub staging_indices: Option<BufferRequest>,
}

impl MeshAsset {
    /// The buffers to allocate for the meshes read so far: vertex buffers of
    /// the size of the vertex data, and index buffers of that of the index
    /// data where indices were read. There must be vertices, and the indices
    /// read must not be empty.
    pub fn buffer_requests(&self) -> (requests: MeshBufferRequests)
        requires
            self.wf(),
            0 < self.read_state().vertices * self.vertex_size() <= u64::MAX,
            self.read_state().index_start > 0 ==> self.read_state().indices.len() > 0,
        ensures
            spec_upload_requests(
                requests.vertices,
                requests.staging_vertices,
                (self.read_state().vertices * self.vertex_size()) as u64,
                BUFFER_USAGE_VERTEX_BUFFER,
            ),
            requests.indices is Some == (self.read_state().index_start > 0),
            requests.staging_indices is Some == (self.read_state().index_start > 0),
            self.read_state().index_start > 0 ==> spec_upload_requests(
                requests.indices->Some_0,
                requests.staging_indices->Some_0,
                (self.read_state().indices.len() * 4) as u64,
                BUFFER_USAGE_INDEX_BUFFER,
            ),
    {
        let vertex_size = self.attributes.buffer_size_estimated();
        let vertices = device_buffer_request(vertex_size, BUFFER_USAGE_VERTEX_BUFFER);
        let staging_vertices = staging_buffer_request(vertex_size);
        let (indices, staging_indices) = match self.indices.buffer_size_estimated() {
            Some(index_size) => (
                Some(device_buffer_request(index_size, BUFFER_USAGE_INDEX_BUFFER)),
                Some(staging_buffer_request(index_size)),
            ),
            None => (None, None),
        };
        MeshBufferRequests { vertices, staging_vertices, indices, staging_indices }
    }
}

/// Every prefix of a list of meshes that reads without overflow does too.
pub proof fn lemma_meshes_ok_prefix(st: MeshReadState, ms: Seq<MeshData>, k: int)
    requires
        0 <= k <= ms.len(),
        spec_meshes_ok(st, ms),
    ensures
        spec_meshes_ok(st, ms.take(k)),
    decreases ms.len(),
{
    if k < ms.len() {
        assert(ms.drop_last().take(k) =~= ms.take(k));
        lemma_meshes_ok_prefix(st, ms.drop_last(), k);
    } else {
        assert(ms.take(k) =~= ms);
    }
}

/// Once reading a prefix of the meshes fails, reading them all fails the same way.
pub proof fn lemma_read_meshes_stops(st: MeshReadState, ms: Seq<MeshData>, k: int)
    requires
        0 <= k <= ms.len(),
        spec_read_meshes(st, ms.take(k)).0 is Err,
    ensures
        spec_read_meshes(st, ms) == spec_read_meshes(st, ms.take(k)),
    decreases ms.len(),
{
    if k < ms.len() {
        assert(ms.drop_last().take(k) =~= ms.take(k));
        lemma_read_meshes_stops(st, ms.drop_last(), k);
    } else {
        assert(ms.take(k) =~= ms);
    }
}

} // verus!
