use vkbase::ci::pipeline::state::{VertexInputAttribute, VertexInputBinding};
use vkbase::ci::vma::MemoryUsage;
use vkbase::error::VkError;
use vkbase::gltf::asset::AssetElementList;
use vkbase::gltf::attributes::{AttributeExtendInfo, AttributeFlags, AttributesData};
use vkbase::gltf::indices::{get_index, get_indices_range, IndexAccessor, IndicesData, IndicesExtendInfo, JsonValue};
use vkbase::gltf::material::{MaterialAsset, MaterialSource, MATERIAL_SIZE};
use vkbase::gltf::mesh::{Mesh, MeshAsset, MeshData};
use vkbase::gltf::nodes::{attachment_buffer_size, Node, NodeAsset, NodeAttachmentFlags, NodeAttachments, NodeVisit};
use vkbase::gltf::primitive::{translate_draw_mode, DrawMode, Primitive, PrimitiveData, RenderParams};
use vkbase::gltf::scene::{select_scene, Scene};

fn bound(n: u64) -> Option<JsonValue> {
    Some(JsonValue::Array(vec![JsonValue::Unsigned(n)]))
}

fn accessor(min: u64, max: u64) -> Option<IndexAccessor> {
    Some(IndexAccessor { min: bound(min), max: bound(max) })
}

fn default_material_bytes() -> Vec<u8> {
    bincode::serialize(&([1.0f32; 4], [0.0f32; 3], 1.0f32)).unwrap()
}

#[test]
fn asset_list_reads_back_what_was_pushed() {
    let mut list: AssetElementList<&str> = AssetElementList::new();
    list.push(7, "seven");
    list.push(2, "two");
    assert_eq!(*list.get(7), "seven");
    assert_eq!(*list.get(2), "two");
    list.push(7, "again");
    assert_eq!(*list.get(7), "again");
    assert_eq!(*list.get(2), "two");
}

#[test]
fn default_material_serializes_to_one_material() {
    assert_eq!(default_material_bytes().len(), MATERIAL_SIZE);
}

#[test]
fn material_store_reads_back_materials() {
    let default = default_material_bytes();
    let mut asset = MaterialAsset::new(default.clone()).unwrap();
    assert_eq!(asset.material_size(), 32);
    assert_eq!(asset.get_material_serialized(&None), &default[..]);

    let red: Vec<u8> = (0..32u8).collect();
    let blue: Vec<u8> = (100..132u8).collect();
    let sources = vec![
        MaterialSource { index: Some(0), data: red.clone() },
        MaterialSource { index: None, data: vec![1, 2, 3] },
        MaterialSource { index: Some(3), data: blue.clone() },
    ];
    assert_eq!(asset.read_doc(&sources), Ok(()));
    assert_eq!(asset.get_material_serialized(&Some(0)), &red[..]);
    assert_eq!(asset.get_material_serialized(&Some(3)), &blue[..]);
    // an index without a material, and no index, give the default material.
    assert_eq!(asset.get_material_serialized(&Some(1)), &default[..]);
    assert_eq!(asset.get_material_serialized(&None), &default[..]);
}

#[test]
fn material_of_wrong_size_is_refused() {
    assert_eq!(
        MaterialAsset::new(vec![0u8; 31]).err(),
        Some(VkError::Custom("serialized material has the wrong size"))
    );
    let mut asset = MaterialAsset::new(default_material_bytes()).unwrap();
    let sources = vec![
        MaterialSource { index: Some(0), data: vec![9u8; 32] },
        MaterialSource { index: Some(1), data: vec![9u8; 33] },
    ];
    assert_eq!(asset.read_doc(&sources), Err(VkError::Custom("serialized material has the wrong size")));
    // nothing was added.
    assert_eq!(asset.get_material_serialized(&Some(0)), &default_material_bytes()[..]);
}

#[test]
fn index_bounds() {
    assert_eq!(get_index(&bound(5)), Ok(5));
    assert_eq!(
        get_index(&None),
        Err(VkError::Custom("Invalid or missing min/max property for indices property."))
    );
    assert_eq!(
        get_index(&Some(JsonValue::Array(vec![]))),
        Err(VkError::Custom("Invalid or missing min/max property for indices property."))
    );
    assert_eq!(
        get_index(&Some(JsonValue::Array(vec![JsonValue::Other, JsonValue::Unsigned(1)]))),
        Err(VkError::Custom("Invalid or missing min/max property for indices property."))
    );
    assert_eq!(
        get_index(&Some(JsonValue::Unsigned(3))),
        Err(VkError::Custom("Invalid or missing min/max property for indices property."))
    );
    assert_eq!(get_indices_range(&accessor(2, 9)), Ok(8));
    assert_eq!(
        get_indices_range(&None),
        Err(VkError::Custom("Failed to get indices property of glTF::Primitive"))
    );
}

#[test]
fn indices_are_shifted_by_the_vertices_before_them() {
    let mut indices = IndicesData::new();
    assert_eq!(indices.buffer_size_estimated(), None);
    let info = indices.extend(&accessor(0, 3), &Some(vec![0, 1, 2, 2, 3, 0])).unwrap();
    assert_eq!(info, IndicesExtendInfo { first_index: 0, indices_count: 6 });
    let info = indices.extend(&accessor(0, 2), &Some(vec![0, 1, 2])).unwrap();
    assert_eq!(info, IndicesExtendInfo { first_index: 4, indices_count: 3 });
    assert_eq!(indices.data(), &[0, 1, 2, 2, 3, 0, 4, 5, 6]);
    assert_eq!(indices.buffer_size_estimated(), Some(36));
    assert_eq!(
        indices.extend(&accessor(0, 2), &None),
        Err(VkError::Custom("Missing indices property in glTF primitive."))
    );
    assert_eq!(indices.data().len(), 9);
}

#[test]
fn attribute_flags_vertex_sizes() {
    assert_eq!(AttributeFlags::attr_p().vertex_size(), Some(12));
    assert_eq!(AttributeFlags::attr_pn().vertex_size(), Some(24));
    assert_eq!(AttributeFlags::attr_pte0().vertex_size(), Some(20));
    assert_eq!(AttributeFlags::attr_pnte0().vertex_size(), Some(32));
    assert_eq!(AttributeFlags::attr_all().vertex_size(), Some(96));
    assert_eq!(AttributeFlags::normal().vertex_size(), None);
    assert_eq!(AttributeFlags::position() | AttributeFlags::normal(), AttributeFlags::attr_pn());
    assert_eq!(AttributeFlags::attr_pnte0() & AttributeFlags::texcoord_0(), AttributeFlags::texcoord_0());
    assert_eq!(
        AttributesData::try_from(AttributeFlags::tangent()).err(),
        Some(VkError::Unimplemented("Primitive attributes combination"))
    );
}

#[test]
fn vertices_are_counted_by_the_first_attribute() {
    let mut attributes = AttributesData::try_from(AttributeFlags::attr_pn()).unwrap();
    assert_eq!(attributes.vertex_size(), 24);
    let info = attributes.extend(&vec![Some(4), Some(4)]);
    assert_eq!(info, AttributeExtendInfo { first_vertex: 0, vertex_count: 4 });
    let info = attributes.extend(&vec![None, Some(3)]);
    assert_eq!(info, AttributeExtendInfo { first_vertex: 4, vertex_count: 3 });
    let info = attributes.extend(&vec![Some(0), Some(2)]);
    assert_eq!(info, AttributeExtendInfo { first_vertex: 7, vertex_count: 2 });
    assert_eq!(attributes.length(), 9);
    assert_eq!(attributes.buffer_size_estimated(), 9 * 24);
}

#[test]
fn draw_mode_names() {
    assert_eq!(translate_draw_mode(DrawMode::Points), "Points");
    assert_eq!(translate_draw_mode(DrawMode::LineLoop), "LineLoop");
    assert_eq!(translate_draw_mode(DrawMode::TriangleFan), "TriangleFan");
}

fn triangles(counts: Vec<Option<usize>>, indices: Option<IndexAccessor>, values: Option<Vec<u32>>, material: Option<usize>) -> PrimitiveData {
    PrimitiveData { mode: DrawMode::Triangles, attribute_counts: counts, indices, index_values: values, material }
}

#[test]
fn primitives_read_their_draw_calls() {
    let mut attributes = AttributesData::try_from(AttributeFlags::attr_p()).unwrap();
    let mut indices = IndicesData::new();

    let drawn = triangles(vec![Some(3)], None, None, Some(1));
    let p = Primitive::from_doc(&drawn, &mut attributes, &mut indices).unwrap();
    assert_eq!(p, Primitive { params: RenderParams::DrawArray { vertex_count: 3, first_vertex: 0 }, material: Some(1) });

    let indexed = triangles(vec![Some(4)], accessor(0, 3), Some(vec![0, 1, 2, 0, 2, 3]), None);
    let p = Primitive::from_doc(&indexed, &mut attributes, &mut indices).unwrap();
    assert_eq!(p, Primitive { params: RenderParams::DrawIndex { index_count: 6, first_index: 0 }, material: None });

    let lines = PrimitiveData { mode: DrawMode::Lines, ..triangles(vec![Some(2)], None, None, None) };
    assert_eq!(
        Primitive::from_doc(&lines, &mut attributes, &mut indices),
        Err(VkError::UnsupportedRenderMode("Lines"))
    );
    assert_eq!(attributes.length(), 7);
}

#[test]
fn mesh_reads_primitives_in_order() {
    let mut attributes = AttributesData::try_from(AttributeFlags::attr_p()).unwrap();
    let mut indices = IndicesData::new();
    let prims = vec![
        triangles(vec![Some(3)], None, None, None),
        triangles(vec![Some(3)], None, None, Some(0)),
    ];
    let mesh = Mesh::from_doc(&prims, &mut attributes, &mut indices).unwrap();
    assert_eq!(
        mesh.primitives_list(),
        &[
            Primitive { params: RenderParams::DrawArray { vertex_count: 3, first_vertex: 0 }, material: None },
            Primitive { params: RenderParams::DrawArray { vertex_count: 3, first_vertex: 3 }, material: Some(0) },
        ]
    );
}

#[test]
fn mesh_asset_stops_at_first_error() {
    let mut asset = MeshAsset::try_from(AttributeFlags::attr_p()).unwrap();
    let meshes = vec![
        MeshData { index: 0, primitives: vec![triangles(vec![Some(3)], None, None, None)] },
        MeshData { index: 1, primitives: vec![PrimitiveData { mode: DrawMode::Points, ..triangles(vec![Some(1)], None, None, None) }] },
        MeshData { index: 2, primitives: vec![triangles(vec![Some(3)], None, None, None)] },
    ];
    assert_eq!(asset.read_doc(&meshes), Err(VkError::UnsupportedRenderMode("Points")));
    assert_eq!(asset.attributes().length(), 3);
    assert_eq!(asset.list().get(0).primitives_list().len(), 1);
    assert_eq!(
        MeshAsset::try_from(AttributeFlags::none()).err(),
        Some(VkError::Unimplemented("Primitive attributes combination"))
    );
}

#[test]
fn scene_selection() {
    assert_eq!(select_scene(Some(2), 3), Ok(2));
    assert_eq!(select_scene(None, 3), Ok(0));
    assert_eq!(select_scene(None, 0), Err(VkError::Custom("glTF Scene is missing.")));
    let scene = Scene::from_doc(vec![4, 1]);
    assert_eq!(scene.nodes(), &[4, 1]);
}

#[test]
fn node_attachment_slots() {
    assert_eq!(NodeAttachmentFlags::naf_t().element_size(), Some(64));
    assert_eq!(NodeAttachmentFlags::none().element_size(), None);
    assert_eq!(
        NodeAttachments::try_from(NodeAttachmentFlags::none()).err(),
        Some(VkError::Unimplemented("Node property combination"))
    );
    let mut attachments = NodeAttachments::try_from(NodeAttachmentFlags::transform_matrix()).unwrap();
    assert_eq!(attachments.extend(5), 0);
    assert_eq!(attachments.extend(9), 1);
    assert_eq!(attachments.position(9), Some(1));
    assert_eq!(attachments.position(5), Some(0));
    assert_eq!(attachments.position(1), None);
    assert_eq!(attachments.length(), 2);
    assert_eq!(attachment_buffer_size(attachments.element_size(), 256, attachments.length()), (256, 512));
    assert!(NodeAsset::try_from(NodeAttachmentFlags::naf_t()).is_ok());
}

#[test]
fn index_buffer_ci_holds_the_index_bytes() {
    let mut indices = IndicesData::new();
    assert!(indices.buffer_ci().is_none());
    indices.extend(&accessor(0, 3), &Some(vec![0, 1, 2, 2, 3, 0])).unwrap();
    let ci = indices.buffer_ci().unwrap();
    assert_eq!(ci.info.size, 24);
    assert_eq!(ci.info.usage, 0);
    assert!(ci.queue_families.is_empty());
}

#[test]
fn vertex_input_of_attribute_combinations() {
    let data = AttributesData::try_from(AttributeFlags::attr_pnte0()).unwrap();
    assert_eq!(data.attribute_flags(), AttributeFlags::attr_pnte0());
    let sci = data.input_descriptions();
    assert_eq!(sci.bindings, vec![VertexInputBinding { binding: 0, stride: 32, input_rate: 0 }]);
    assert_eq!(
        sci.attributes,
        vec![
            VertexInputAttribute { location: 0, binding: 0, format: 106, offset: 0 },
            VertexInputAttribute { location: 1, binding: 0, format: 106, offset: 12 },
            VertexInputAttribute { location: 2, binding: 0, format: 103, offset: 24 },
        ]
    );
    let all = AttributesData::try_from(AttributeFlags::attr_all()).unwrap().input_descriptions();
    assert_eq!(all.bindings[0].stride, 96);
    let offsets: Vec<u32> = all.attributes.iter().map(|a| a.offset).collect();
    assert_eq!(offsets, vec![0, 12, 24, 40, 48, 56, 72, 80]);
    let locations: Vec<u32> = all.attributes.iter().map(|a| a.location).collect();
    assert_eq!(locations, vec![0, 1, 2, 3, 4, 5, 6, 7]);
    assert_eq!(all.attributes[6].format, 91);
}

fn node(json_index: usize, mesh: Option<usize>, children: Vec<usize>) -> Node {
    Node::from_doc(None, json_index, mesh, children)
}

#[test]
fn scene_walk_visits_parents_before_children() {
    let mut asset = NodeAsset::try_from(NodeAttachmentFlags::naf_t()).unwrap();
    asset.nodes.push(0, node(0, Some(0), vec![1, 2]));
    asset.nodes.push(1, node(1, None, vec![3]));
    asset.nodes.push(2, node(2, Some(1), vec![]));
    asset.nodes.push(3, node(3, Some(0), vec![]));
    asset.nodes.push(4, node(4, Some(2), vec![]));
    let scene = Scene::from_doc(vec![0, 4]);
    let visits = scene.read_node_attachment(&asset.nodes, &mut asset.attachments).unwrap();
    assert_eq!(
        visits,
        vec![
            NodeVisit { json_index: 0, parent: None },
            NodeVisit { json_index: 1, parent: Some(0) },
            NodeVisit { json_index: 3, parent: Some(1) },
            NodeVisit { json_index: 2, parent: Some(0) },
            NodeVisit { json_index: 4, parent: None },
        ]
    );
    assert_eq!(asset.attachments.length(), 4);
    assert_eq!(asset.attachments.position(0), Some(0));
    assert_eq!(asset.attachments.position(3), Some(1));
    assert_eq!(asset.attachments.position(2), Some(2));
    assert_eq!(asset.attachments.position(4), Some(3));
    assert_eq!(asset.attachments.position(1), None);
}

#[test]
fn scene_walk_refuses_cycles_and_missing_nodes() {
    let mut asset = NodeAsset::try_from(NodeAttachmentFlags::naf_t()).unwrap();
    asset.nodes.push(0, node(0, Some(0), vec![1]));
    asset.nodes.push(1, node(1, Some(1), vec![0]));
    let broken = Err(VkError::Custom("Broken glTF node hierarchy."));
    assert_eq!(Scene::from_doc(vec![0]).read_node_attachment(&asset.nodes, &mut asset.attachments), broken);
    assert_eq!(asset.attachments.length(), 0);
    assert_eq!(Scene::from_doc(vec![7]).read_node_attachment(&asset.nodes, &mut asset.attachments), broken);
    let mut asset = NodeAsset::try_from(NodeAttachmentFlags::naf_t()).unwrap();
    asset.nodes.push(0, node(0, None, vec![5]));
    assert_eq!(Scene::from_doc(vec![0]).read_node_attachment(&asset.nodes, &mut asset.attachments), broken);
}

#[test]
fn mesh_buffers_hold_vertex_and_index_data() {
    let mut asset = MeshAsset::try_from(AttributeFlags::attr_pn()).unwrap();
    let meshes = vec![MeshData {
        index: 0,
        primitives: vec![triangles(vec![Some(4), Some(4)], accessor(0, 3), Some(vec![0, 1, 2, 0, 2, 3]), None)],
    }];
    asset.read_doc(&meshes).unwrap();
    let requests = asset.buffer_requests();
    assert_eq!(requests.vertices.buffer.info.size, 4 * 24);
    assert_eq!(requests.vertices.buffer.info.usage, 0x80 | 0x2);
    assert_eq!(requests.vertices.allocation.usage, MemoryUsage::GpuOnly);
    assert_eq!(requests.vertices.allocation.required_flags, 0x1);
    assert_eq!(requests.staging_vertices.buffer.info.size, 4 * 24);
    assert_eq!(requests.staging_vertices.buffer.info.usage, 0x1);
    assert_eq!(requests.staging_vertices.allocation.usage, MemoryUsage::CpuToGpu);
    assert_eq!(requests.staging_vertices.allocation.required_flags, 0x2 | 0x4);
    let indices = requests.indices.unwrap();
    assert_eq!(indices.buffer.info.size, 6 * 4);
    assert_eq!(indices.buffer.info.usage, 0x40 | 0x2);
    assert_eq!(requests.staging_indices.unwrap().buffer.info.usage, 0x1);

    let mut plain = MeshAsset::try_from(AttributeFlags::attr_p()).unwrap();
    plain.read_doc(&vec![MeshData { index: 0, primitives: vec![triangles(vec![Some(3)], None, None, None)] }]).unwrap();
    let requests = plain.buffer_requests();
    assert_eq!(requests.vertices.buffer.info.size, 36);
    assert!(requests.indices.is_none() && requests.staging_indices.is_none());
}

#[test]
fn node_buffer_holds_aligned_slots() {
    let mut asset = NodeAsset::try_from(NodeAttachmentFlags::naf_t()).unwrap();
    asset.nodes.push(0, node(0, Some(0), vec![1]));
    asset.nodes.push(1, node(1, Some(0), vec![]));
    Scene::from_doc(vec![0]).read_node_attachment(&asset.nodes, &mut asset.attachments).unwrap();
    let (slot, device, staging) = asset.buffer_requests(256);
    assert_eq!(slot, 256);
    assert_eq!(device.buffer.info.size, 512);
    assert_eq!(device.buffer.info.usage, 0x10 | 0x2);
    assert_eq!(device.allocation.usage, MemoryUsage::GpuOnly);
    assert_eq!(staging.buffer.info.size, 512);
    assert_eq!(staging.allocation.usage, MemoryUsage::CpuToGpu);
    let (slot, device, _) = asset.buffer_requests(16);
    assert_eq!((slot, device.buffer.info.size), (64, 128));
}

#[test]
fn unsupported_primitives_leave_the_stores() {
    let mut attributes = AttributesData::try_from(AttributeFlags::attr_pn()).unwrap();
    let mut indices = IndicesData::new();
    let strip = PrimitiveData { mode: DrawMode::TriangleStrip, ..triangles(vec![Some(3), Some(3)], None, None, None) };
    assert_eq!(
        Primitive::from_doc(&strip, &mut attributes, &mut indices),
        Err(VkError::UnsupportedRenderMode("TriangleStrip"))
    );
    assert_eq!(attributes.length(), 0);
    assert_eq!(attributes.attribute_flags(), AttributeFlags::attr_pn());
    assert!(indices.data().is_empty());
}
