use vstd::prelude::*;

use core::ops::{BitAnd, BitOr};
use std::collections::HashMap;
use vstd::std_specs::ops::{BitAndSpecImpl, BitOrSpecImpl};

use crate::ci::buffer::BUFFER_USAGE_UNIFORM_BUFFER;
use crate::ci::vma::{device_buffer_request, spec_upload_requests, staging_buffer_request, BufferRequest};
use crate::error::{VkError, VkResult};
use crate::gltf::asset::AssetElementList;
use crate::utils::memory::{spec_align_up, IntegerAlignable};

verus! {

broadcast use vstd::std_specs::hash::group_hash_axioms;

/// Which properties of the glTF nodes are uploaded for each node with a mesh.
#[derive(Debug, Clone, Copy, PartialEq, Eq, Structural)]
pub struct NodeAttachmentFlags(pub u32);

impl NodeAttachmentFlags {
    pub open spec fn bits(self) -> u32 {
        self.0
    }

    pub fn none() -> (flags: NodeAttachmentFlags)
        ensures
            flags.bits() == 0b0,
    {
        NodeAttachmentFlags(0b0)
    }

    pub fn transform_matrix() -> (flags: NodeAttachmentFlags)
        ensures
            flags.bits() == 0b1,
    {
        NodeAttachmentFlags(0b1)
    }

    /// The transform matrix alone.
    pub fn naf_t() -> (flags: NodeAttachmentFlags)
        ensures
            flags.bits() == 0b1,
    {
        NodeAttachmentFlags(0b1)
    }

    /// The size in bytes of the attachment of one node, for a supported
    /// combination: the transform alone is a 4 by 4 matrix of 4-byte floats.
    pub open spec fn spec_element_size(bits: u32) -> Option<u64> {
        if bits == 0b1 {
            Some(64)
        } else {
            None
        }
    }

    pub fn element_size(&self) -> (size: Option<u64>)
        ensures
            size == Self::spec_element_size(self.bits()),
    {
        if self.0 == 0b1 {
            Some(64)
        } else {
            None
        }
    }
}

impl BitAnd for NodeAttachmentFlags {
    type Output = Self;

    fn bitand(self, rhs: Self) -> (flags: Self) {
        NodeAttachmentFlags(self.0 & rhs.0)
    }
}

impl BitAndSpecImpl for NodeAttachmentFlags {
    open spec fn obeys_bitand_spec() -> bool {
        true
    }

    open spec fn bitand_req(self, rhs: Self) -> bool {
        true
    }

    open spec fn bitand_spec(self, rhs: Self) -> Self {
        NodeAttachmentFlags(self.0 & rhs.0)
    }
}

impl BitOr for NodeAttachmentFlags {
    type Output = Self;

    fn bitor(self, rhs: Self) -> (flags: Self) {
        NodeAttachmentFlags(self.0 | rhs.0)
    }
}

impl BitOrSpecImpl for NodeAttachmentFlags {
    open spec fn obeys_bitor_spec() -> bool {
        true
    }

    open spec fn bitor_req(self, rhs: Self) -> bool {
        true
    }

    open spec fn bitor_spec(self, rhs: Self) -> Self {
        NodeAttachmentFlags(self.0 | rhs.0)
    }
}

/// Where the attachment of each node with a mesh is stored: one slot per
/// node, in the order the nodes are visited.
pub struct NodeAttachments {
    element_size: u64,
    length: usize,
    attachments_mapping: HashMap<usize, usize>,
}

impl NodeAttachments {
    pub closed spec fn wf(&self) -> bool {
        forall|r: usize| #[trigger] self.attachments_mapping@.contains_key(r) ==> self.attachments_mapping@[r] < self.length
    }

    /// The size in bytes of one attachment slot, before alignment.
    pub closed spec fn size(&self) -> u64 {
        self.element_size
    }

    /// The number of slots taken.
    pub closed spec fn slots(&self) -> nat {
        self.length as nat
    }

    /// The slot of each node, by document index.
    pub closed spec fn mapping(&self) -> Map<usize, usize> {
        self.attachments_mapping@
    }

    /// An empty attachment store for the property combination `flags`.
    pub fn try_from(flags: NodeAttachmentFlags) -> (result: VkResult<NodeAttachments>)
        ensures
            match NodeAttachmentFlags::spec_element_size(flags.bits()) {
                Some(size) => result matches Ok(a) && {
                    &&& a.wf()
                    &&& a.size() == size
                    &&& a.slots() == 0
                    &&& a.mapping() == Map::<usize, usize>::empty()
                },
                None => result == Err::<NodeAttachments, VkError>(VkError::Unimplemented("Node property combination")),
            },
    {
        match flags.element_size() {
            Some(element_size) => Ok(NodeAttachments { element_size, length: 0, attachments_mapping: HashMap::new() }),
            None => Err(VkError::Unimplemented("Node property combination")),
        }
    }

    /// Takes the next slot for the node at document index `node_index`, and returns it.
    pub fn extend(&mut self, node_index: usize) -> (position: usize)
        requires
            old(self).wf(),
            old(self).slots() < usize::MAX,
        ensures
            final(self).wf(),
            position == old(self).slots(),
            final(self).slots() == old(self).slots() + 1,
            final(self).size() == old(self).size(),
            final(self).mapping() == old(self).mapping().insert(node_index, position),
    {
        let position = self.length;
        self.length = self.length + 1;
        self.attachments_mapping.insert(node_index, position);
        proof {
            assert forall|r: usize| #[trigger] self.attachments_mapping@.contains_key(r) implies self.attachments_mapping@[r]
                < self.length by {
                if r != node_index {
                    assert(old(self).attachments_mapping@.contains_key(r));
                }
            }
        }
        position
    }

    /// The slot of the node at document index `node_index`.
    pub fn position(&self, node_index: usize) -> (position: Option<usize>)
        ensures
            position == (if self.mapping().contains_key(node_index) {
                Some(self.mapping()[node_index])
            } else {
                None::<usize>
            }),
    {
        match self.attachments_mapping.get(&node_index) {
            Some(p) => Some(*p),
            None => None,
        }
    }

    pub fn element_size(&self) -> (size: u64)
        ensures
            size == self.size(),
    {
        self.element_size
    }

    pub fn length(&self) -> (n: usize)
        ensures
            n == self.slots(),
    {
        self.length
    }
}

/// The size of one attachment slot aligned to `min_alignment`, and the size
/// of the buffer that holds `count` such slots.
pub fn attachment_buffer_size(element_size: u64, min_alignment: u64, count: usize) -> (sizes: (u64, u64))
    requires
        element_size.spec_can_align(min_alignment),
        spec_align_up(element_size as int, min_alignment as int) * count <= u64::MAX,
    ensures
        sizes.0 == spec_align_up(element_size as int, min_alignment as int),
        sizes.1 == sizes.0 * count,
{
    let aligned = element_size.align_to(min_alignment);
    (aligned, aligned * (count as u64))
}

/// A glTF node as the model loader reads it: its document index, its name,
/// the mesh it draws and its children.
pub struct Node {
    pub name: Option<String>,
    pub json_index: usize,
    pub local_mesh: Option<usize>,
    pub children: Vec<usize>,
}

impl Node {
    pub fn from_doc(name: Option<String>, json_index: usize, local_mesh: Option<usize>, children: Vec<usize>) -> (node: Node)
        ensures
            node.name == name,
            node.json_index == json_index,
            node.local_mesh == local_mesh,
            node.children@ == children@,
    {
        Node { name, json_index, local_mesh, children }
    }
}

/// The nodes of a model and the attachment slots of those with a mesh.
pub struct NodeAsset {
    pub attachments: NodeAttachments,
    pub nodes: AssetElementList<Node>,
}

impl NodeAsset {
    /// An empty node store for the property combination `flag`.
    pub fn try_from(flag: NodeAttachmentFlags) -> (result: VkResult<NodeAsset>)
        ensures
            match NodeAttachmentFlags::spec_element_size(flag.bits()) {
                Some(size) => result matches Ok(asset) && {
                    &&& asset.attachments.wf()
                    &&& asset.attachments.size() == size
                    &&& asset.attachments.slots() == 0
                    &&& asset.nodes.wf()
                    &&& asset.nodes.elements() == Map::<usize, Node>::empty()
                    &&& asset.nodes.stored() == 0
                },
                None => result == Err::<NodeAsset, VkError>(VkError::Unimplemented("Node property combination")),
            },
    {
        let attachments = match NodeAttachments::try_from(flag) {
            Ok(a) => a,
            Err(e) => {
                return Err(e);
            },
        };
        Ok(NodeAsset { attachments, nodes: AssetElementList::new() })
    }

    /// The uniform buffer that holds one slot per node attachment, each slot
    /// aligned to `min_alignment`, with its staging buffer; and the aligned
    /// size of a slot. There must be some slot.
    pub fn buffer_requests(&self, min_alignment: u64) -> (requests: (u64, BufferRequest, BufferRequest))
        requires
            self.attachments.size().spec_can_align(min_alignment),
            0 < spec_align_up(self.attachments.size() as int, min_alignment as int) * self.attachments.slots()
                <= u64::MAX,
        ensures
            requests.0 == spec_align_up(self.attachments.size() as int, min_alignment as int),
            spec_upload_requests(
                requests.1,
                requests.2,
                (requests.0 * self.attachments.slots()) as u64,
                BUFFER_USAGE_UNIFORM_BUFFER,
            ),
    {
        let (aligned, size) = attachment_buffer_size(
            self.attachments.element_size(),
            min_alignment,
            self.attachments.length(),
        );
        (aligned, device_buffer_request(size, BUFFER_USAGE_UNIFORM_BUFFER), staging_buffer_request(size))
    }
}

/// One visit of a node while the hierarchy is walked from the roots of a scene.
#[derive(Debug, Clone, Copy, PartialEq, Eq, Structural)]
pub struct NodeVisit {
    /// The document index of the visited node.
    pub json_index: usize,
    /// The index, among the visits, of the visit of its parent; `None` for a root.
    pub parent: Option<usize>,
}

/// The visits of node `n` and of everything below it: the node first, then
/// its children in order, each with all below it. `start` is the index of the
/// visit of `n` among all visits, `parent` that of its parent. `None` where a
/// node is not stored, or a path from `n` down holds more than `fuel` nodes.
pub open spec fn spec_visit_node(
    nodes: Map<usize, Node>,
    n: usize,
    parent: Option<usize>,
    start: nat,
    fuel: nat,
) -> Option<Seq<NodeVisit>>
    decreases fuel, 0nat,
{
    if !nodes.contains_key(n) || fuel == 0 {
        None
    } else {
        match spec_visit_nodes(nodes, nodes[n].children@, Some(start as usize), start + 1, (fuel - 1) as nat) {
            Some(below) => Some(seq![NodeVisit { json_index: n, parent }] + below),
            None => None,
        }
    }
}

/// The visits of the nodes `ns` in order, each with everything below it, all
/// with the same parent; the first visit has index `start`.
pub open spec fn spec_visit_nodes(
    nodes: Map<usize, Node>,
    ns: Seq<usize>,
    parent: Option<usize>,
    start: nat,
    fuel: nat,
) -> Option<Seq<NodeVisit>>
    decreases fuel, ns.len() + 1,
{
    if ns.len() == 0 {
        Some(Seq::empty())
    } else {
        match spec_visit_node(nodes, ns[0], parent, start, fuel) {
            Some(first) => match spec_visit_nodes(nodes, ns.drop_first(), parent, start + first.len(), fuel) {
                Some(rest) => Some(first + rest),
                None => None,
            },
            None => None,
        }
    }
}

/// The slot map and the number of slots after the nodes with a mesh among
/// `visits` each took the next slot, in visit order, starting from `mapping`
/// with `length` slots taken.
pub open spec fn spec_assign_slots(
    nodes: Map<usize, Node>,
    visits: Seq<NodeVisit>,
    mapping: Map<usize, usize>,
    length: nat,
) -> (Map<usize, usize>, nat)
    decreases visits.len(),
{
    if visits.len() == 0 {
        (mapping, length)
    } else {
        let (m, l) = spec_assign_slots(nodes, visits.drop_last(), mapping, length);
        let v = visits.last();
        if nodes[v.json_index].local_mesh is Some {
            (m.insert(v.json_index, l as usize), l + 1)
        } else {
            (m, l)
        }
    }
}

/// Visits node `n` and everything below it, appending the visits to `visits`.
fn visit_node(
    nodes: &AssetElementList<Node>,
    n: usize,
    parent: Option<usize>,
    fuel: usize,
    visits: &mut Vec<NodeVisit>,
) -> (found: bool)
    requires
        nodes.wf(),
    ensures
        match spec_visit_node(nodes.elements(), n, parent, old(visits)@.len(), fuel as nat) {
            Some(vs) => found && final(visits)@ == old(visits)@ + vs,
            None => !found,
        },
    decreases fuel, 0nat,
{
    if fuel == 0 || !nodes.contains(n) {
        return false;
    }
    let start = visits.len();
    visits.push(NodeVisit { json_index: n, parent });
    let node = nodes.get(n);
    let found = visit_nodes(nodes, &node.children, 0, Some(start), fuel - 1, visits);
    proof {
        let below = spec_visit_nodes(nodes.elements(), node.children@, Some(start), (start + 1) as nat, (fuel - 1) as nat);
        assert(node.children@.subrange(0, node.children@.len() as int) =~= node.children@);
        if let Some(b) = below {
            assert(final(visits)@ =~= old(visits)@ + (seq![NodeVisit { json_index: n, parent }] + b));
        }
    }
    found
}

/// Visits the nodes `ns[i..]` in order, each with everything below it.
pub(crate) fn visit_nodes(
    nodes: &AssetElementList<Node>,
    ns: &Vec<usize>,
    i: usize,
    parent: Option<usize>,
    fuel: usize,
    visits: &mut Vec<NodeVisit>,
) -> (found: bool)
    requires
        nodes.wf(),
        i <= ns@.len(),
    ensures
        match spec_visit_nodes(nodes.elements(), ns@.subrange(i as int, ns@.len() as int), parent, old(visits)@.len(), fuel as nat) {
            Some(vs) => found && final(visits)@ == old(visits)@ + vs,
            None => !found,
        },
    decreases fuel, ns@.len() - i + 1,
{
    let ghost rest = ns@.subrange(i as int, ns@.len() as int);
    if i == ns.len() {
        return true;
    }
    assert(rest[0] == ns@[i as int]);
    assert(rest.drop_first() =~= ns@.subrange(i + 1, ns@.len() as int));
    let ghost before = visits@;
    if !visit_node(nodes, ns[i], parent, fuel, visits) {
        return false;
    }
    let ghost mid = visits@;
    let found = visit_nodes(nodes, ns, i + 1, parent, fuel, visits);
    proof {
        let first = spec_visit_node(nodes.elements(), ns@[i as int], parent, before.len(), fuel as nat);
        if let Some(f) = first {
            assert(mid.len() == before.len() + f.len());
            let tail = spec_visit_nodes(nodes.elements(), rest.drop_first(), parent, before.len() + f.len(), fuel as nat);
            if let Some(t) = tail {
                assert(visits@ =~= before + (f + t));
            }
        }
    }
    found
}

/// Every visit is of a stored node.
pub(crate) proof fn lemma_visit_node_stored(nodes: Map<usize, Node>, n: usize, parent: Option<usize>, start: nat, fuel: nat)
    ensures
        spec_visit_node(nodes, n, parent, start, fuel) matches Some(vs) ==> forall|i: int|
            0 <= i < vs.len() ==> nodes.contains_key(#[trigger] vs[i].json_index),
    decreases fuel, 0nat,
{
    if nodes.contains_key(n) && fuel > 0 {
        let children = nodes[n].children@;
        lemma_visit_nodes_stored(nodes, children, Some(start as usize), start + 1, (fuel - 1) as nat);
        if let Some(below) = spec_visit_nodes(nodes, children, Some(start as usize), start + 1, (fuel - 1) as nat) {
            let vs = seq![NodeVisit { json_index: n, parent }] + below;
            assert forall|i: int| 0 <= i < vs.len() implies nodes.contains_key(#[trigger] vs[i].json_index) by {
                if i > 0 {
                    assert(vs[i] == below[i - 1]);
                }
            }
        }
    }
}

/// Every visit is of a stored node.
pub(crate) proof fn lemma_visit_nodes_stored(nodes: Map<usize, Node>, ns: Seq<usize>, parent: Option<usize>, start: nat, fuel: nat)
    ensures
        spec_visit_nodes(nodes, ns, parent, start, fuel) matches Some(vs) ==> forall|i: int|
            0 <= i < vs.len() ==> nodes.contains_key(#[trigger] vs[i].json_index),
    decreases fuel, ns.len() + 1,
{
    if ns.len() > 0 {
        lemma_visit_node_stored(nodes, ns[0], parent, start, fuel);
        if let Some(first) = spec_visit_node(nodes, ns[0], parent, start, fuel) {
            lemma_visit_nodes_stored(nodes, ns.drop_first(), parent, start + first.len(), fuel);
            if let Some(rest) = spec_visit_nodes(nodes, ns.drop_first(), parent, start + first.len(), fuel) {
                let vs = first + rest;
                assert forall|i: int| 0 <= i < vs.len() implies nodes.contains_key(#[trigger] vs[i].json_index) by {
                    if i < first.len() {
                        assert(vs[i] == first[i]);
                    } else {
                        assert(vs[i] == rest[i - first.len()]);
                    }
                }
            }
        }
    }
}

/// Every child of a stored node is stored and ranks below its parent: the
/// hierarchy holds no cycle.
pub open spec fn spec_ranked_hierarchy(nodes: Map<usize, Node>, rank: spec_fn(usize) -> nat) -> bool {
    forall|n: usize, i: int|
        #![trigger nodes[n].children@[i]]
        nodes.contains_key(n) && 0 <= i < nodes[n].children@.len() ==> {
            &&& nodes.contains_key(nodes[n].children@[i])
            &&& rank(nodes[n].children@[i]) < rank(n)
        }
}

/// A hierarchy without cycles is walked in full from stored roots, once the
/// fuel is above the rank of every node: the walk fails only on a missing
/// node or a cycle.
pub proof fn lemma_acyclic_hierarchy_walks(
    nodes: Map<usize, Node>,
    rank: spec_fn(usize) -> nat,
    roots: Seq<usize>,
    fuel: nat,
)
    requires
        spec_ranked_hierarchy(nodes, rank),
        forall|i: int| 0 <= i < roots.len() ==> nodes.contains_key(#[trigger] roots[i]),
        forall|n: usize| nodes.contains_key(n) ==> #[trigger] rank(n) < fuel,
    ensures
        spec_visit_nodes(nodes, roots, None, 0, fuel) is Some,
{
    lemma_visit_nodes_found(nodes, rank, roots, None, 0, fuel);
}

proof fn lemma_visit_node_found(
    nodes: Map<usize, Node>,
    rank: spec_fn(usize) -> nat,
    n: usize,
    parent: Option<usize>,
    start: nat,
    fuel: nat,
)
    requires
        spec_ranked_hierarchy(nodes, rank),
        nodes.contains_key(n),
        rank(n) < fuel,
    ensures
        spec_visit_node(nodes, n, parent, start, fuel) is Some,
    decreases fuel, 0nat,
{
    let children = nodes[n].children@;
    assert forall|i: int| 0 <= i < children.len() implies nodes.contains_key(#[trigger] children[i]) && rank(
        children[i],
    ) < (fuel - 1) as nat by {
        assert(nodes[n].children@[i] == children[i]);
    }
    lemma_visit_nodes_found(nodes, rank, children, Some(start as usize), start + 1, (fuel - 1) as nat);
}

proof fn lemma_visit_nodes_found(
    nodes: Map<usize, Node>,
    rank: spec_fn(usize) -> nat,
    ns: Seq<usize>,
    parent: Option<usize>,
    start: nat,
    fuel: nat,
)
    requires
        spec_ranked_hierarchy(nodes, rank),
        forall|i: int| 0 <= i < ns.len() ==> nodes.contains_key(#[trigger] ns[i]) && rank(ns[i]) < fuel,
    ensures
        spec_visit_nodes(nodes, ns, parent, start, fuel) is Some,
    decreases fuel, ns.len() + 1,
{
    if ns.len() > 0 {
        lemma_visit_node_found(nodes, rank, ns[0], parent, start, fuel);
        let first = spec_visit_node(nodes, ns[0], parent, start, fuel)->Some_0;
        assert forall|i: int| 0 <= i < ns.drop_first().len() implies nodes.contains_key(#[trigger] ns.drop_first()[i])
            && rank(ns.drop_first()[i]) < fuel by {
            assert(ns.drop_first()[i] == ns[i + 1]);
        }
        lemma_visit_nodes_found(nodes, rank, ns.drop_first(), parent, start + first.len(), fuel);
    }
}

} // verus!
