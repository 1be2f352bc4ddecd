use vstd::prelude::*;

use crate::error::{VkError, VkResult};
use crate::gltf::asset::AssetElementList;
use crate::gltf::nodes::{
    lemma_visit_nodes_stored, spec_assign_slots, spec_visit_nodes, visit_nodes, Node, NodeAttachments, NodeVisit,
};

verus! {

/// A glTF scene: the document indices of its root nodes.
pub struct Scene {
    nodes: Vec<usize>,
}

impl Scene {
    /// The document indices of the root nodes, in document order.
    pub closed spec fn roots(&self) -> Seq<usize> {
        self.nodes@
    }

    /// A scene with the root nodes `nodes`, given by document index in document order.
    pub fn from_doc(nodes: Vec<usize>) -> (scene: Scene)
        ensures
            scene.roots() == nodes@,
    {
        Scene { nodes }
    }

    /// The document indices of the root nodes.
    pub fn nodes(&self) -> (nodes: &[usize])
        ensures
            nodes@ == self.roots(),
    {
        self.nodes.as_slice()
    }

    /// Walks the node hierarchy down from the roots, depth first: each node is
    /// visited before its children, the children in order. Each visit of a
    /// node with a mesh takes the next attachment slot. Returns the visits.
    /// Fails, and changes nothing, where a node is not stored, where a path
    /// down holds more nodes than were stored (which only a cycle makes), or
    /// where the slots would outgrow a `usize`.
    pub fn read_node_attachment(&self, nodes: &AssetElementList<Node>, attachments: &mut NodeAttachments) -> (result:
        VkResult<Vec<NodeVisit>>)
        requires
            nodes.wf(),
            old(attachments).wf(),
        ensures
            final(attachments).wf(),
            final(attachments).size() == old(attachments).size(),
            match spec_visit_nodes(nodes.elements(), self.roots(), None, 0, nodes.stored()) {
                None => {
                    &&& result == Err::<Vec<NodeVisit>, VkError>(VkError::Custom("Broken glTF node hierarchy."))
                    &&& *final(attachments) == *old(attachments)
                },
                Some(vs) => if old(attachments).slots() + vs.len() > usize::MAX {
                    &&& result == Err::<Vec<NodeVisit>, VkError>(VkError::Custom("Too many glTF node attachments."))
                    &&& *final(attachments) == *old(attachments)
                } else {
                    &&& result matches Ok(v) && v@ == vs
                    &&& (final(attachments).mapping(), final(attachments).slots()) == spec_assign_slots(
                        nodes.elements(),
                        vs,
                        old(attachments).mapping(),
                        old(attachments).slots(),
                    )
                },
            },
    {
        let mut visits: Vec<NodeVisit> = Vec::new();
        let found = visit_nodes(nodes, &self.nodes, 0, None, nodes.stored_count(), &mut visits);
        assert(self.nodes@.subrange(0, self.nodes@.len() as int) =~= self.nodes@);
        assert(Seq::<NodeVisit>::empty() + visits@ =~= visits@);
        if !found {
            return Err(VkError::Custom("Broken glTF node hierarchy."));
        }
        if attachments.length() > usize::MAX - visits.len() {
            return Err(VkError::Custom("Too many glTF node attachments."));
        }
        proof {
            lemma_visit_nodes_stored(nodes.elements(), self.nodes@, None, 0, nodes.stored());
        }
        let ghost elements = nodes.elements();
        let n = visits.len();
        for k in 0..n
            invariant
                n == visits@.len(),
                nodes.wf(),
                elements == nodes.elements(),
                forall|i: int| 0 <= i < visits@.len() ==> elements.contains_key(#[trigger] visits@[i].json_index),
                attachments.wf(),
                attachments.size() == old(attachments).size(),
                old(attachments).slots() + n <= usize::MAX,
                attachments.slots() <= old(attachments).slots() + k,
                (attachments.mapping(), attachments.slots()) == spec_assign_slots(
                    elements,
                    visits@.take(k as int),
                    old(attachments).mapping(),
                    old(attachments).slots(),
                ),
        {
            let visit = visits[k];
            assert(elements.contains_key(visits@[k as int].json_index));
            let node = nodes.get(visit.json_index);
            assert(visits@.take(k + 1).drop_last() =~= visits@.take(k as int));
            assert(visits@.take(k + 1).last() == visit);
            if node.local_mesh.is_some() {
                attachments.extend(visit.json_index);
            }
        }
        assert(visits@.take(n as int) =~= visits@);
        Ok(visits)
    }
}

/// The scene that a model is loaded from: the document's default scene, else
/// its first scene.
pub open spec fn spec_select_scene(default_scene: Option<usize>, scene_count: usize) -> Result<usize, VkError> {
    match default_scene {
        Some(s) => Ok(s),
        None => if scene_count > 0 {
            Ok(0)
        } else {
            Err(VkError::Custom("glTF Scene is missing."))
        },
    }
}

/// Picks the scene to load: the default scene where the document names one,
/// else the first of its `scene_count` scenes; a document without any fails.
pub fn select_scene(default_scene: Option<usize>, scene_count: usize) -> (result: VkResult<usize>)
    ensures
        result == spec_select_scene(default_scene, scene_count),
{
    match default_scene {
        Some(s) => Ok(s),
        None => {
            if scene_count > 0 {
                Ok(0)
            } else {
                Err(VkError::Custom("glTF Scene is missing."))
            }
        },
    }
}

} // verus!
