use vstd::prelude::*;

use std::collections::HashMap;

use crate::error::{VkError, VkResult};

verus! {

broadcast use vstd::std_specs::hash::group_hash_axioms;

/// The size in bytes of one serialized material: four colour factors, three
/// emissive factors and the metallic factor, each a 4-byte float.
pub const MATERIAL_SIZE: usize = 32;

/// The key under which the default material is stored.
pub const DEFAULT_MATERIAL_INDEX: usize = usize::MAX;

/// The offset of the default material in the material data.
pub const DEFAULT_MATERIAL_OFFSET: usize = 0;

/// One material of a glTF document: its index in the document, if it has
/// one, and its serialized factors.
pub struct MaterialSource {
    pub index: Option<usize>,
    pub data: Vec<u8>,
}

/// The abstract state of a material store: the serialized materials back to
/// back, how many there are, and where the material of each document index starts.
pub struct MaterialModel {
    pub content: Seq<u8>,
    pub count: nat,
    pub mapping: Map<usize, usize>,
}

/// The store after appending the material `data` under document index `index`.
pub open spec fn spec_add_material(model: MaterialModel, index: usize, data: Seq<u8>) -> MaterialModel {
    MaterialModel {
        content: model.content + data,
        count: model.count + 1,
        mapping: model.mapping.insert(index, (model.count * MATERIAL_SIZE) as usize),
    }
}

/// The store after reading `sources` in order; a material without a document
/// index is skipped.
pub open spec fn spec_read_materials(model: MaterialModel, sources: Seq<(Option<usize>, Seq<u8>)>) -> MaterialModel
    decreases sources.len(),
{
    if sources.len() == 0 {
        model
    } else {
        let before = spec_read_materials(model, sources.drop_last());
        match sources.last().0 {
            Some(index) => spec_add_material(before, index, sources.last().1),
            None => before,
        }
    }
}

/// Where the material asked for starts: the default material's offset for
/// `None` and for a document index that has no material.
pub open spec fn spec_material_offset(mapping: Map<usize, usize>, material_index: Option<usize>) -> usize {
    let key = match material_index {
        Some(i) => i,
        None => DEFAULT_MATERIAL_INDEX,
    };
    if mapping.contains_key(key) {
        mapping[key]
    } else {
        DEFAULT_MATERIAL_OFFSET
    }
}

/// The serialized material that is used for `material_index`.
pub open spec fn spec_material_bytes(model: MaterialModel, material_index: Option<usize>) -> Seq<u8> {
    let offset = spec_material_offset(model.mapping, material_index);
    model.content.subrange(offset as int, offset + MATERIAL_SIZE)
}

/// The store is well formed: whole materials back to back, the default one
/// among them, and every offset at the start of a stored material.
pub open spec fn spec_material_wf(model: MaterialModel) -> bool {
    &&& model.content.len() == model.count * MATERIAL_SIZE
    &&& model.count >= 1
    &&& model.content.len() <= usize::MAX
    &&& forall|i: usize| #[trigger] model.mapping.contains_key(i) ==> {
        &&& model.mapping[i] % MATERIAL_SIZE == 0
        &&& model.mapping[i] + MATERIAL_SIZE <= model.content.len()
    }
}

/// The serialized materials of a glTF document.
pub struct MaterialAsset {
    data_content: Vec<u8>,
    material_count: usize,
    material_mapping: HashMap<usize, usize>,
}

impl MaterialSource {
    pub open spec fn view(&self) -> (Option<usize>, Seq<u8>) {
        (self.index, self.data@)
    }
}

/// The views of a list of material sources.
pub open spec fn spec_source_views(sources: Seq<MaterialSource>) -> Seq<(Option<usize>, Seq<u8>)> {
    sources.map_values(|s: MaterialSource| s.view())
}

impl MaterialAsset {
    pub closed spec fn model(&self) -> MaterialModel {
        MaterialModel {
            content: self.data_content@,
            count: self.material_count as nat,
            mapping: self.material_mapping@,
        }
    }

    pub open spec fn wf(&self) -> bool {
        spec_material_wf(self.model())
    }

    /// A store that holds the default material, given serialized.
    /// Fails when `default_material` is not one whole material.
    pub fn new(default_material: Vec<u8>) -> (result: VkResult<MaterialAsset>)
        ensures
            match result {
                Ok(asset) => {
                    &&& default_material@.len() == MATERIAL_SIZE
                    &&& asset.wf()
                    &&& asset.model().content == default_material@
                    &&& asset.model().count == 1
                    &&& asset.model().mapping == Map::<usize, usize>::empty().insert(
                        DEFAULT_MATERIAL_INDEX,
                        DEFAULT_MATERIAL_OFFSET,
                    )
                },
                Err(e) => {
                    &&& default_material@.len() != MATERIAL_SIZE
                    &&& e == VkError::Custom("serialized material has the wrong size")
                },
            },
    {
        if default_material.len() != MATERIAL_SIZE {
            return Err(VkError::Custom("serialized material has the wrong size"));
        }
        let mut material_mapping = HashMap::new();
        material_mapping.insert(DEFAULT_MATERIAL_INDEX, DEFAULT_MATERIAL_OFFSET);
        let result = MaterialAsset { data_content: default_material, material_count: 1, material_mapping };
        assert(result.model().mapping =~= Map::<usize, usize>::empty().insert(
            DEFAULT_MATERIAL_INDEX,
            DEFAULT_MATERIAL_OFFSET,
        ));
        Ok(result)
    }

    /// The size in bytes of one serialized material.
    pub fn material_size(&self) -> (size: u32)
        ensures
            size == MATERIAL_SIZE,
    {
        32
    }

    /// The serialized material that a primitive with material `material_index` uses.
    pub fn get_material_serialized(&self, material_index: &Option<usize>) -> (bytes: &[u8])
        requires
            self.wf(),
        ensures
            bytes@ == spec_material_bytes(self.model(), *material_index),
    {
        let key = match material_index {
            Some(i) => *i,
            None => DEFAULT_MATERIAL_INDEX,
        };
        let offset = match self.material_mapping.get(&key) {
            Some(o) => *o,
            None => DEFAULT_MATERIAL_OFFSET,
        };
        proof {
            if self.material_mapping@.contains_key(key) {
                assert(self.model().mapping.contains_key(key));
            }
        }
        vstd::slice::slice_subrange(self.data_content.as_slice(), offset, offset + MATERIAL_SIZE)
    }

    /// The serialized materials back to back, to be copied into a buffer.
    pub fn data(&self) -> (bytes: &[u8])
        ensures
            bytes@ == self.model().content,
    {
        self.data_content.as_slice()
    }

    /// Appends one serialized material under document index `index`.
    pub fn add_material(&mut self, index: usize, data: &Vec<u8>)
        requires
            old(self).wf(),
            data@.len() == MATERIAL_SIZE,
            old(self).model().content.len() + MATERIAL_SIZE <= usize::MAX,
        ensures
            final(self).wf(),
            final(self).model() == spec_add_material(old(self).model(), index, data@),
    {
        let ghost before = self.model();
        let mut k: usize = 0;
        while k < data.len()
            invariant
                k <= data@.len(),
                data@.len() == MATERIAL_SIZE,
                self.data_content@ == before.content + data@.subrange(0, k as int),
                self.material_count == before.count,
                self.material_mapping@ == before.mapping,
                spec_material_wf(before),
                before.content.len() + MATERIAL_SIZE <= usize::MAX,
            decreases data@.len() - k,
        {
            self.data_content.push(data[k]);
            k = k + 1;
            assert(self.data_content@ =~= before.content + data@.subrange(0, k as int));
        }
        assert(data@.subrange(0, k as int) =~= data@);
        assert(self.material_count * MATERIAL_SIZE <= usize::MAX);
        let offset = self.material_count * MATERIAL_SIZE;
        self.material_mapping.insert(index, offset);
        self.material_count = self.material_count + 1;
        proof {
            let after = self.model();
            assert(after.mapping =~= before.mapping.insert(index, (before.count * MATERIAL_SIZE) as usize));
            assert forall|i: usize| #[trigger] after.mapping.contains_key(i) implies {
                &&& after.mapping[i] % MATERIAL_SIZE == 0
                &&& after.mapping[i] + MATERIAL_SIZE <= after.content.len()
            } by {
                if i != index {
                    assert(before.mapping.contains_key(i));
                } else {
                    vstd::arithmetic::div_mod::lemma_mod_multiples_basic(before.count as int, MATERIAL_SIZE as int);
                }
            }
        }
    }

    /// Reads the materials of a document in order, appending each one that has a
    /// document index. Fails, changing nothing, when one of those is not one whole
    /// serialized material.
    pub fn read_doc(&mut self, sources: &Vec<MaterialSource>) -> (result: VkResult<()>)
        requires
            old(self).wf(),
            old(self).model().content.len() + sources@.len() * MATERIAL_SIZE <= usize::MAX,
        ensures
            final(self).wf(),
            match result {
                Ok(()) => {
                    &&& forall|i: int| 0 <= i < sources@.len() && (#[trigger] sources@[i]).index is Some
                        ==> sources@[i].data@.len() == MATERIAL_SIZE
                    &&& final(self).model() == spec_read_materials(old(self).model(), spec_source_views(sources@))
                },
                Err(e) => {
                    &&& exists|i: int| 0 <= i < sources@.len() && (#[trigger] sources@[i]).index is Some
                        && sources@[i].data@.len() != MATERIAL_SIZE
                    &&& e == VkError::Custom("serialized material has the wrong size")
                    &&& final(self).model() == old(self).model()
                },
            },
    {
        let n = sources.len();
        for j in 0..n
            invariant
                n == sources@.len(),
                self.wf(),
                self.model() == old(self).model(),
                forall|i: int| 0 <= i < j && (#[trigger] sources@[i]).index is Some
                    ==> sources@[i].data@.len() == MATERIAL_SIZE,
        {
            if sources[j].index.is_some() && sources[j].data.len() != MATERIAL_SIZE {
                assert(sources@[j as int].index is Some);
                return Err(VkError::Custom("serialized material has the wrong size"));
            }
        }
        let ghost start = self.model();
        let ghost views = spec_source_views(sources@);
        for j in 0..n
            invariant
                n == sources@.len(),
                views == spec_source_views(sources@),
                forall|i: int| 0 <= i < n && (#[trigger] sources@[i]).index is Some
                    ==> sources@[i].data@.len() == MATERIAL_SIZE,
                start.content.len() + n * MATERIAL_SIZE <= usize::MAX,
                self.wf(),
                self.model() == spec_read_materials(start, views.take(j as int)),
                self.model().content.len() <= start.content.len() + j * MATERIAL_SIZE,
        {
            assert(views.take(j + 1).drop_last() =~= views.take(j as int));
            assert(views.take(j + 1).last() == sources@[j as int].view());
            match sources[j].index {
                Some(index) => {
                    assert(sources@[j as int].index is Some);
                    proof {
                        vstd::arithmetic::mul::lemma_mul_inequality(j as int + 1, n as int, MATERIAL_SIZE as int);
                        vstd::arithmetic::mul::lemma_mul_is_distributive_add_other_way(MATERIAL_SIZE as int, j as int, 1);
                    }
                    self.add_material(index, &sources[j].data);
                },
                None => {
                    proof {
                        vstd::arithmetic::mul::lemma_mul_inequality(j as int, j as int + 1, MATERIAL_SIZE as int);
                    }
                },
            }
        }
        assert(views.take(n as int) =~= views);
        Ok(())
    }
}

/// A material read back after it was added is the one that was added, and
/// adding it leaves what is read for every other index as it was.
pub proof fn lemma_material_read_after_add(
    model: MaterialModel,
    index: usize,
    data: Seq<u8>,
    other: Option<usize>,
)
    requires
        spec_material_wf(model),
        data.len() == MATERIAL_SIZE,
        model.content.len() + MATERIAL_SIZE <= usize::MAX,
    ensures
        spec_material_bytes(spec_add_material(model, index, data), Some(index)) == data,
        other != Some(index) && !(other is None && index == DEFAULT_MATERIAL_INDEX)
            && !(other == Some(DEFAULT_MATERIAL_INDEX) && index == DEFAULT_MATERIAL_INDEX)
            ==> spec_material_bytes(spec_add_material(model, index, data), other)
                == spec_material_bytes(model, other),
{
    let after = spec_add_material(model, index, data);
    assert(after.content.subrange(model.content.len() as int, model.content.len() + MATERIAL_SIZE) =~= data);
    let key = match other {
        Some(i) => i,
        None => DEFAULT_MATERIAL_INDEX,
    };
    if key != index {
        let offset = spec_material_offset(model.mapping, other);
        if model.mapping.contains_key(key) {
            assert(model.mapping[key] + MATERIAL_SIZE <= model.content.len());
        }
        assert(after.content.subrange(offset as int, offset + MATERIAL_SIZE) =~= model.content.subrange(
            offset as int,
            offset + MATERIAL_SIZE,
        ));
    }
}

/// A primitive without a material, or with a document index that no material
/// was read for, uses the default material: the first one stored.
pub proof fn lemma_unknown_material_is_default(model: MaterialModel, material_index: Option<usize>)
    requires
        spec_material_wf(model),
        model.mapping.contains_key(DEFAULT_MATERIAL_INDEX),
        model.mapping[DEFAULT_MATERIAL_INDEX] == DEFAULT_MATERIAL_OFFSET,
        match material_index {
            Some(i) => !model.mapping.contains_key(i),
            None => true,
        },
    ensures
        spec_material_bytes(model, material_index) == model.content.subrange(0, MATERIAL_SIZE as int),
{
}

} // verus!
