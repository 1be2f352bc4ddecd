use vstd::prelude::*;

use std::collections::HashMap;

verus! {

broadcast use vstd::std_specs::hash::group_hash_axioms;

/// Elements of one kind read from a glTF document (nodes, meshes, ...),
/// stored in reading order and found again by their index in the document.
pub struct AssetElementList<T> {
    list: Vec<T>,
    query_table: HashMap<usize, usize>,
}

impl<T> AssetElementList<T> {
    /// Every document index maps to a stored element.
    pub closed spec fn wf(&self) -> bool {
        forall|r: usize| #[trigger] self.query_table@.contains_key(r) ==> self.query_table@[r] < self.list@.len()
    }

    /// The elements, keyed by their index in the document.
    pub closed spec fn elements(&self) -> Map<usize, T> {
        Map::new(
            |r: usize| self.query_table@.contains_key(r),
            |r: usize| self.list@[self.query_table@[r] as int],
        )
    }

    /// How many elements were stored, counting those whose document index was stored again later.
    pub closed spec fn stored(&self) -> nat {
        self.list@.len()
    }

    pub fn new() -> (list: AssetElementList<T>)
        ensures
            list.wf(),
            list.elements() == Map::<usize, T>::empty(),
            list.stored() == 0,
    {
        let result = AssetElementList { list: Vec::new(), query_table: HashMap::new() };
        assert(result.elements() =~= Map::<usize, T>::empty());
        result
    }

    /// Stores `element` as the one at document index `ref_index`; a later
    /// push with the same index takes its place in lookups.
    pub fn push(&mut self, ref_index: usize, element: T)
        requires
            old(self).wf(),
            old(self).stored() < usize::MAX,
        ensures
            final(self).wf(),
            final(self).elements() == old(self).elements().insert(ref_index, element),
            final(self).stored() == old(self).stored() + 1,
    {
        let storage_index = self.list.len();
        self.query_table.insert(ref_index, storage_index);
        self.list.push(element);
        proof {
            let before = old(self).elements();
            let after = self.elements();
            assert forall|r: usize| #[trigger] self.query_table@.contains_key(r) implies self.query_table@[r]
                < self.list@.len() by {
                if r != ref_index {
                    assert(old(self).query_table@.contains_key(r));
                }
            }
            assert forall|r: usize| #[trigger] after.contains_key(r) && r != ref_index implies after[r]
                == before[r] by {
                assert(old(self).query_table@.contains_key(r));
                assert(old(self).query_table@[r] < old(self).list@.len());
            }
            assert(after =~= before.insert(ref_index, element));
        }
    }

    /// How many elements were stored.
    pub fn stored_count(&self) -> (n: usize)
        ensures
            n == self.stored(),
    {
        self.list.len()
    }

    /// Whether an element is stored at document index `ref_index`.
    pub fn contains(&self, ref_index: usize) -> (found: bool)
        ensures
            found == self.elements().contains_key(ref_index),
    {
        self.query_table.contains_key(&ref_index)
    }

    /// The element stored at document index `ref_index`.
    pub fn get(&self, ref_index: usize) -> (element: &T)
        requires
            self.wf(),
            self.elements().contains_key(ref_index),
        ensures
            *element == self.elements()[ref_index],
    {
        let storage_index = *self.query_table.get(&ref_index).unwrap();
        &self.list[storage_index]
    }
}

impl<T> Default for AssetElementList<T> {
    fn default() -> (list: AssetElementList<T>)
        ensures
            list.wf(),
            list.elements() == Map::<usize, T>::empty(),
            list.stored() == 0,
    {
        AssetElementList::new()
    }
}

/// What a lookup gives back after a push: the pushed element at the pushed
/// index, and what was there before at every other index.
pub proof fn lemma_get_after_push<T>(elements: Map<usize, T>, ref_index: usize, element: T, other: usize)
    ensures
        elements.insert(ref_index, element)[ref_index] == element,
        other != ref_index ==> (elements.insert(ref_index, element).contains_key(other)
            == elements.contains_key(other)),
        other != ref_index && elements.contains_key(other) ==> elements.insert(ref_index, element)[other]
            == elements[other],
{
}

} // verus!
