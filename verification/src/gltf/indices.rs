use vstd::prelude::*;

use crate::ci::buffer::{BufferCI, BufferInfo, SHARING_MODE_EXCLUSIVE};
use crate::error::{VkError, VkResult};

verus! {

/// A JSON value of a glTF document, kept as far as the bounds of an accessor need it.
pub enum JsonValue {
    /// A number that is a non-negative integer.
    Unsigned(u64),
    /// A list of values.
    Array(Vec<JsonValue>),
    /// Anything else: another number, a string, a boolean, null or an object.
    Other,
}

/// The index that a `min` or `max` bound of an index accessor gives: the
/// first entry of the array, where the bound is an array whose first entry
/// is a non-negative integer.
pub open spec fn spec_get_index(value: Option<JsonValue>) -> Option<u64> {
    match value {
        Some(JsonValue::Array(items)) => if items@.len() > 0 {
            match items@[0] {
                JsonValue::Unsigned(n) => Some(n),
                _ => None,
            }
        } else {
            None
        },
        _ => None,
    }
}

pub fn get_index(value: &Option<JsonValue>) -> (result: VkResult<u64>)
    ensures
        match spec_get_index(*value) {
            Some(n) => result == Ok::<u64, VkError>(n),
            None => result == Err::<u64, VkError>(
                VkError::Custom("Invalid or missing min/max property for indices property."),
            ),
        },
{
    match value {
        Some(JsonValue::Array(items)) => {
            if items.len() > 0 {
                match &items[0] {
                    JsonValue::Unsigned(n) => {
                        return Ok(*n);
                    },
                    _ => {},
                }
            }
        },
        _ => {},
    }
    Err(VkError::Custom("Invalid or missing min/max property for indices property."))
}

/// The index accessor of a glTF primitive, as far as its bounds go.
pub struct IndexAccessor {
    /// The `min` property of the accessor.
    pub min: Option<JsonValue>,
    /// The `max` property of the accessor.
    pub max: Option<JsonValue>,
}

/// The number of vertices that the indices of a primitive span, `max - min + 1`,
/// or the error that reading the bounds gives.
pub open spec fn spec_indices_range(indices: Option<IndexAccessor>) -> Result<u64, VkError> {
    match indices {
        None => Err(VkError::Custom("Failed to get indices property of glTF::Primitive")),
        Some(accessor) => match spec_get_index(accessor.max) {
            None => Err(VkError::Custom("Invalid or missing min/max property for indices property.")),
            Some(max) => match spec_get_index(accessor.min) {
                None => Err(VkError::Custom("Invalid or missing min/max property for indices property.")),
                Some(min) => Ok((max - min + 1) as u64),
            },
        },
    }
}

/// The bounds of an index accessor can be subtracted without wrapping: where
/// both are read, `min <= max` and `max - min + 1` fits in a `u64`.
pub open spec fn spec_bounds_ordered(indices: Option<IndexAccessor>) -> bool {
    match indices {
        Some(accessor) => match (spec_get_index(accessor.max), spec_get_index(accessor.min)) {
            (Some(max), Some(min)) => min <= max && max - min + 1 <= u64::MAX,
            _ => true,
        },
        None => true,
    }
}

pub fn get_indices_range(indices: &Option<IndexAccessor>) -> (result: VkResult<u64>)
    requires
        spec_bounds_ordered(*indices),
    ensures
        result == spec_indices_range(*indices),
{
    let accessor = match indices {
        Some(a) => a,
        None => {
            return Err(VkError::Custom("Failed to get indices property of glTF::Primitive"));
        },
    };
    // the maximum index of this primitive.
    let index_max = match get_index(&accessor.max) {
        Ok(n) => n,
        Err(e) => {
            return Err(e);
        },
    };
    // the minimum index of this primitive.
    let index_min = match get_index(&accessor.min) {
        Ok(n) => n,
        Err(e) => {
            return Err(e);
        },
    };
    Ok(index_max - index_min + 1)
}

/// Where a run of indices lands in the shared index data.
#[derive(Debug, Clone, Copy, PartialEq, Eq, Structural)]
pub struct IndicesExtendInfo {
    pub first_index: u32,
    pub indices_count: u32,
}

/// The indices of all primitives of a model, each run shifted by the number
/// of vertices that the runs before it span.
pub struct IndicesData {
    start_index: u32,
    data_content: Vec<u32>,
}

/// `indices`, each shifted by `start`.
pub open spec fn spec_shifted(indices: Seq<u32>, start: u32) -> Seq<u32> {
    indices.map_values(|v: u32| (v + start) as u32)
}

impl IndicesData {
    /// The vertex offset that the next run of indices is shifted by.
    pub closed spec fn start(&self) -> u32 {
        self.start_index
    }

    /// The indices stored so far.
    pub closed spec fn content(&self) -> Seq<u32> {
        self.data_content@
    }

    /// The index data fits in memory as bytes.
    pub closed spec fn wf(&self) -> bool {
        self.data_content@.len() * 4 <= usize::MAX
    }

    pub fn new() -> (data: IndicesData)
        ensures
            data.wf(),
            data.start() == 0,
            data.content() == Seq::<u32>::empty(),
    {
        IndicesData { start_index: 0, data_content: Vec::new() }
    }

    /// Appends the indices of one primitive, shifted by the current vertex offset,
    /// and moves the offset on by the range that the indices span. `indices` holds
    /// the bounds of its index accessor; `values` its indices, where it has them.
    pub fn extend(&mut self, indices: &Option<IndexAccessor>, values: &Option<Vec<u32>>) -> (result: VkResult<
        IndicesExtendInfo,
    >)
        requires
            old(self).wf(),
            spec_bounds_ordered(*indices),
            spec_indices_range(*indices) is Ok && values.is_some() ==> {
                &&& old(self).start() + (spec_indices_range(*indices)->Ok_0 as u32) <= u32::MAX
                &&& forall|i: int| 0 <= i < values.unwrap()@.len() ==> #[trigger] values.unwrap()@[i] + old(self).start() <= u32::MAX
                &&& (old(self).content().len() + values.unwrap()@.len()) * 4 <= usize::MAX
            },
        ensures
            final(self).wf(),
            match spec_indices_range(*indices) {
                Err(e) => result == Err::<IndicesExtendInfo, VkError>(e) && *final(self) == *old(self),
                Ok(range) => match values {
                    None => {
                        &&& result == Err::<IndicesExtendInfo, VkError>(VkError::Custom("Missing indices property in glTF primitive."))
                        &&& *final(self) == *old(self)
                    },
                    Some(vs) => {
                        &&& result == Ok::<IndicesExtendInfo, VkError>(IndicesExtendInfo {
                            first_index: old(self).start(),
                            indices_count: vs@.len() as u32,
                        })
                        &&& final(self).content() == old(self).content() + spec_shifted(vs@, old(self).start())
                        &&& final(self).start() == old(self).start() + (range as u32)
                    },
                },
            },
    {
        let indices_range = match get_indices_range(indices) {
            Ok(r) => r,
            Err(e) => {
                return Err(e);
            },
        };
        let vs = match values {
            Some(vs) => vs,
            None => {
                return Err(VkError::Custom("Missing indices property in glTF primitive."));
            },
        };
        let start_index = self.start_index;
        let result = IndicesExtendInfo { first_index: self.start_index, indices_count: vs.len() as u32 };
        let ghost before = self.data_content@;
        let n = vs.len();
        for k in 0..n
            invariant
                n == vs@.len(),
                start_index == old(self).start(),
                self.start_index == start_index,
                start_index + (indices_range as u32) <= u32::MAX,
                forall|i: int| 0 <= i < vs@.len() ==> #[trigger] vs@[i] + start_index <= u32::MAX,
                (before.len() + n) * 4 <= usize::MAX,
                self.data_content@ == before + spec_shifted(vs@.take(k as int), start_index),
        {
            self.data_content.push(vs[k] + start_index);
            assert(spec_shifted(vs@.take(k + 1), start_index) =~= spec_shifted(vs@.take(k as int), start_index).push(
                (vs@[k as int] + start_index) as u32,
            ));
        }
        assert(vs@.take(n as int) =~= vs@);
        self.start_index = self.start_index + (#[verifier::truncate] (indices_range as u32));
        Ok(result)
    }

    /// The size in bytes of the index data, once a run of indices was read.
    pub fn buffer_size_estimated(&self) -> (size: Option<u64>)
        requires
            self.wf(),
        ensures
            size == (if self.start() > 0 { Some((self.content().len() * 4) as u64) } else { None::<u64> }),
            size matches Some(s) ==> s == self.content().len() * 4,
    {
        if self.start_index > 0 {
            Some((self.data_content.len() * 4) as u64)
        } else {
            None
        }
    }

    /// The settings of a buffer that holds the index data, once a run of
    /// indices was read; that run must not have been empty.
    pub fn buffer_ci(&self) -> (ci: Option<BufferCI>)
        requires
            self.wf(),
            self.start() > 0 ==> self.content().len() > 0,
        ensures
            match ci {
                Some(ci) => {
                    &&& self.start() > 0
                    &&& ci.info == (BufferInfo {
                        flags: 0,
                        size: (self.content().len() * 4) as u64,
                        usage: 0,
                        sharing_mode: SHARING_MODE_EXCLUSIVE,
                    })
                    &&& ci.queue_families@ == Seq::<u32>::empty()
                },
                None => self.start() == 0,
            },
    {
        if self.start_index > 0 {
            let indices_size = (self.data_content.len() * 4) as u64;
            Some(BufferCI::new(indices_size))
        } else {
            None
        }
    }

    /// The vertex offset that the next run of indices is shifted by.
    pub fn start_index(&self) -> (start: u32)
        ensures
            start == self.start(),
    {
        self.start_index
    }

    /// The index data, to be copied into a mapped buffer.
    pub fn data(&self) -> (data: &[u32])
        ensures
            data@ == self.content(),
    {
        self.data_content.as_slice()
    }
}

impl Default for IndicesData {
    fn default() -> (data: IndicesData)
        ensures
            data.wf(),
            data.start() == 0,
            data.content() == Seq::<u32>::empty(),
    {
        IndicesData::new()
    }
}

} // verus!
