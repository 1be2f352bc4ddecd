use vstd::prelude::*;

use core::ops::{BitAnd, BitOr};
use vstd::std_specs::ops::{BitAndSpecImpl, BitOrSpecImpl};

use crate::ci::pipeline::state::{VertexInputAttribute, VertexInputBinding, VertexInputSCI, VERTEX_INPUT_RATE_VERTEX};
use crate::error::{VkError, VkResult};

verus! {

/// Which vertex attributes of a glTF primitive are read.
#[derive(Debug, Clone, Copy, PartialEq, Eq, Structural)]
pub struct AttributeFlags(pub u32);

impl AttributeFlags {
    pub fn none() -> (flags: AttributeFlags)
        ensures
            flags.bits() == 0b0,
    {
        AttributeFlags(0b0)
    }

    pub fn position() -> (flags: AttributeFlags)
        ensures
            flags.bits() == 0b1,
    {
        AttributeFlags(0b1)
    }

    pub fn normal() -> (flags: AttributeFlags)
        ensures
            flags.bits() == 0b10,
    {
        AttributeFlags(0b10)
    }

    pub fn tangent() -> (flags: AttributeFlags)
        ensures
            flags.bits() == 0b100,
    {
        AttributeFlags(0b100)
    }

    pub fn texcoord_0() -> (flags: AttributeFlags)
        ensures
            flags.bits() == 0b1000,
    {
        AttributeFlags(0b1000)
    }

    pub fn texcoord_1() -> (flags: AttributeFlags)
        ensures
            flags.bits() == 0b10000,
    {
        AttributeFlags(0b10000)
    }

    pub fn color_0() -> (flags: AttributeFlags)
        ensures
            flags.bits() == 0b100000,
    {
        AttributeFlags(0b100000)
    }

    pub fn joints_0() -> (flags: AttributeFlags)
        ensures
            flags.bits() == 0b1000000,
    {
        AttributeFlags(0b1000000)
    }

    pub fn weights_0() -> (flags: AttributeFlags)
        ensures
            flags.bits() == 0b10000000,
    {
        AttributeFlags(0b10000000)
    }

    /// POSITION.
    pub fn attr_p() -> (flags: AttributeFlags)
        ensures
            flags.bits() == 0b1,
    {
        AttributeFlags(0b1)
    }

    /// POSITION, NORMAL.
    pub fn attr_pn() -> (flags: AttributeFlags)
        ensures
            flags.bits() == 0b11,
    {
        AttributeFlags(0b11)
    }

    /// POSITION, TEXCOORD_0.
    pub fn attr_pte0() -> (flags: AttributeFlags)
        ensures
            flags.bits() == 0b1001,
    {
        AttributeFlags(0b1001)
    }

    /// POSITION, NORMAL, TEXCOORD_0.
    pub fn attr_pnte0() -> (flags: AttributeFlags)
        ensures
            flags.bits() == 0b1011,
    {
        AttributeFlags(0b1011)
    }

    /// POSITION, NORMAL, TANGENT, TEXCOORD_0, TEXCOORD_1, COLOR_0, JOINTS_0, WEIGHTS_0.
    pub fn attr_all() -> (flags: AttributeFlags)
        ensures
            flags.bits() == 0b11111111,
    {
        AttributeFlags(0b11111111)
    }


    /// The flag bits.
    pub open spec fn bits(self) -> u32 {
        self.0
    }

    pub fn from_bits(bits: u32) -> (flags: AttributeFlags)
        ensures
            flags.bits() == bits,
    {
        AttributeFlags(bits)
    }

    pub fn as_raw(&self) -> (bits: u32)
        ensures
            bits == self.bits(),
    {
        self.0
    }

    /// The size in bytes of one vertex of a supported combination: 4-byte floats
    /// for positions (3), normals (3), tangents (4), texture coordinates (2 each),
    /// colours (4) and weights (4), and four 2-byte joint indices.
    pub open spec fn spec_vertex_size(bits: u32) -> Option<u64> {
        if bits == 0b1 {
            Some(12)
        } else if bits == 0b11 {
            Some(24)
        } else if bits == 0b1001 {
            Some(20)
        } else if bits == 0b1011 {
            Some(32)
        } else if bits == 0b11111111 {
            Some(96)
        } else {
            None
        }
    }

    /// The size in bytes of one vertex, for the five supported combinations.
    pub fn vertex_size(&self) -> (size: Option<u64>)
        ensures
            size == Self::spec_vertex_size(self.bits()),
    {
        if self.0 == 0b1 {
            Some(12)
        } else if self.0 == 0b11 {
            Some(24)
        } else if self.0 == 0b1001 {
            Some(20)
        } else if self.0 == 0b1011 {
            Some(32)
        } else if self.0 == 0b11111111 {
            Some(96)
        } else {
            None
        }
    }
}

impl BitAnd for AttributeFlags {
    type Output = Self;

    fn bitand(self, rhs: Self) -> (flags: Self) {
        AttributeFlags(self.0 & rhs.0)
    }
}

impl BitAndSpecImpl for AttributeFlags {
    open spec fn obeys_bitand_spec() -> bool {
        true
    }

    open spec fn bitand_req(self, rhs: Self) -> bool {
        true
    }

    open spec fn bitand_spec(self, rhs: Self) -> Self {
        AttributeFlags(self.0 & rhs.0)
    }
}

impl BitOr for AttributeFlags {
    type Output = Self;

    fn bitor(self, rhs: Self) -> (flags: Self) {
        AttributeFlags(self.0 | rhs.0)
    }
}

impl BitOrSpecImpl for AttributeFlags {
    open spec fn obeys_bitor_spec() -> bool {
        true
    }

    open spec fn bitor_req(self, rhs: Self) -> bool {
        true
    }

    open spec fn bitor_spec(self, rhs: Self) -> Self {
        AttributeFlags(self.0 | rhs.0)
    }
}

pub const FORMAT_R16G16B16A16_UNORM: i32 = 91;
pub const FORMAT_R32G32_SFLOAT: i32 = 103;
pub const FORMAT_R32G32B32_SFLOAT: i32 = 106;
pub const FORMAT_R32G32B32A32_SFLOAT: i32 = 109;

/// The size in bytes of one value of a vertex attribute format: three or four
/// 4-byte floats, two 4-byte floats, or four 2-byte normalized integers.
pub open spec fn spec_format_size(format: i32) -> nat {
    if format == FORMAT_R32G32B32_SFLOAT {
        12
    } else if format == FORMAT_R32G32B32A32_SFLOAT {
        16
    } else if format == FORMAT_R32G32_SFLOAT {
        8
    } else if format == FORMAT_R16G16B16A16_UNORM {
        8
    } else {
        0
    }
}

/// The attribute kinds whose flag bit is set in `bits`, from bit `p` up to the
/// last kind (weights, bit 7), lowest bit first.
pub open spec fn spec_kinds_from(bits: u32, p: u32) -> Seq<u32>
    decreases 8 - p,
{
    if p >= 8 {
        Seq::empty()
    } else if (bits >> p) & 1u32 == 1u32 {
        seq![p].add(spec_kinds_from(bits, (p + 1) as u32))
    } else {
        spec_kinds_from(bits, (p + 1) as u32)
    }
}

/// The format in which each kind of attribute is read, by its flag bit:
/// positions and normals as three floats; tangents, colours and weights as
/// four; texture coordinates as two; joint indices as four 16-bit integers.
pub open spec fn spec_kind_format(kind: u32) -> i32 {
    if kind == 0 || kind == 1 {
        FORMAT_R32G32B32_SFLOAT
    } else if kind == 3 || kind == 4 {
        FORMAT_R32G32_SFLOAT
    } else if kind == 6 {
        FORMAT_R16G16B16A16_UNORM
    } else {
        FORMAT_R32G32B32A32_SFLOAT
    }
}

/// The format and byte offset of each attribute of a vertex of a supported
/// combination, in the order position, normal, tangent, texture coordinates 0
/// and 1, colour, joints and weights (those of the combination only); the
/// attributes are packed one after the other.
pub open spec fn spec_attribute_layout(bits: u32) -> Seq<(i32, u32)> {
    if bits == 0b1 {
        seq![(FORMAT_R32G32B32_SFLOAT, 0u32)]
    } else if bits == 0b11 {
        seq![(FORMAT_R32G32B32_SFLOAT, 0u32), (FORMAT_R32G32B32_SFLOAT, 12u32)]
    } else if bits == 0b1001 {
        seq![(FORMAT_R32G32B32_SFLOAT, 0u32), (FORMAT_R32G32_SFLOAT, 12u32)]
    } else if bits == 0b1011 {
        seq![(FORMAT_R32G32B32_SFLOAT, 0u32), (FORMAT_R32G32B32_SFLOAT, 12u32), (FORMAT_R32G32_SFLOAT, 24u32)]
    } else if bits == 0b11111111 {
        seq![
            (FORMAT_R32G32B32_SFLOAT, 0u32),
            (FORMAT_R32G32B32_SFLOAT, 12u32),
            (FORMAT_R32G32B32A32_SFLOAT, 24u32),
            (FORMAT_R32G32_SFLOAT, 40u32),
            (FORMAT_R32G32_SFLOAT, 48u32),
            (FORMAT_R32G32B32A32_SFLOAT, 56u32),
            (FORMAT_R16G16B16A16_UNORM, 72u32),
            (FORMAT_R32G32B32A32_SFLOAT, 80u32),
        ]
    } else {
        Seq::empty()
    }
}

/// The attributes of `layout`, each read from binding 0 at its position as location.
pub open spec fn spec_layout_attributes(layout: Seq<(i32, u32)>) -> Seq<VertexInputAttribute> {
    Seq::new(
        layout.len(),
        |i: int| VertexInputAttribute { location: i as u32, binding: 0, format: layout[i].0, offset: layout[i].1 },
    )
}

/// Where the vertices of one primitive land in the shared vertex data.
#[derive(Debug, Clone, Copy, PartialEq, Eq, Structural)]
pub struct AttributeExtendInfo {
    pub first_vertex: usize,
    pub vertex_count: usize,
}

/// The number of vertices that a primitive adds, given for each attribute
/// that is read, in order, how many values the primitive has of it (`None`
/// where it lacks the attribute): the first attribute that adds any vertices
/// decides, and the later ones fill in those vertices.
pub open spec fn spec_read_vertices(counts: Seq<Option<usize>>) -> nat
    decreases counts.len(),
{
    if counts.len() == 0 {
        0
    } else {
        let before = spec_read_vertices(counts.drop_last());
        match counts.last() {
            Some(n) => if before == 0 {
                n as nat
            } else {
                before
            },
            None => before,
        }
    }
}

/// No attribute has more values than the vertices added before it, once any were added.
pub open spec fn spec_counts_fit(counts: Seq<Option<usize>>) -> bool
    decreases counts.len(),
{
    if counts.len() == 0 {
        true
    } else {
        let before = spec_read_vertices(counts.drop_last());
        &&& spec_counts_fit(counts.drop_last())
        &&& match counts.last() {
            Some(n) => before != 0 ==> n <= before,
            None => true,
        }
    }
}

/// The vertices of all primitives of a model, counted; the vertex values
/// themselves are kept next to this count by the caller.
pub struct AttributesData {
    flags: AttributeFlags,
    vertex_size: u64,
    length: usize,
}

impl AttributesData {
    /// The number of vertices read so far.
    pub closed spec fn vertices(&self) -> nat {
        self.length as nat
    }

    /// The size in bytes of one vertex.
    pub closed spec fn size(&self) -> u64 {
        self.vertex_size
    }

    /// The attribute combination that the vertices hold.
    pub closed spec fn flags(&self) -> AttributeFlags {
        self.flags
    }

    /// The vertex size is that of a supported attribute combination.
    pub closed spec fn wf(&self) -> bool {
        AttributeFlags::spec_vertex_size(self.flags.bits()) == Some(self.vertex_size)
    }

    /// The attribute combination that the vertices hold.
    pub fn attribute_flags(&self) -> (flags: AttributeFlags)
        ensures
            flags == self.flags(),
    {
        self.flags
    }

    /// The size in bytes of one vertex.
    pub fn vertex_size(&self) -> (size: u64)
        ensures
            size == self.size(),
    {
        self.vertex_size
    }

    /// An empty vertex store for the attribute combination `flags`; only the
    /// five combinations that have a vertex layout are supported.
    pub fn try_from(flags: AttributeFlags) -> (result: VkResult<AttributesData>)
        ensures
            match AttributeFlags::spec_vertex_size(flags.bits()) {
                Some(size) => result matches Ok(data) && data.wf() && data.flags() == flags && data.size() == size
                    && data.vertices() == 0,
                None => result == Err::<AttributesData, VkError>(VkError::Unimplemented("Primitive attributes combination")),
            },
    {
        match flags.vertex_size() {
            Some(vertex_size) => Ok(AttributesData { flags, vertex_size, length: 0 }),
            None => Err(VkError::Unimplemented("Primitive attributes combination")),
        }
    }

    /// Reads the vertices of one primitive; `counts` gives, for each attribute
    /// of the layout in order, how many values the primitive has of it.
    pub fn extend(&mut self, counts: &Vec<Option<usize>>) -> (info: AttributeExtendInfo)
        requires
            spec_counts_fit(counts@),
            old(self).vertices() + spec_read_vertices(counts@) <= usize::MAX,
        ensures
            info.first_vertex == old(self).vertices(),
            info.vertex_count == spec_read_vertices(counts@),
            final(self).vertices() == old(self).vertices() + spec_read_vertices(counts@),
            final(self).size() == old(self).size(),
            final(self).flags() == old(self).flags(),
            final(self).wf() == old(self).wf(),
    {
        let start_vertex_index = self.length;
        let n = counts.len();
        for k in 0..n
            invariant
                n == counts@.len(),
                start_vertex_index == old(self).vertices(),
                self.vertex_size == old(self).vertex_size,
                self.flags == old(self).flags,
                spec_counts_fit(counts@),
                start_vertex_index + spec_read_vertices(counts@) <= usize::MAX,
                self.length == start_vertex_index + spec_read_vertices(counts@.take(k as int)),
        {
            proof {
                lemma_read_vertices_prefix(counts@, k as int + 1);
                assert(counts@.take(k + 1).drop_last() =~= counts@.take(k as int));
            }
            match counts[k] {
                Some(count) => {
                    if self.length == start_vertex_index {
                        // the first attribute that is present adds the vertices.
                        self.length = self.length + count;
                    }
                },
                None => {},
            }
        }
        assert(counts@.take(n as int) =~= counts@);
        AttributeExtendInfo { first_vertex: start_vertex_index, vertex_count: self.length - start_vertex_index }
    }

    /// The number of vertices read so far.
    pub fn length(&self) -> (n: usize)
        ensures
            n == self.vertices(),
    {
        self.length
    }

    /// The size in bytes of the vertex data.
    pub fn buffer_size_estimated(&self) -> (size: u64)
        requires
            self.vertices() * self.size() <= u64::MAX,
        ensures
            size == self.vertices() * self.size(),
    {
        (self.length as u64) * self.vertex_size
    }

    /// How a pipeline reads these vertices: one binding, stepping one vertex at
    /// a time, and one attribute per attribute of the combination, numbered in order.
    pub fn input_descriptions(&self) -> (sci: VertexInputSCI)
        requires
            self.wf(),
        ensures
            sci.flags == 0,
            sci.bindings@ == seq![
                VertexInputBinding { binding: 0, stride: self.size() as u32, input_rate: VERTEX_INPUT_RATE_VERTEX },
            ],
            sci.attributes@ == spec_layout_attributes(spec_attribute_layout(self.flags().bits())),
            sci.attributes@.len() > 0,
            sci.attributes@[0].offset == 0,
            forall|k: int|
                0 <= k < sci.attributes@.len() - 1 ==> #[trigger] sci.attributes@[k + 1].offset
                    == sci.attributes@[k].offset + spec_format_size(sci.attributes@[k].format),
            sci.attributes@.last().offset + spec_format_size(sci.attributes@.last().format) == self.size(),
            sci.attributes@.len() == spec_kinds_from(self.flags().bits(), 0).len(),
            forall|k: int|
                0 <= k < sci.attributes@.len() ==> #[trigger] sci.attributes@[k].format == spec_kind_format(
                    spec_kinds_from(self.flags().bits(), 0)[k],
                ),
    {
        proof {
            lemma_layout_packed(self.flags().bits());
            lemma_layout_kinds(self.flags().bits());
        }
        let input_binding = VertexInputBinding {
            binding: 0,
            stride: self.vertex_size as u32,
            input_rate: VERTEX_INPUT_RATE_VERTEX,
        };
        let mut sci = VertexInputSCI::new().add_binding(input_binding);
        let layout = attribute_layout(self.flags);
        let n = layout.len();
        for k in 0..n
            invariant
                n == layout@.len(),
                sci.flags == 0,
                sci.bindings@ == seq![input_binding],
                sci.attributes@.len() == k,
                forall|i: int| 0 <= i < k ==> #[trigger] sci.attributes@[i] == (VertexInputAttribute {
                    location: 0,
                    binding: 0,
                    format: layout@[i].0,
                    offset: layout@[i].1,
                }),
        {
            let (format, offset) = layout[k];
            sci = sci.add_attribute(VertexInputAttribute { location: 0, binding: 0, format, offset });
        }
        sci.inner_set_attribute_locations();
        assert(sci.attributes@ =~= spec_layout_attributes(spec_attribute_layout(self.flags().bits())));
        sci
    }
}

/// The format and offset of each attribute of a vertex of combination `flags`.
fn attribute_layout(flags: AttributeFlags) -> (layout: Vec<(i32, u32)>)
    ensures
        layout@ == spec_attribute_layout(flags.bits()),
{
    let bits = flags.0;
    let layout = if bits == 0b1 {
        vec![(FORMAT_R32G32B32_SFLOAT, 0u32)]
    } else if bits == 0b11 {
        vec![(FORMAT_R32G32B32_SFLOAT, 0u32), (FORMAT_R32G32B32_SFLOAT, 12u32)]
    } else if bits == 0b1001 {
        vec![(FORMAT_R32G32B32_SFLOAT, 0u32), (FORMAT_R32G32_SFLOAT, 12u32)]
    } else if bits == 0b1011 {
        vec![(FORMAT_R32G32B32_SFLOAT, 0u32), (FORMAT_R32G32B32_SFLOAT, 12u32), (FORMAT_R32G32_SFLOAT, 24u32)]
    } else if bits == 0b11111111 {
        vec![
            (FORMAT_R32G32B32_SFLOAT, 0u32),
            (FORMAT_R32G32B32_SFLOAT, 12u32),
            (FORMAT_R32G32B32A32_SFLOAT, 24u32),
            (FORMAT_R32G32_SFLOAT, 40u32),
            (FORMAT_R32G32_SFLOAT, 48u32),
            (FORMAT_R32G32B32A32_SFLOAT, 56u32),
            (FORMAT_R16G16B16A16_UNORM, 72u32),
            (FORMAT_R32G32B32A32_SFLOAT, 80u32),
        ]
    } else {
        Vec::new()
    };
    assert(layout@ =~= spec_attribute_layout(bits));
    layout
}

/// The attributes of a supported combination are packed: the first, the
/// position (three floats), starts the vertex; each next one starts where the
/// one before it ends, its offset plus the size of its format; and the last
/// one ends where the vertex does, at the vertex size.
pub proof fn lemma_layout_packed(bits: u32)
    requires
        AttributeFlags::spec_vertex_size(bits) is Some,
    ensures
        spec_attribute_layout(bits).len() > 0,
        spec_attribute_layout(bits)[0] == (FORMAT_R32G32B32_SFLOAT, 0u32),
        forall|k: int|
            0 <= k < spec_attribute_layout(bits).len() - 1 ==> #[trigger] spec_attribute_layout(bits)[k + 1].1
                == spec_attribute_layout(bits)[k].1 + spec_format_size(spec_attribute_layout(bits)[k].0),
        spec_attribute_layout(bits).last().1 + spec_format_size(spec_attribute_layout(bits).last().0)
            == AttributeFlags::spec_vertex_size(bits).unwrap(),
{
    let layout = spec_attribute_layout(bits);
    assert forall|k: int| 0 <= k < layout.len() - 1 implies #[trigger] layout[k + 1].1 == layout[k].1
        + spec_format_size(layout[k].0) by {
        if bits == 0b11111111 {
            assert(k == 0 || k == 1 || k == 2 || k == 3 || k == 4 || k == 5 || k == 6);
        }
    }
}

/// A supported combination has one attribute per kind it holds, lowest flag
/// bit first, each in the format of its kind.
pub proof fn lemma_layout_kinds(bits: u32)
    requires
        AttributeFlags::spec_vertex_size(bits) is Some,
    ensures
        spec_attribute_layout(bits).len() == spec_kinds_from(bits, 0).len(),
        forall|k: int|
            0 <= k < spec_attribute_layout(bits).len() ==> #[trigger] spec_attribute_layout(bits)[k].0
                == spec_kind_format(spec_kinds_from(bits, 0)[k]),
{
    reveal_with_fuel(spec_kinds_from, 9);
    if bits == 0b1 {
        assert((1u32 >> 0u32) & 1u32 == 1u32 && (1u32 >> 1u32) & 1u32 == 0u32 && (1u32 >> 2u32) & 1u32 == 0u32
            && (1u32 >> 3u32) & 1u32 == 0u32 && (1u32 >> 4u32) & 1u32 == 0u32 && (1u32 >> 5u32) & 1u32 == 0u32
            && (1u32 >> 6u32) & 1u32 == 0u32 && (1u32 >> 7u32) & 1u32 == 0u32) by (bit_vector);
        assert(spec_kinds_from(bits, 0) =~= seq![0u32]);
    } else if bits == 0b11 {
        assert((3u32 >> 0u32) & 1u32 == 1u32 && (3u32 >> 1u32) & 1u32 == 1u32 && (3u32 >> 2u32) & 1u32 == 0u32
            && (3u32 >> 3u32) & 1u32 == 0u32 && (3u32 >> 4u32) & 1u32 == 0u32 && (3u32 >> 5u32) & 1u32 == 0u32
            && (3u32 >> 6u32) & 1u32 == 0u32 && (3u32 >> 7u32) & 1u32 == 0u32) by (bit_vector);
        assert(spec_kinds_from(bits, 0) =~= seq![0u32, 1u32]);
    } else if bits == 0b1001 {
        assert((9u32 >> 0u32) & 1u32 == 1u32 && (9u32 >> 1u32) & 1u32 == 0u32 && (9u32 >> 2u32) & 1u32 == 0u32
            && (9u32 >> 3u32) & 1u32 == 1u32 && (9u32 >> 4u32) & 1u32 == 0u32 && (9u32 >> 5u32) & 1u32 == 0u32
            && (9u32 >> 6u32) & 1u32 == 0u32 && (9u32 >> 7u32) & 1u32 == 0u32) by (bit_vector);
        assert(spec_kinds_from(bits, 0) =~= seq![0u32, 3u32]);
    } else if bits == 0b1011 {
        assert((11u32 >> 0u32) & 1u32 == 1u32 && (11u32 >> 1u32) & 1u32 == 1u32 && (11u32 >> 2u32) & 1u32 == 0u32
            && (11u32 >> 3u32) & 1u32 == 1u32 && (11u32 >> 4u32) & 1u32 == 0u32 && (11u32 >> 5u32) & 1u32 == 0u32
            && (11u32 >> 6u32) & 1u32 == 0u32 && (11u32 >> 7u32) & 1u32 == 0u32) by (bit_vector);
        assert(spec_kinds_from(bits, 0) =~= seq![0u32, 1u32, 3u32]);
    } else {
        assert((255u32 >> 0u32) & 1u32 == 1u32 && (255u32 >> 1u32) & 1u32 == 1u32 && (255u32 >> 2u32) & 1u32 == 1u32
            && (255u32 >> 3u32) & 1u32 == 1u32 && (255u32 >> 4u32) & 1u32 == 1u32 && (255u32 >> 5u32) & 1u32 == 1u32
            && (255u32 >> 6u32) & 1u32 == 1u32 && (255u32 >> 7u32) & 1u32 == 1u32) by (bit_vector);
        assert(spec_kinds_from(bits, 0) =~= seq![0u32, 1u32, 2u32, 3u32, 4u32, 5u32, 6u32, 7u32]);
    }
}

/// A prefix of attribute counts adds no more vertices than the whole list, and
/// its counts fit where the whole list's do.
pub proof fn lemma_read_vertices_prefix(counts: Seq<Option<usize>>, k: int)
    requires
        0 <= k <= counts.len(),
        spec_counts_fit(counts),
    ensures
        spec_read_vertices(counts.take(k)) <= spec_read_vertices(counts),
        spec_counts_fit(counts.take(k)),
        spec_read_vertices(counts.take(k)) != 0 ==> spec_read_vertices(counts) == spec_read_vertices(counts.take(k)),
    decreases counts.len(),
{
    if k < counts.len() {
        lemma_read_vertices_prefix(counts.drop_last(), k);
        assert(counts.drop_last().take(k) =~= counts.take(k));
    } else {
        assert(counts.take(k) =~= counts);
    }
}

} // verus!
