use vstd::prelude::*;

use crate::ci::pipeline::state::{VertexInputAttribute, VertexInputBinding, VertexInputSCI, VERTEX_INPUT_RATE_VERTEX};
use crate::error::{VkError, VkResult};
use crate::gltf::attributes::{FORMAT_R32G32_SFLOAT, FORMAT_R32G32B32A32_SFLOAT};

verus! {

/// Each character is drawn as two triangles.
pub const VERTEX_PER_CHARACTER: usize = 6;

/// The most texts that the text pool holds.
pub const MAXIMUM_SENTENCE_COUNT: usize = 10;

/// The most characters that one text may hold.
pub const MAXIMUM_SENTENCE_TEXT_COUNT: usize = 100;

/// Whether a text can change after it was added.
#[derive(Debug, Clone, Copy, PartialEq, Eq, Structural)]
pub enum TextType {
    /// The text is drawn as it was first set.
    Static,
    /// The text may change at run time; `capacity` characters are always
    /// drawn, padded with spaces.
    Dynamic { capacity: usize },
}

/// The horizontal alignment of a text.
#[derive(Debug, Clone, Copy, PartialEq, Eq, Structural)]
pub enum TextHAlign {
    Left,
    Center,
    Right,
}

/// The number of characters that a text of `len` bytes is drawn with.
pub open spec fn spec_drawn_characters(text_type: TextType, len: nat) -> nat {
    match text_type {
        TextType::Static => len,
        TextType::Dynamic { capacity } => if len >= capacity {
            len
        } else {
            capacity as nat
        },
    }
}

/// Walks the characters of a text: each byte of the content as a character,
/// then, for a dynamic text, `None` for each padding space up to its capacity.
pub struct TextIter<'a> {
    content: &'a [u8],
    current: usize,
    len: usize,
    capacity: usize,
}

impl<'a> TextIter<'a> {
    /// The bytes of the text.
    pub closed spec fn bytes(&self) -> Seq<u8> {
        self.content@
    }

    /// How many items were handed out.
    pub closed spec fn position(&self) -> nat {
        self.current as nat
    }

    /// How many items are handed out before the walk ends: the number of
    /// bytes, or the capacity where that is more.
    pub closed spec fn end(&self) -> nat {
        if self.len >= self.capacity {
            self.len as nat
        } else {
            self.capacity as nat
        }
    }

    pub closed spec fn wf(&self) -> bool {
        &&& self.len == self.content@.len()
        &&& self.current <= self.end()
    }

    /// The characters of `content`, drawn as a text of type `text_type`.
    pub fn new(content: &'a [u8], text_type: TextType) -> (iter: TextIter<'a>)
        ensures
            iter.wf(),
            iter.bytes() == content@,
            iter.position() == 0,
            iter.end() == spec_drawn_characters(text_type, content@.len()),
    {
        let bytes_length = content.len();
        let capacity = match text_type {
            TextType::Static => bytes_length,
            TextType::Dynamic { capacity } => capacity,
        };
        TextIter { content, current: 0, len: bytes_length, capacity }
    }

    /// The next character: `Some(Some(c))` for a byte of the text, `Some(None)`
    /// for a padding space, `None` at the end.
    pub fn next(&mut self) -> (item: Option<Option<char>>)
        requires
            old(self).wf(),
        ensures
            final(self).wf(),
            final(self).bytes() == old(self).bytes(),
            final(self).end() == old(self).end(),
            if old(self).position() < old(self).bytes().len() {
                &&& item == Some(Some(old(self).bytes()[old(self).position() as int] as char))
                &&& final(self).position() == old(self).position() + 1
            } else if old(self).position() < old(self).end() {
                &&& item == Some(None::<char>)
                &&& final(self).position() == old(self).position() + 1
            } else {
                &&& item == None::<Option<char>>
                &&& final(self).position() == old(self).position()
            },
    {
        let result = if self.current < self.len {
            Some(self.content[self.current] as char)
        } else {
            if self.current < self.capacity {
                None
            } else {
                return None;
            }
        };
        self.current = self.current + 1;
        Some(result)
    }
}

/// A text in the pool: its type and the length in bytes of its content.
#[derive(Debug, Clone, Copy, PartialEq, Eq, Structural)]
pub struct TextSlot {
    pub text_type: TextType,
    pub length: usize,
}

/// The draw call of one text: how many vertices, from which vertex.
#[derive(Debug, Clone, Copy, PartialEq, Eq, Structural)]
pub struct TextDraw {
    pub vertex_count: u32,
    pub first_vertex: u32,
}

/// The characters that a text slot is drawn with, as the draw call counts
/// them: the content's length for a static text, the capacity for a dynamic one.
pub open spec fn spec_slot_characters(slot: TextSlot) -> nat {
    match slot.text_type {
        TextType::Static => slot.length as nat,
        TextType::Dynamic { capacity } => capacity as nat,
    }
}

/// A text fits in its slot of the vertex buffer.
pub open spec fn spec_slot_fits(slot: TextSlot) -> bool {
    spec_drawn_characters(slot.text_type, slot.length as nat) <= MAXIMUM_SENTENCE_TEXT_COUNT
}

/// The texts that the text renderer draws, each in a slot of its own in the
/// vertex buffer.
pub struct TextSlots {
    texts: Vec<TextSlot>,
}

impl TextSlots {
    pub closed spec fn slots(&self) -> Seq<TextSlot> {
        self.texts@
    }

    pub open spec fn wf(&self) -> bool {
        &&& self.slots().len() <= MAXIMUM_SENTENCE_COUNT
        &&& forall|i: int| 0 <= i < self.slots().len() ==> spec_slot_fits(#[trigger] self.slots()[i])
    }

    pub fn new() -> (pool: TextSlots)
        ensures
            pool.wf(),
            pool.slots() == Seq::<TextSlot>::empty(),
    {
        TextSlots { texts: Vec::new() }
    }

    /// Adds a text of `length` bytes and returns its id. A pool that holds the
    /// most texts, a text that is too long, or a dynamic text whose capacity
    /// would overrun its slot, is refused.
    pub fn add_text(&mut self, text_type: TextType, length: usize) -> (result: VkResult<usize>)
        requires
            old(self).wf(),
        ensures
            final(self).wf(),
            if old(self).slots().len() >= MAXIMUM_SENTENCE_COUNT {
                &&& result == Err::<usize, VkError>(VkError::Custom("The text pool can't contain more than 10 sentence."))
                &&& final(self).slots() == old(self).slots()
            } else if length > MAXIMUM_SENTENCE_TEXT_COUNT {
                &&& result == Err::<usize, VkError>(VkError::Custom("Each sentence can't contain more that 100 character."))
                &&& final(self).slots() == old(self).slots()
            } else if text_type matches TextType::Dynamic { capacity } && capacity > MAXIMUM_SENTENCE_TEXT_COUNT {
                &&& result == Err::<usize, VkError>(VkError::Custom("A dynamic sentence can't hold more than 100 character."))
                &&& final(self).slots() == old(self).slots()
            } else {
                &&& result == Ok::<usize, VkError>(old(self).slots().len() as usize)
                &&& final(self).slots() == old(self).slots().push(TextSlot { text_type, length })
            },
    {
        if self.texts.len() < MAXIMUM_SENTENCE_COUNT {
            if length <= MAXIMUM_SENTENCE_TEXT_COUNT {
                if let TextType::Dynamic { capacity } = text_type {
                    if capacity > MAXIMUM_SENTENCE_TEXT_COUNT {
                        return Err(VkError::Custom("A dynamic sentence can't hold more than 100 character."));
                    }
                }
                let new_text_id = self.texts.len();
                self.texts.push(TextSlot { text_type, length });
                Ok(new_text_id)
            } else {
                Err(VkError::Custom("Each sentence can't contain more that 100 character."))
            }
        } else {
            Err(VkError::Custom("The text pool can't contain more than 10 sentence."))
        }
    }

    /// Replaces the content of text `update_text` by one of `length` bytes.
    pub fn change_text(&mut self, length: usize, update_text: usize)
        requires
            old(self).wf(),
            update_text < old(self).slots().len(),
            spec_drawn_characters(old(self).slots()[update_text as int].text_type, length as nat)
                <= MAXIMUM_SENTENCE_TEXT_COUNT,
        ensures
            final(self).wf(),
            final(self).slots() == old(self).slots().update(
                update_text as int,
                TextSlot { length, ..old(self).slots()[update_text as int] },
            ),
    {
        let slot = TextSlot { length, ..self.texts[update_text] };
        self.texts.set(update_text, slot);
    }

    /// The first vertex of the slot of text `text`.
    pub fn vertex_offset(&self, text: usize) -> (offset: usize)
        requires
            self.wf(),
            text < self.slots().len(),
        ensures
            offset == MAXIMUM_SENTENCE_TEXT_COUNT * VERTEX_PER_CHARACTER * text,
    {
        MAXIMUM_SENTENCE_TEXT_COUNT * VERTEX_PER_CHARACTER * text
    }

    /// The draw calls of the texts, in the order they were added: each draws
    /// its characters from the start of its own slot.
    pub fn draw_calls(&self) -> (draws: Vec<TextDraw>)
        requires
            self.wf(),
        ensures
            draws@.len() == self.slots().len(),
            forall|i: int| 0 <= i < draws@.len() ==> #[trigger] draws@[i] == (TextDraw {
                vertex_count: (spec_slot_characters(self.slots()[i]) * VERTEX_PER_CHARACTER) as u32,
                first_vertex: (i * (MAXIMUM_SENTENCE_TEXT_COUNT * VERTEX_PER_CHARACTER)) as u32,
            }),
    {
        let mut draws: Vec<TextDraw> = Vec::new();
        let mut first_vertex: u32 = 0;
        let n = self.texts.len();
        for i in 0..n
            invariant
                n == self.slots().len(),
                self.wf(),
                draws@.len() == i,
                first_vertex == i * 600,
                forall|j: int| 0 <= j < i ==> #[trigger] draws@[j] == (TextDraw {
                    vertex_count: (spec_slot_characters(self.slots()[j]) * VERTEX_PER_CHARACTER) as u32,
                    first_vertex: (j * (MAXIMUM_SENTENCE_TEXT_COUNT * VERTEX_PER_CHARACTER)) as u32,
                }),
        {
            let slot = self.texts[i];
            assert(spec_slot_fits(self.slots()[i as int]));
            let character_count = match slot.text_type {
                TextType::Static => slot.length,
                TextType::Dynamic { capacity } => capacity,
            };
            let render_vertex_count = (character_count * VERTEX_PER_CHARACTER) as u32;
            draws.push(TextDraw { vertex_count: render_vertex_count, first_vertex });
            first_vertex = first_vertex + 600;
        }
        draws
    }
}

/// The vertices that the texts of a pool draw never overlap: each text draws
/// within its own slot of the vertex buffer.
pub proof fn lemma_text_draws_disjoint(slots: Seq<TextSlot>, i: int, j: int)
    requires
        slots.len() <= MAXIMUM_SENTENCE_COUNT,
        forall|k: int| 0 <= k < slots.len() ==> spec_slot_fits(#[trigger] slots[k]),
        0 <= i < j < slots.len(),
    ensures
        i * (MAXIMUM_SENTENCE_TEXT_COUNT * VERTEX_PER_CHARACTER) + spec_slot_characters(slots[i]) * VERTEX_PER_CHARACTER
            <= j * (MAXIMUM_SENTENCE_TEXT_COUNT * VERTEX_PER_CHARACTER),
{
    assert(spec_slot_fits(slots[i]));
    let c = spec_slot_characters(slots[i]) as int;
    assert(c <= 100);
    assert(i * 600 + c * 6 <= j * 600) by (nonlinear_arith)
        requires
            0 <= c <= 100,
            0 <= i < j,
    ;
}

/// The size in bytes of one character vertex: a 2-float position, a 2-float
/// texture coordinate and a 4-float colour.
pub const CHARACTER_VERTEX_SIZE: u32 = 32;

/// How a pipeline reads character vertices: one binding, stepping one vertex
/// at a time, with the position at location 0, the texture coordinate at 1 and
/// the colour at 2.
pub fn input_descriptions() -> (sci: VertexInputSCI)
    ensures
        sci.flags == 0,
        sci.bindings@ == seq![
            VertexInputBinding { binding: 0, stride: CHARACTER_VERTEX_SIZE, input_rate: VERTEX_INPUT_RATE_VERTEX },
        ],
        sci.attributes@ == seq![
            VertexInputAttribute { location: 0, binding: 0, format: FORMAT_R32G32_SFLOAT, offset: 0 },
            VertexInputAttribute { location: 1, binding: 0, format: FORMAT_R32G32_SFLOAT, offset: 8 },
            VertexInputAttribute { location: 2, binding: 0, format: FORMAT_R32G32B32A32_SFLOAT, offset: 16 },
        ],
{
    VertexInputSCI::new().add_binding(
        VertexInputBinding { binding: 0, stride: CHARACTER_VERTEX_SIZE, input_rate: VERTEX_INPUT_RATE_VERTEX },
    ).add_attribute(VertexInputAttribute { location: 0, binding: 0, format: FORMAT_R32G32_SFLOAT, offset: 0 }).add_attribute(
        VertexInputAttribute { location: 1, binding: 0, format: FORMAT_R32G32_SFLOAT, offset: 8 },
    ).add_attribute(VertexInputAttribute { location: 2, binding: 0, format: FORMAT_R32G32B32A32_SFLOAT, offset: 16 })
}

} // verus!
