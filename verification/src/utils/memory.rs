use vstd::prelude::*;

use crate::vkflags::{contains, spec_contains};
use vstd::arithmetic::power2::{lemma_pow2_pos, pow2};
use vstd::bits::{
    low_bits_mask, lemma_u16_low_bits_mask_is_mod, lemma_u32_low_bits_mask_is_mod,
    lemma_u64_low_bits_mask_is_mod, lemma_u8_low_bits_mask_is_mod, lemma_usize_low_bits_mask_is_mod,
};

verus! {

/// `v` rounded up to a multiple of the power of two `a`.
pub open spec fn spec_align_up(v: int, a: int) -> int {
    (v + a - 1) - (v + a - 1) % a
}

/// Integers that can be rounded up to a power-of-two alignment.
pub trait IntegerAlignable: Sized {
    /// The mathematical value of the integer.
    spec fn spec_value(self) -> int;

    /// `alignment` is a power of two and rounding `self` up to it does not overflow.
    spec fn spec_can_align(self, alignment: Self) -> bool;

    /// Aligns an integer to `alignment`, which must be a power of two.
    ///
    /// `127.align_to(128)` is `128`; `129.align_to(128)` is `256`.
    fn align_to(self, alignment: Self) -> (aligned: Self)
        requires
            self.spec_can_align(alignment),
        ensures
            aligned.spec_value() == spec_align_up(self.spec_value(), alignment.spec_value()),
    ;
}

impl IntegerAlignable for u8 {
    open spec fn spec_value(self) -> int {
        self as int
    }

    open spec fn spec_can_align(self, alignment: u8) -> bool {
        &&& exists|n: nat| n < 8 && alignment == #[trigger] pow2(n)
        &&& self + alignment <= u8::MAX
    }

    fn align_to(self, alignment: u8) -> (aligned: u8) {
        let ghost n = choose|n: nat| n < 8 && alignment == #[trigger] pow2(n);
        proof {
            lemma_pow2_pos(n);
        }
        let v = self + alignment - 1;
        let mask = alignment - 1;
        proof {
            lemma_u8_low_bits_mask_is_mod(v, n);
            assert(low_bits_mask(n) as u8 == mask);
            assert((v & !mask) + (v & mask) == v) by (bit_vector);
        }
        v & !mask
    }
}

impl IntegerAlignable for u16 {
    open spec fn spec_value(self) -> int {
        self as int
    }

    open spec fn spec_can_align(self, alignment: u16) -> bool {
        &&& exists|n: nat| n < 16 && alignment == #[trigger] pow2(n)
        &&& self + alignment <= u16::MAX
    }

    fn align_to(self, alignment: u16) -> (aligned: u16) {
        let ghost n = choose|n: nat| n < 16 && alignment == #[trigger] pow2(n);
        proof {
            lemma_pow2_pos(n);
        }
        let v = self + alignment - 1;
        let mask = alignment - 1;
        proof {
            lemma_u16_low_bits_mask_is_mod(v, n);
            assert(low_bits_mask(n) as u16 == mask);
            assert((v & !mask) + (v & mask) == v) by (bit_vector);
        }
        v & !mask
    }
}

impl IntegerAlignable for u32 {
    open spec fn spec_value(self) -> int {
        self as int
    }

    open spec fn spec_can_align(self, alignment: u32) -> bool {
        &&& exists|n: nat| n < 32 && alignment == #[trigger] pow2(n)
        &&& self + alignment <= u32::MAX
    }

    fn align_to(self, alignment: u32) -> (aligned: u32) {
        let ghost n = choose|n: nat| n < 32 && alignment == #[trigger] pow2(n);
        proof {
            lemma_pow2_pos(n);
        }
        let v = self + alignment - 1;
        let mask = alignment - 1;
        proof {
            lemma_u32_low_bits_mask_is_mod(v, n);
            assert(low_bits_mask(n) as u32 == mask);
            assert((v & !mask) + (v & mask) == v) by (bit_vector);
        }
        v & !mask
    }
}

impl IntegerAlignable for u64 {
    open spec fn spec_value(self) -> int {
        self as int
    }

    open spec fn spec_can_align(self, alignment: u64) -> bool {
        &&& exists|n: nat| n < 64 && alignment == #[trigger] pow2(n)
        &&& self + alignment <= u64::MAX
    }

    fn align_to(self, alignment: u64) -> (aligned: u64) {
        let ghost n = choose|n: nat| n < 64 && alignment == #[trigger] pow2(n);
        proof {
            lemma_pow2_pos(n);
        }
        let v = self + alignment - 1;
        let mask = alignment - 1;
        proof {
            lemma_u64_low_bits_mask_is_mod(v, n);
            assert(low_bits_mask(n) as u64 == mask);
            assert((v & !mask) + (v & mask) == v) by (bit_vector);
        }
        v & !mask
    }
}

impl IntegerAlignable for usize {
    open spec fn spec_value(self) -> int {
        self as int
    }

    open spec fn spec_can_align(self, alignment: usize) -> bool {
        &&& exists|n: nat| n < usize::BITS && alignment == #[trigger] pow2(n)
        &&& self + alignment <= usize::MAX
    }

    fn align_to(self, alignment: usize) -> (aligned: usize) {
        let ghost n = choose|n: nat| n < usize::BITS && alignment == #[trigger] pow2(n);
        proof {
            lemma_pow2_pos(n);
        }
        let v = self + alignment - 1;
        let mask = alignment - 1;
        proof {
            lemma_usize_low_bits_mask_is_mod(v, n);
            assert(low_bits_mask(n) as usize == mask);
            assert((v & !mask) + (v & mask) == v) by (bit_vector);
        }
        v & !mask
    }
}

/// Rounding up gives the smallest multiple of the alignment that is not below
/// the value, and rounding an aligned value changes nothing.
pub proof fn lemma_align_up(v: int, a: int)
    requires
        0 <= v,
        0 < a,
    ensures
        spec_align_up(v, a) % a == 0,
        v <= spec_align_up(v, a) < v + a,
        spec_align_up(spec_align_up(v, a), a) == spec_align_up(v, a),
{
    let x = v + a - 1;
    let r = spec_align_up(v, a);
    vstd::arithmetic::div_mod::lemma_fundamental_div_mod(x, a);
    vstd::arithmetic::div_mod::lemma_mod_bound(x, a);
    assert(r == a * (x / a));
    vstd::arithmetic::div_mod::lemma_mod_multiples_basic(x / a, a);
    vstd::arithmetic::mul::lemma_mul_is_commutative(a, x / a);
    assert(r % a == 0);
    let y = r + a - 1;
    vstd::arithmetic::div_mod::lemma_mod_multiples_vanish(x / a, a - 1, a);
    vstd::arithmetic::div_mod::lemma_small_mod((a - 1) as nat, a as nat);
    assert(y % a == a - 1);
}

/// Bit `i` of a memory type mask: whether memory type `i` is acceptable.
pub open spec fn spec_type_bit(type_bits: u32, i: int) -> bool {
    0 <= i < 32 && (type_bits >> (i as u32)) & 1u32 == 1u32
}

/// Memory type `i` is acceptable and has every requested property.
pub open spec fn spec_memory_type_fits(memory_types: Seq<u32>, type_bits: u32, properties: u32, i: int) -> bool {
    spec_type_bit(type_bits, i) && spec_contains(memory_types[i], properties)
}

/// The first memory type, among `memory_types` (the property flags of each
/// memory type of the device), that `type_bits` accepts and that has every
/// property in `properties`.
pub fn find_memory_type_index(memory_types: &Vec<u32>, type_bits: u32, properties: u32) -> (index: Option<u32>)
    requires
        memory_types.len() <= 32,
    ensures
        match index {
            Some(i) => i < memory_types.len() && spec_memory_type_fits(memory_types@, type_bits, properties, i as int)
                && forall|j: int| 0 <= j < i ==> !spec_memory_type_fits(memory_types@, type_bits, properties, j),
            None => forall|j: int| 0 <= j < memory_types.len() ==> !spec_memory_type_fits(memory_types@, type_bits, properties, j),
        },
{
    let count = memory_types.len();
    let mut bits = type_bits;
    assert(type_bits >> 0u32 == type_bits) by (bit_vector);
    let mut i: usize = 0;
    while i < count
        invariant
            count == memory_types.len(),
            count <= 32,
            i <= count,
            bits == type_bits >> (i as u32),
            forall|j: int| 0 <= j < i ==> !spec_memory_type_fits(memory_types@, type_bits, properties, j),
        decreases count - i,
    {
        if (bits & 1) == 1 {
            if contains(memory_types[i], properties) {
                return Some(i as u32);
            }
        }
        let k = i as u32;
        assert((type_bits >> k) >> 1u32 == type_bits >> ((k + 1) as u32)) by (bit_vector)
            requires
                k < 32,
        ;
        bits = bits >> 1;
        i = i + 1;
    }
    None
}

/// The first memory type that `type_bits` accepts and that has every property
/// in `properties`; one such type must exist.
pub fn get_memory_type_index(memory_types: &Vec<u32>, type_bits: u32, properties: u32) -> (index: u32)
    requires
        memory_types.len() <= 32,
        exists|j: int| 0 <= j < memory_types.len() && spec_memory_type_fits(memory_types@, type_bits, properties, j),
    ensures
        index < memory_types.len(),
        spec_memory_type_fits(memory_types@, type_bits, properties, index as int),
        forall|j: int| 0 <= j < index ==> !spec_memory_type_fits(memory_types@, type_bits, properties, j),
{
    match find_memory_type_index(memory_types, type_bits, properties) {
        Some(index) => index,
        None => {
            proof {
                let j = choose|j: int| 0 <= j < memory_types.len() && spec_memory_type_fits(memory_types@, type_bits, properties, j);
                assert(!spec_memory_type_fits(memory_types@, type_bits, properties, j));
            }
            0
        },
    }
}

/// Whether memory type `memory_type_index` has every property in `request_flags`.
pub fn is_memory_support_flags(memory_types: &Vec<u32>, memory_type_index: u32, request_flags: u32) -> (supported: bool)
    requires
        memory_type_index < memory_types.len(),
    ensures
        supported == spec_contains(memory_types@[memory_type_index as int], request_flags),
{
    contains(memory_types[memory_type_index as usize], request_flags)
}

} // verus!
