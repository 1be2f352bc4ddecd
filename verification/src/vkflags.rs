use vstd::prelude::*;

verus! {

/// Vulkan bit masks are kept as their raw `u32` value. `bits` contains
/// `other` when every bit set in `other` is set in `bits`.
pub open spec fn spec_contains(bits: u32, other: u32) -> bool {
    bits & other == other
}

/// Tests whether every bit of `other` is set in `bits`.
pub fn contains(bits: u32, other: u32) -> (res: bool)
    ensures
        res == spec_contains(bits, other),
{
    bits & other == other
}

/// A mask always contains itself.
pub proof fn lemma_contains_self(bits: u32)
    ensures
        spec_contains(bits, bits),
{
    assert(bits & bits == bits) by (bit_vector);
}

/// Packs a Vulkan version number the way `vk_make_version!` does.
pub open spec fn spec_make_version(major: u32, minor: u32, patch: u32) -> u32 {
    (major << 22u32) | (minor << 12u32) | patch
}

/// Packs a Vulkan version number.
pub fn make_version(major: u32, minor: u32, patch: u32) -> (version: u32)
    ensures
        version == spec_make_version(major, minor, patch),
{
    (major << 22u32) | (minor << 12u32) | patch
}

/// The major, minor and patch parts of a packed Vulkan version, as
/// `vk_version_major!`, `vk_version_minor!` and `vk_version_patch!` give them.
pub fn version_parts(version: u32) -> (parts: (u32, u32, u32))
    ensures
        parts.0 == version >> 22u32,
        parts.1 == (version >> 12u32) & 0x3ffu32,
        parts.2 == version & 0xfffu32,
{
    (version >> 22u32, (version >> 12u32) & 0x3ffu32, version & 0xfffu32)
}

/// Unpacking gives back the parts of a packed version whose parts fit their fields.
pub proof fn lemma_version_roundtrip(major: u32, minor: u32, patch: u32)
    requires
        major < 0x400,
        minor < 0x400,
        patch < 0x1000,
    ensures
        spec_make_version(major, minor, patch) >> 22u32 == major,
        (spec_make_version(major, minor, patch) >> 12u32) & 0x3ffu32 == minor,
        spec_make_version(major, minor, patch) & 0xfffu32 == patch,
{
    assert(((major << 22u32) | (minor << 12u32) | patch) >> 22u32 == major) by (bit_vector)
        requires
            major < 0x400,
            minor < 0x400,
            patch < 0x1000,
    ;
    assert(((((major << 22u32) | (minor << 12u32) | patch) >> 12u32) & 0x3ffu32) == minor)
        by (bit_vector)
        requires
            major < 0x400,
            minor < 0x400,
            patch < 0x1000,
    ;
    assert((((major << 22u32) | (minor << 12u32) | patch) & 0xfffu32) == patch) by (bit_vector)
        requires
            major < 0x400,
            minor < 0x400,
            patch < 0x1000,
    ;
}

} // verus!
