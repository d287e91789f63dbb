//! Vulkan's packed version numbers: ten bits of major, ten of minor and
//! twelve of patch, packed into one `u32`.

use vstd::prelude::*;

verus! {

pub const VERSION_MAJOR_SHIFT: u32 = 22;
pub const VERSION_MINOR_SHIFT: u32 = 12;
pub const VERSION_MAJOR_MASK: u32 = 0b1111111111_0000000000_000000000000;
pub const VERSION_MINOR_MASK: u32 = 0b0000000000_1111111111_000000000000;
pub const VERSION_PATCH_MASK: u32 = 0b0000000000_0000000000_111111111111;

/// The packed form of a (major, minor, patch) triple.
pub open spec fn spec_compact_version(major: u32, minor: u32, patch: u32) -> u32 {
    (major << VERSION_MAJOR_SHIFT) | (minor << VERSION_MINOR_SHIFT) | patch
}

/// The major field of a packed version.
pub open spec fn spec_version_major(compact: u32) -> u32 {
    (compact & VERSION_MAJOR_MASK) >> VERSION_MAJOR_SHIFT
}

/// The minor field of a packed version.
pub open spec fn spec_version_minor(compact: u32) -> u32 {
    (compact & VERSION_MINOR_MASK) >> VERSION_MINOR_SHIFT
}

/// The patch field of a packed version.
pub open spec fn spec_version_patch(compact: u32) -> u32 {
    compact & VERSION_PATCH_MASK
}

#[derive(Debug, Clone, Copy, PartialEq, Eq, Structural)]
pub struct VulkanVersion {
    pub major: u32,
    pub minor: u32,
    pub patch: u32,
}

impl VulkanVersion {
    pub fn new(major: u32, minor: u32, patch: u32) -> (v: Self)
        ensures
            v == (VulkanVersion { major, minor, patch }),
    {
        Self { major, minor, patch }
    }

    pub fn from_compact(compact: u32) -> (v: Self)
        ensures
            v.major == spec_version_major(compact),
            v.minor == spec_version_minor(compact),
            v.patch == spec_version_patch(compact),
    {
        let version = get_version(compact);
        Self { major: version.0, minor: version.1, patch: version.2 }
    }

    pub fn get_compact(&self) -> (compact: u32)
        ensures
            compact == spec_compact_version(self.major, self.minor, self.patch),
    {
        get_compact_version((self.major, self.minor, self.patch))
    }
}

pub fn get_compact_version(version: (u32, u32, u32)) -> (compact: u32)
    ensures
        compact == spec_compact_version(version.0, version.1, version.2),
{
    (version.0 << VERSION_MAJOR_SHIFT) | (version.1 << VERSION_MINOR_SHIFT) | version.2
}

pub fn get_version(compact: u32) -> (version: (u32, u32, u32))
    ensures
        version.0 == spec_version_major(compact),
        version.1 == spec_version_minor(compact),
        version.2 == spec_version_patch(compact),
{
    (
        (compact & VERSION_MAJOR_MASK) >> VERSION_MAJOR_SHIFT,
        (compact & VERSION_MINOR_MASK) >> VERSION_MINOR_SHIFT,
        compact & VERSION_PATCH_MASK,
    )
}

/// Packing a triple and unpacking it again gives the triple back, as long
/// as each field fits in its bit range.
pub proof fn lemma_version_pack_unpack(major: u32, minor: u32, patch: u32)
    requires
        major < 0x400,
        minor < 0x400,
        patch < 0x1000,
    ensures
        spec_version_major(spec_compact_version(major, minor, patch)) == major,
        spec_version_minor(spec_compact_version(major, minor, patch)) == minor,
        spec_version_patch(spec_compact_version(major, minor, patch)) == patch,
{
    assert(((((major << 22) | (minor << 12) | patch) & 0b1111111111_0000000000_000000000000u32)
        >> 22) == major) by (bit_vector)
        requires major < 0x400u32 && minor < 0x400u32 && patch < 0x1000u32;
    assert(((((major << 22) | (minor << 12) | patch) & 0b0000000000_1111111111_000000000000u32)
        >> 12) == minor) by (bit_vector)
        requires major < 0x400u32 && minor < 0x400u32 && patch < 0x1000u32;
    assert((((major << 22) | (minor << 12) | patch) & 0b0000000000_0000000000_111111111111u32)
        == patch) by (bit_vector)
        requires major < 0x400u32 && minor < 0x400u32 && patch < 0x1000u32;
}

/// The three bit ranges partition the whole word: unpacking a packed value
/// and packing the fields again gives the value back, for every `u32`.
pub proof fn lemma_version_unpack_pack(compact: u32)
    ensures
        spec_compact_version(
            spec_version_major(compact),
            spec_version_minor(compact),
            spec_version_patch(compact),
        ) == compact,
{
    let major = spec_version_major(compact);
    let minor = spec_version_minor(compact);
    let patch = spec_version_patch(compact);
    assert(spec_compact_version(major, minor, patch) == compact) by (bit_vector)
        requires
            major == (compact & 0b1111111111_0000000000_000000000000u32) >> 22,
            minor == (compact & 0b0000000000_1111111111_000000000000u32) >> 12,
            patch == compact & 0b0000000000_0000000000_111111111111u32;
}

} // verus!
