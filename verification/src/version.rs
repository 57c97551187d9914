//! Protocol versions as packed words.
//!
//! A version is one 16-bit word: the major number in the low byte, the minor
//! number in the high byte. A version range packs two such words into one
//! 32-bit word: the start version in the high word, the end version in the
//! low word.

use vstd::prelude::*;

verus! {

#[derive(Clone, Copy, PartialEq, Eq, Structural, Debug)]
pub struct Version {
    pub major: u8,
    pub minor: u8,
}

/// The packed word of a version: minor in the high byte, major in the low.
pub open spec fn spec_version_value(v: Version) -> u16 {
    ((v.minor as u16) << 8) | (v.major as u16)
}

impl Version {
    /// Unpacks a version word.
    pub fn new(version: u16) -> (r: Version)
        ensures
            r.major == (version & 0xff) as u8,
            r.minor == ((version >> 8) & 0xff) as u8,
    {
        proof {
            assert((version & 0xff) < 256 && ((version >> 8) & 0xff) < 256) by (bit_vector);
        }
        Version { major: (version & 0xff) as u8, minor: ((version >> 8) & 0xff) as u8 }
    }

    pub fn new_explicit(major: u8, minor: u8) -> (r: Version)
        ensures
            r == (Version { major, minor }),
    {
        Version { major, minor }
    }

    /// Packs the version back into its word.
    pub fn value(&self) -> (r: u16)
        ensures
            r == spec_version_value(*self),
    {
        ((self.minor as u16) << 8) | (self.major as u16)
    }
}

/// Unpacking a word and packing the result gives the word back.
pub proof fn lemma_version_value_roundtrip(version: u16)
    ensures
        spec_version_value(
            Version {
                major: (version & 0xff) as u8,
                minor: ((version >> 8) & 0xff) as u8,
            },
        ) == version,
{
    assert(((((version >> 8) & 0xff) as u8 as u16) << 8) | ((version & 0xff) as u8 as u16)
        == version) by (bit_vector);
}

#[derive(Clone, Copy, PartialEq, Eq, Structural, Debug)]
pub struct VersionRange {
    pub start: Version,
    pub end: Version,
}

/// The packed word of a range: the start version in the high word, the end
/// version in the low word.
pub open spec fn spec_range_value(r: VersionRange) -> u32 {
    ((spec_version_value(r.start) as u32) << 16) | (spec_version_value(r.end) as u32)
}

impl VersionRange {
    /// Unpacks a range word.
    pub fn new(dw_version: u32) -> (r: VersionRange)
        ensures
            r.start.major == ((dw_version >> 16) as u16 & 0xff) as u8,
            r.start.minor == (((dw_version >> 16) as u16 >> 8) & 0xff) as u8,
            r.end.major == ((dw_version & 0xffff) as u16 & 0xff) as u8,
            r.end.minor == (((dw_version & 0xffff) as u16 >> 8) & 0xff) as u8,
    {
        proof {
            assert((dw_version >> 16) <= 0xffff && (dw_version & 0xffff) <= 0xffff)
                by (bit_vector);
        }
        VersionRange {
            start: Version::new((dw_version >> 16) as u16),
            end: Version::new((dw_version & 0xffff) as u16),
        }
    }

    pub fn new_explicit(start: Version, end: Version) -> (r: VersionRange)
        ensures
            r == (VersionRange { start, end }),
    {
        VersionRange { start, end }
    }

    /// Packs the range back into its word.
    pub fn value(&self) -> (r: u32)
        ensures
            r == spec_range_value(*self),
    {
        ((self.start.value() as u32) << 16) | (self.end.value() as u32)
    }
}

/// Unpacking a range word and packing the result gives the word back.
pub proof fn lemma_range_value_roundtrip(dw_version: u32)
    ensures
        spec_range_value(
            VersionRange {
                start: Version {
                    major: ((dw_version >> 16) as u16 & 0xff) as u8,
                    minor: (((dw_version >> 16) as u16 >> 8) & 0xff) as u8,
                },
                end: Version {
                    major: ((dw_version & 0xffff) as u16 & 0xff) as u8,
                    minor: (((dw_version & 0xffff) as u16 >> 8) & 0xff) as u8,
                },
            },
        ) == dw_version,
{
    let s = (dw_version >> 16) as u16;
    let e = (dw_version & 0xffff) as u16;
    assert((((((s >> 8) & 0xff) as u8 as u16) << 8) | ((s & 0xff) as u8 as u16)) == s)
        by (bit_vector);
    assert((((((e >> 8) & 0xff) as u8 as u16) << 8) | ((e & 0xff) as u8 as u16)) == e)
        by (bit_vector);
    assert(s == (dw_version >> 16) as u16 && e == (dw_version & 0xffff) as u16 ==> (((s
        as u32) << 16) | (e as u32)) == dw_version) by (bit_vector);
}

} // verus!
