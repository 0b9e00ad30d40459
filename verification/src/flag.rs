//! Frame status flags.
//!
//! A buffer carries its status flags as a raw integer bitfield. This module
//! models that bitfield as a typed flag set with a fixed vocabulary of named
//! bits. Construction from a raw integer is deliberately lenient: bits
//! outside the known vocabulary are discarded, never rejected, so that
//! integers written by a newer producer still decode.

use vstd::prelude::*;

verus! {

/// The frame's payload is known to be damaged.
pub const CORRUPT: u32 = 0x1;
/// The frame is a key frame.
pub const KEY: u32 = 0x2;
/// The frame should be dropped by downstream consumers.
pub const DISCARD: u32 = 0x4;
/// The frame's content is interlaced.
pub const INTERLACED: u32 = 0x8;

/// Every bit this layer understands; anything outside is unrecognized.
pub const ALL_FLAGS: u32 = CORRUPT | KEY | DISCARD | INTERLACED;

/// A set of frame status flags. Pure value semantics: equality and
/// containment queries only, no ownership.
#[derive(Clone, Copy, Debug, PartialEq, Eq, Structural)]
pub struct Flags {
    pub bits: u32,
}

impl Flags {
    /// The flag set decoded from a raw bitfield: known bits kept,
    /// unrecognized bits dropped.
    pub open spec fn spec_truncate(raw: u32) -> Flags {
        Flags { bits: raw & ALL_FLAGS }
    }

    /// Whether every flag of `other` is also set in `self`.
    pub open spec fn spec_contains(self, other: Flags) -> bool {
        self.bits & other.bits == other.bits
    }

    /// The empty flag set.
    pub fn empty() -> (r: Flags)
        ensures
            r.bits == 0,
    {
        Flags { bits: 0 }
    }

    /// Decode a raw bitfield, silently discarding unrecognized bits.
    /// This leniency is a deliberate forward-compatibility policy, not an
    /// error path.
    pub fn from_bits_truncate(raw: u32) -> (r: Flags)
        ensures
            r == Flags::spec_truncate(raw),
    {
        Flags { bits: raw & ALL_FLAGS }
    }

    /// The raw bit pattern of this flag set.
    pub fn bits(self) -> (r: u32)
        ensures
            r == self.bits,
    {
        self.bits
    }

    /// Containment query: does `self` hold every flag of `other`?
    pub fn contains(self, other: Flags) -> (r: bool)
        ensures
            r == self.spec_contains(other),
    {
        self.bits & other.bits == other.bits
    }

    /// Whether no flag at all is set.
    pub fn is_empty(self) -> (r: bool)
        ensures
            r == (self.bits == 0),
    {
        self.bits == 0
    }
}

/// Law: decoding a raw integer with unrecognized high bits set yields the
/// same flag set as decoding the integer with those bits already cleared.
pub proof fn lemma_truncate_forward_compatible(raw: u32)
    ensures
        Flags::spec_truncate(raw) == Flags::spec_truncate(raw & ALL_FLAGS),
{
    let m: u32 = ALL_FLAGS;
    assert((raw & m) & m == raw & m) by (bit_vector);
}

} // verus!
