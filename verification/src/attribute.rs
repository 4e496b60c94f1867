//! Attribute flags that the metadata layer can apply to a file.
//!
//! An [`Attributes`] value is an immutable bit-set drawn from the three
//! platform-agnostic flags Normal, Hidden and ReadOnly.  The numeric values
//! of the flags follow the bitmask-based native model, where they are passed
//! through to the operating system unchanged.

use vstd::prelude::*;

verus! {

/// The flag word of a normal file (the native "no other bits set" sentinel).
pub const NORMAL_FLAG: u32 = 128;

/// The flag word of a hidden file.
pub const HIDDEN_FLAG: u32 = 2;

/// The flag word of a read-only file.
pub const READ_ONLY_FLAG: u32 = 1;

/// A set of attribute flags.  Flags are independent and may combine through
/// [`Attributes::union`]; the empty set is a valid value and applying it to
/// a file is a successful no-op.
#[derive(Clone, Copy, Debug, PartialEq, Eq, Structural)]
pub struct Attributes {
    pub bits: u32,
}

/// Whether every flag of `flag` is present in `bits`.
pub open spec fn spec_has_flag(bits: u32, flag: u32) -> bool {
    bits & flag == flag
}

impl Attributes {
    /// The empty attribute set.
    pub fn empty() -> (r: Attributes)
        ensures
            r.bits == 0,
    {
        Attributes { bits: 0 }
    }

    /// The Normal attribute.
    pub fn normal() -> (r: Attributes)
        ensures
            r.bits == NORMAL_FLAG,
    {
        Attributes { bits: NORMAL_FLAG }
    }

    /// The Hidden attribute.
    pub fn hidden() -> (r: Attributes)
        ensures
            r.bits == HIDDEN_FLAG,
    {
        Attributes { bits: HIDDEN_FLAG }
    }

    /// The ReadOnly attribute.
    pub fn read_only() -> (r: Attributes)
        ensures
            r.bits == READ_ONLY_FLAG,
    {
        Attributes { bits: READ_ONLY_FLAG }
    }

    /// Build a set directly from a flag word.
    pub fn from_bits(bits: u32) -> (r: Attributes)
        ensures
            r.bits == bits,
    {
        Attributes { bits }
    }

    /// The set holding every flag of `self` and every flag of `other`.
    pub fn union(self, other: Attributes) -> (r: Attributes)
        ensures
            r.bits == self.bits | other.bits,
    {
        Attributes { bits: self.bits | other.bits }
    }

    /// Whether every flag of `flag` is present in this set.
    pub open spec fn spec_contains(self, flag: u32) -> bool {
        spec_has_flag(self.bits, flag)
    }

    /// Whether every flag of `other` is present in this set.
    pub fn contains(self, other: Attributes) -> (r: bool)
        ensures
            r == spec_has_flag(self.bits, other.bits),
    {
        self.bits & other.bits == other.bits
    }

    /// Whether this set is empty.
    pub fn is_empty(self) -> (r: bool)
        ensures
            r == (self.bits == 0),
    {
        self.bits == 0
    }
}

} // verus!
