//! Behaviour flags for the native library's default log formatter.
//!
//! The flags are opaque pass-through bits: the bridge interprets none of
//! them, and unknown bits are preserved rather than rejected, since the
//! native library may grow new flags independently of this binding.

use vstd::prelude::*;

verus! {

/// Bit the native library reads as "suppress repeated lines".
pub const SKIP_REPEATED: i32 = 1;
/// Bit the native library reads as "prefix each line with its level".
pub const PRINT_LEVEL: i32 = 2;

/// A bit-set of independent behaviours of the native library's default
/// formatter, carried bit-for-bit.
#[derive(Clone, Copy, Debug, PartialEq, Eq, Structural)]
pub struct Flags {
    bits: i32,
}

impl Flags {
    /// The raw bit pattern this value carries.
    pub closed spec fn spec_bits(self) -> i32 {
        self.bits
    }

    /// The flag value carrying exactly the bit pattern `bits`.
    pub closed spec fn from_bits_spec(bits: i32) -> Flags {
        Flags { bits }
    }

    /// The empty bit-set.
    pub fn empty() -> (r: Flags)
        ensures
            r.spec_bits() == 0,
    {
        Flags { bits: 0 }
    }

    /// Wraps a raw bit pattern, keeping every bit — including bits this
    /// binding does not document.
    pub fn from_bits(bits: i32) -> (r: Flags)
        ensures
            r == Flags::from_bits_spec(bits),
            r.spec_bits() == bits,
    {
        Flags { bits }
    }

    /// The raw bit pattern, bit-for-bit as it was set.
    pub fn bits(self) -> (r: i32)
        ensures
            r == self.spec_bits(),
    {
        self.bits
    }

    /// Whether every bit of `other` is set in `self`.
    pub fn contains(self, other: Flags) -> (r: bool)
        ensures
            r == ((self.spec_bits() & other.spec_bits()) == other.spec_bits()),
    {
        (self.bits & other.bits) == other.bits
    }

    /// The union of the two bit-sets.
    pub fn union(self, other: Flags) -> (r: Flags)
        ensures
            r.spec_bits() == (self.spec_bits() | other.spec_bits()),
    {
        Flags { bits: self.bits | other.bits }
    }
}

/// Law: a flag value is exactly the wrap of its own bit pattern — no
/// information beyond the bits is carried.
pub proof fn lemma_from_bits_of_bits(f: Flags)
    ensures
        Flags::from_bits_spec(f.spec_bits()) == f,
{
}

} // verus!
