//! CAN-specific constants: the identifier flags and the value masks.

use vstd::prelude::*;

verus! {

/// Mask for standard identifiers: the low 11 bits.
pub const SFF_MASK: u32 = 0x0000_07ff;

/// Mask for extended identifiers: the low 29 bits.
pub const EFF_MASK: u32 = 0x1fff_ffff;

/// Bit of the flag that marks 29-bit addressing.
pub const EXTENDED_BIT: u32 = 0x8000_0000;

/// Bit of the flag that marks a remote transmission request.
pub const REMOTE_BIT: u32 = 0x4000_0000;

/// Bit of the flag that marks an error frame.
pub const ERROR_BIT: u32 = 0x2000_0000;

/// All three flag bits together.
pub const FLAGS_MASK: u32 = 0xe000_0000;

/// Each flag, no flag and all flags together lie outside the 29 bits of the
/// value.
proof fn lemma_flag_words()
    by (bit_vector)
    ensures
        0u32 & 0x1fff_ffffu32 == 0,
        0x8000_0000u32 & 0x1fff_ffffu32 == 0,
        0x4000_0000u32 & 0x1fff_ffffu32 == 0,
        0x2000_0000u32 & 0x1fff_ffffu32 == 0,
        0xe000_0000u32 & 0x1fff_ffffu32 == 0,
{
}

/// The set operations never leave the three flag bits.
proof fn lemma_flag_operations(a: u32, b: u32)
    by (bit_vector)
    ensures
        (a & 0xe000_0000u32) & 0x1fff_ffffu32 == 0,
        a & 0x1fff_ffffu32 == 0 ==> (a & b) & 0x1fff_ffffu32 == 0,
        a & 0x1fff_ffffu32 == 0 ==> (a & !b) & 0x1fff_ffffu32 == 0,
        a & 0x1fff_ffffu32 == 0 && b & 0x1fff_ffffu32 == 0 ==> (a | b) & 0x1fff_ffffu32 == 0,
        a & 0x1fff_ffffu32 == 0 && b & 0x1fff_ffffu32 == 0 ==> (a ^ b) & 0x1fff_ffffu32 == 0,
{
}

/// Identifier flags: a set drawn from extended, remote and error.
///
/// The set is held as a 32-bit word in which only the three most
/// significant bits may be set, so that flags and a 29-bit arbitration value
/// share one word without touching each other. The type does not keep
/// remote and error apart: a set may hold both.
#[derive(Clone, Copy, Debug, PartialEq, Eq, Structural, Hash)]
pub struct IdentifierFlags {
    bits: u32,
}

impl IdentifierFlags {
    /// The word that holds the set.
    pub closed spec fn spec_bits(&self) -> u32 {
        self.bits
    }

    /// Only flag bits are set.
    pub open spec fn wf(&self) -> bool {
        self.bits() & EFF_MASK == 0
    }

    #[verifier::type_invariant]
    spec fn inv(&self) -> bool {
        self.wf()
    }

    /// Two sets with the same word are the same set.
    pub proof fn lemma_bits_injective(a: IdentifierFlags, b: IdentifierFlags)
        ensures
            a.bits() == b.bits() <==> a == b,
    {
    }

    /// The set of no flags.
    pub fn empty() -> (r: IdentifierFlags)
        ensures
            r.bits() == 0,
            r.wf(),
    {
        proof {
            lemma_flag_words();
        }
        IdentifierFlags { bits: 0 }
    }

    /// The set of all three flags.
    pub fn all() -> (r: IdentifierFlags)
        ensures
            r.bits() == FLAGS_MASK,
            r.wf(),
    {
        proof {
            lemma_flag_words();
        }
        IdentifierFlags { bits: FLAGS_MASK }
    }

    /// The flag for the extended format, i.e. 29-bit identifiers.
    pub fn extended() -> (r: IdentifierFlags)
        ensures
            r.bits() == EXTENDED_BIT,
            r.wf(),
    {
        proof {
            lemma_flag_words();
        }
        IdentifierFlags { bits: EXTENDED_BIT }
    }

    /// The flag for a remote transmission request.
    pub fn remote() -> (r: IdentifierFlags)
        ensures
            r.bits() == REMOTE_BIT,
            r.wf(),
    {
        proof {
            lemma_flag_words();
        }
        IdentifierFlags { bits: REMOTE_BIT }
    }

    /// The flag for an error frame.
    pub fn error() -> (r: IdentifierFlags)
        ensures
            r.bits() == ERROR_BIT,
            r.wf(),
    {
        proof {
            lemma_flag_words();
        }
        IdentifierFlags { bits: ERROR_BIT }
    }

    /// The word that holds the set.
    #[verifier::when_used_as_spec(spec_bits)]
    pub fn bits(&self) -> (r: u32)
        ensures
            r == self.bits(),
            r & EFF_MASK == 0,
    {
        proof {
            use_type_invariant(self);
        }
        self.bits
    }

    /// The set held by `bits`, if `bits` sets no bit outside the three flags.
    pub fn from_bits(bits: u32) -> (r: Option<IdentifierFlags>)
        ensures
            r.is_some() <==> bits & EFF_MASK == 0,
            r.is_some() ==> r.unwrap().bits() == bits && r.unwrap().wf(),
    {
        if bits & EFF_MASK == 0 {
            Some(IdentifierFlags { bits })
        } else {
            None
        }
    }

    /// The set held by the flag bits of `bits`; every other bit is dropped.
    pub fn from_bits_truncate(bits: u32) -> (r: IdentifierFlags)
        ensures
            r.bits() == bits & FLAGS_MASK,
            r.wf(),
    {
        proof {
            lemma_flag_operations(bits, bits);
        }
        IdentifierFlags { bits: bits & FLAGS_MASK }
    }

    /// Whether the set holds no flag.
    pub fn is_empty(&self) -> (r: bool)
        ensures
            r <==> self.bits() == 0,
    {
        self.bits == 0
    }

    /// Whether every flag of `other` is in this set.
    pub fn contains(&self, other: IdentifierFlags) -> (r: bool)
        ensures
            r <==> self.bits() & other.bits() == other.bits(),
    {
        self.bits & other.bits == other.bits
    }

    /// Whether the two sets share a flag.
    pub fn intersects(&self, other: IdentifierFlags) -> (r: bool)
        ensures
            r <==> self.bits() & other.bits() != 0,
    {
        self.bits & other.bits != 0
    }

    /// The flags that are in either set.
    pub fn union(self, other: IdentifierFlags) -> (r: IdentifierFlags)
        ensures
            r.bits() == self.bits() | other.bits(),
            r.wf(),
    {
        let a: u32 = self.bits();
        let b: u32 = other.bits();
        proof {
            lemma_flag_operations(a, b);
        }
        IdentifierFlags { bits: a | b }
    }

    /// The flags that are in both sets.
    pub fn intersection(self, other: IdentifierFlags) -> (r: IdentifierFlags)
        ensures
            r.bits() == self.bits() & other.bits(),
            r.wf(),
    {
        let a: u32 = self.bits();
        let b: u32 = other.bits();
        proof {
            lemma_flag_operations(a, b);
        }
        IdentifierFlags { bits: a & b }
    }

    /// The flags of this set that are not in `other`.
    pub fn difference(self, other: IdentifierFlags) -> (r: IdentifierFlags)
        ensures
            r.bits() == self.bits() & !other.bits(),
            r.wf(),
    {
        let a: u32 = self.bits();
        let b: u32 = other.bits();
        proof {
            lemma_flag_operations(a, b);
        }
        IdentifierFlags { bits: a & !b }
    }

    /// The flags that are in exactly one of the two sets.
    pub fn symmetric_difference(self, other: IdentifierFlags) -> (r: IdentifierFlags)
        ensures
            r.bits() == self.bits() ^ other.bits(),
            r.wf(),
    {
        let a: u32 = self.bits();
        let b: u32 = other.bits();
        proof {
            lemma_flag_operations(a, b);
        }
        IdentifierFlags { bits: a ^ b }
    }

    /// The flags that are not in this set.
    pub fn complement(self) -> (r: IdentifierFlags)
        ensures
            r.bits() == !self.bits() & FLAGS_MASK,
            r.wf(),
    {
        IdentifierFlags::from_bits_truncate(!self.bits())
    }

    /// Whether the set holds all three flags.
    pub fn is_all(&self) -> (r: bool)
        ensures
            r <==> self.bits() == FLAGS_MASK,
    {
        self.bits == FLAGS_MASK
    }

    /// Puts the flags of `other` into this set.
    pub fn insert(&mut self, other: IdentifierFlags)
        ensures
            final(self).bits() == old(self).bits() | other.bits(),
            final(self).wf(),
    {
        *self = self.union(other);
    }

    /// Takes the flags of `other` out of this set.
    pub fn remove(&mut self, other: IdentifierFlags)
        ensures
            final(self).bits() == old(self).bits() & !other.bits(),
            final(self).wf(),
    {
        *self = self.difference(other);
    }

    /// Puts into this set the flags of `other` that it lacks, and takes out
    /// those that it holds.
    pub fn toggle(&mut self, other: IdentifierFlags)
        ensures
            final(self).bits() == old(self).bits() ^ other.bits(),
            final(self).wf(),
    {
        *self = self.symmetric_difference(other);
    }
}

} // verus!
