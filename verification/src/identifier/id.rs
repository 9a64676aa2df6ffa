//! CAN identifiers.

use crate::constants::IdentifierFlags;
use crate::constants::EFF_MASK;
use crate::constants::EXTENDED_BIT;
use crate::constants::SFF_MASK;
use std::cmp::Ordering;
use vstd::prelude::*;
use vstd::std_specs::cmp::PartialOrdSpec;
use vstd::std_specs::convert::FromSpecImpl;

verus! {

/// What clearing and setting the extended bit does to a word, and to the
/// empty word.
proof fn lemma_extended_bit(a: u32)
    by (bit_vector)
    ensures
        (a & !0x8000_0000u32) & 0x8000_0000u32 == 0,
        (a | 0x8000_0000u32) & 0x8000_0000u32 == 0x8000_0000u32,
        0u32 & 0x8000_0000u32 == 0,
        0u32 & !0x8000_0000u32 == 0,
        0u32 | 0x8000_0000u32 == 0x8000_0000u32,
        0x8000_0000u32 & 0x8000_0000u32 == 0x8000_0000u32,
{
}

/// Standard (11-bit) CAN identifier, with its flags.
///
/// Commonly referred to as CAN 2.0A. The value lies in 0 to 0x7FF,
/// inclusive, and the flags never hold the extended flag.
#[derive(Clone, Copy, Debug, PartialEq, Eq, Structural, Hash)]
pub struct StandardId {
    raw: u16,
    flags: IdentifierFlags,
}

impl StandardId {
    /// The arbitration value, without the flags.
    pub closed spec fn spec_as_raw(&self) -> u16 {
        self.raw
    }

    /// The flags.
    pub closed spec fn spec_flags(&self) -> IdentifierFlags {
        self.flags
    }

    /// The value fits in 11 bits, and the flags are a valid set without the
    /// extended flag.
    pub open spec fn wf(&self) -> bool {
        &&& self.as_raw() <= SFF_MASK
        &&& self.flags().wf()
        &&& self.flags().bits() & EXTENDED_BIT == 0
    }

    #[verifier::type_invariant]
    spec fn inv(&self) -> bool {
        self.wf()
    }

    /// Value and flags in one 32-bit word.
    pub open spec fn word(&self) -> u32 {
        (self.as_raw() as u32) | self.flags().bits()
    }

    /// Two standard identifiers with the same value and flags are the same.
    pub proof fn lemma_fields_injective(a: StandardId, b: StandardId)
        ensures
            (a.as_raw() == b.as_raw() && a.flags() == b.flags()) <==> a == b,
    {
    }

    /// The lowest standard identifier, which has the highest priority. No
    /// flag is set.
    pub fn zero() -> (r: StandardId)
        ensures
            r.as_raw() == 0,
            r.flags().bits() == 0,
            r.wf(),
    {
        let flags = IdentifierFlags::empty();
        proof {
            lemma_extended_bit(0);
        }
        StandardId { raw: 0, flags }
    }

    /// The highest standard identifier, which has the lowest priority. No
    /// flag is set.
    pub fn max() -> (r: StandardId)
        ensures
            r.as_raw() == SFF_MASK,
            r.flags().bits() == 0,
            r.wf(),
    {
        let flags = IdentifierFlags::empty();
        proof {
            lemma_extended_bit(0);
        }
        StandardId { raw: 0x7FF, flags }
    }

    /// Creates a `StandardId` without flags.
    ///
    /// Returns `None` if `identifier` is greater than 0x7FF.
    pub fn new(identifier: u16) -> (r: Option<StandardId>)
        ensures
            r.is_some() <==> identifier <= SFF_MASK,
            r.is_some() ==> {
                &&& r.unwrap().as_raw() == identifier
                &&& r.unwrap().flags().bits() == 0
                &&& r.unwrap().wf()
            },
    {
        let r = StandardId::with_flags(identifier, IdentifierFlags::empty());
        proof {
            lemma_extended_bit(0);
        }
        r
    }

    /// Creates a `StandardId` that carries `flags`, without the extended
    /// flag: a standard identifier cannot be marked extended.
    ///
    /// Returns `None` if `identifier` is greater than 0x7FF.
    pub fn with_flags(identifier: u16, flags: IdentifierFlags) -> (r: Option<StandardId>)
        ensures
            r.is_some() <==> identifier <= SFF_MASK,
            r.is_some() ==> {
                &&& r.unwrap().as_raw() == identifier
                &&& r.unwrap().flags().bits() == flags.bits() & !EXTENDED_BIT
                &&& r.unwrap().wf()
            },
    {
        if identifier <= 0x7FF {
            let given = flags;
            let flags = given.difference(IdentifierFlags::extended());
            proof {
                lemma_extended_bit(given.bits());
            }
            Some(StandardId { raw: identifier, flags })
        } else {
            None
        }
    }

    /// Returns the identifier as a raw integer, without the flags.
    #[verifier::when_used_as_spec(spec_as_raw)]
    pub fn as_raw(&self) -> (r: u16)
        ensures
            r == self.as_raw(),
            r <= SFF_MASK,
    {
        proof {
            use_type_invariant(self);
        }
        self.raw
    }

    /// Returns the flags.
    #[verifier::when_used_as_spec(spec_flags)]
    pub fn flags(&self) -> (r: IdentifierFlags)
        ensures
            r == self.flags(),
            r.wf(),
            r.bits() & EXTENDED_BIT == 0,
    {
        proof {
            use_type_invariant(self);
        }
        self.flags
    }

    /// The same value with `flags` in place of the flags it had; the
    /// extended flag is dropped from `flags`.
    pub fn set_flags(self, flags: IdentifierFlags) -> (r: StandardId)
        ensures
            r.as_raw() == self.as_raw(),
            r.flags().bits() == flags.bits() & !EXTENDED_BIT,
            r.wf(),
    {
        proof {
            use_type_invariant(self);
        }
        let given = flags;
        let flags = given.difference(IdentifierFlags::extended());
        proof {
            lemma_extended_bit(given.bits());
        }
        StandardId { raw: self.raw, flags }
    }

    /// The same value with the flags that `f` makes of the flags it had;
    /// the extended flag is dropped from what `f` returns.
    pub fn map_flags<F: FnOnce(IdentifierFlags) -> IdentifierFlags>(self, f: F) -> (r: StandardId)
        requires
            f.requires((self.flags(),)),
        ensures
            r.as_raw() == self.as_raw(),
            exists|out: IdentifierFlags|
                f.ensures((self.flags(),), out) && r.flags().bits() == out.bits()
                    & !EXTENDED_BIT,
            r.wf(),
    {
        let out = f(self.flags);
        self.set_flags(out)
    }
}

impl PartialOrd for StandardId {
    /// Standard identifiers are ordered by value alone: flags take no part.
    fn partial_cmp(&self, other: &StandardId) -> (r: Option<Ordering>) {
        if self.raw < other.raw {
            Some(Ordering::Less)
        } else if self.raw == other.raw {
            Some(Ordering::Equal)
        } else {
            Some(Ordering::Greater)
        }
    }
}

impl vstd::std_specs::cmp::PartialOrdSpecImpl for StandardId {
    open spec fn obeys_partial_cmp_spec() -> bool {
        true
    }

    open spec fn partial_cmp_spec(&self, other: &StandardId) -> Option<Ordering> {
        if self.as_raw() < other.as_raw() {
            Some(Ordering::Less)
        } else if self.as_raw() == other.as_raw() {
            Some(Ordering::Equal)
        } else {
            Some(Ordering::Greater)
        }
    }
}

/// Extended (29-bit) CAN identifier, with its flags.
///
/// Commonly referred to as CAN 2.0B. The value lies in 0 to 0x1FFFFFFF,
/// inclusive, and the flags always hold the extended flag.
#[derive(Clone, Copy, Debug, PartialEq, Eq, Structural, Hash)]
pub struct ExtendedId {
    raw: u32,
    flags: IdentifierFlags,
}

impl ExtendedId {
    /// The arbitration value, without the flags.
    pub closed spec fn spec_as_raw(&self) -> u32 {
        self.raw
    }

    /// The flags.
    pub closed spec fn spec_flags(&self) -> IdentifierFlags {
        self.flags
    }

    /// The value fits in 29 bits, and the flags are a valid set that holds
    /// the extended flag.
    pub open spec fn wf(&self) -> bool {
        &&& self.as_raw() <= EFF_MASK
        &&& self.flags().wf()
        &&& self.flags().bits() & EXTENDED_BIT == EXTENDED_BIT
    }

    #[verifier::type_invariant]
    spec fn inv(&self) -> bool {
        self.wf()
    }

    /// Value and flags in one 32-bit word.
    pub open spec fn word(&self) -> u32 {
        self.as_raw() | self.flags().bits()
    }

    /// Two extended identifiers with the same value and flags are the same.
    pub proof fn lemma_fields_injective(a: ExtendedId, b: ExtendedId)
        ensures
            (a.as_raw() == b.as_raw() && a.flags() == b.flags()) <==> a == b,
    {
    }

    /// The lowest extended identifier, which has the highest priority among
    /// the extended ones. Only the extended flag is set.
    pub fn zero() -> (r: ExtendedId)
        ensures
            r.as_raw() == 0,
            r.flags().bits() == EXTENDED_BIT,
            r.wf(),
    {
        let flags = IdentifierFlags::extended();
        proof {
            lemma_extended_bit(0);
        }
        ExtendedId { raw: 0, flags }
    }

    /// The highest extended identifier, which has the lowest priority. Only
    /// the extended flag is set.
    pub fn max() -> (r: ExtendedId)
        ensures
            r.as_raw() == EFF_MASK,
            r.flags().bits() == EXTENDED_BIT,
            r.wf(),
    {
        let flags = IdentifierFlags::extended();
        proof {
            lemma_extended_bit(0);
        }
        ExtendedId { raw: 0x1FFF_FFFF, flags }
    }

    /// Creates an `ExtendedId` whose only flag is the extended flag.
    ///
    /// Returns `None` if `identifier` is greater than 0x1FFFFFFF.
    pub fn new(identifier: u32) -> (r: Option<ExtendedId>)
        ensures
            r.is_some() <==> identifier <= EFF_MASK,
            r.is_some() ==> {
                &&& r.unwrap().as_raw() == identifier
                &&& r.unwrap().flags().bits() == EXTENDED_BIT
                &&& r.unwrap().wf()
            },
    {
        let r = ExtendedId::with_flags(identifier, IdentifierFlags::empty());
        proof {
            lemma_extended_bit(0);
        }
        r
    }

    /// Creates an `ExtendedId` that carries `flags` and the extended flag.
    ///
    /// Returns `None` if `identifier` is greater than 0x1FFFFFFF.
    pub fn with_flags(identifier: u32, flags: IdentifierFlags) -> (r: Option<ExtendedId>)
        ensures
            r.is_some() <==> identifier <= EFF_MASK,
            r.is_some() ==> {
                &&& r.unwrap().as_raw() == identifier
                &&& r.unwrap().flags().bits() == flags.bits() | EXTENDED_BIT
                &&& r.unwrap().wf()
            },
    {
        if identifier <= 0x1FFF_FFFF {
            let given = flags;
            let flags = given.union(IdentifierFlags::extended());
            proof {
                lemma_extended_bit(given.bits());
            }
            Some(ExtendedId { raw: identifier, flags })
        } else {
            None
        }
    }

    /// Returns the identifier as a raw integer, without the flags.
    #[verifier::when_used_as_spec(spec_as_raw)]
    pub fn as_raw(&self) -> (r: u32)
        ensures
            r == self.as_raw(),
            r <= EFF_MASK,
    {
        proof {
            use_type_invariant(self);
        }
        self.raw
    }

    /// Returns the flags.
    #[verifier::when_used_as_spec(spec_flags)]
    pub fn flags(&self) -> (r: IdentifierFlags)
        ensures
            r == self.flags(),
            r.wf(),
            r.bits() & EXTENDED_BIT == EXTENDED_BIT,
    {
        proof {
            use_type_invariant(self);
        }
        self.flags
    }

    /// The same value with `flags` in place of the flags it had; the
    /// extended flag is set whatever `flags` holds.
    pub fn set_flags(self, flags: IdentifierFlags) -> (r: ExtendedId)
        ensures
            r.as_raw() == self.as_raw(),
            r.flags().bits() == flags.bits() | EXTENDED_BIT,
            r.wf(),
    {
        proof {
            use_type_invariant(self);
        }
        let given = flags;
        let flags = given.union(IdentifierFlags::extended());
        proof {
            lemma_extended_bit(given.bits());
        }
        ExtendedId { raw: self.raw, flags }
    }

    /// The same value with the flags that `f` makes of the flags it had;
    /// the extended flag is set whatever `f` returns.
    pub fn map_flags<F: FnOnce(IdentifierFlags) -> IdentifierFlags>(self, f: F) -> (r: ExtendedId)
        requires
            f.requires((self.flags(),)),
        ensures
            r.as_raw() == self.as_raw(),
            exists|out: IdentifierFlags|
                f.ensures((self.flags(),), out) && r.flags().bits() == out.bits()
                    | EXTENDED_BIT,
            r.wf(),
    {
        let out = f(self.flags);
        self.set_flags(out)
    }

    /// Returns the base (standard) portion of this extended identifier: its
    /// top 11 bits, with the flags of this identifier but for the extended
    /// flag. Two extended identifiers that differ in the low 18 bits have
    /// the same base.
    pub fn as_standard_id(&self) -> (r: StandardId)
        ensures
            r.as_raw() == self.as_raw() >> 18,
            r.flags().bits() == self.flags().bits() & !EXTENDED_BIT,
            r.wf(),
    {
        proof {
            use_type_invariant(self);
        }
        let raw: u32 = self.raw;
        assert(raw >> 18 <= 0x7FF) by (bit_vector)
            requires
                raw <= 0x1FFF_FFFFu32,
        ;
        let base: u16 = (raw >> 18) as u16;
        match StandardId::with_flags(base, self.flags) {
            Some(id) => id,
            None => vstd::pervasive::unreached(),
        }
    }
}

impl PartialOrd for ExtendedId {
    /// Extended identifiers are ordered by value alone: flags take no part.
    fn partial_cmp(&self, other: &ExtendedId) -> (r: Option<Ordering>) {
        if self.raw < other.raw {
            Some(Ordering::Less)
        } else if self.raw == other.raw {
            Some(Ordering::Equal)
        } else {
            Some(Ordering::Greater)
        }
    }
}

impl vstd::std_specs::cmp::PartialOrdSpecImpl for ExtendedId {
    open spec fn obeys_partial_cmp_spec() -> bool {
        true
    }

    open spec fn partial_cmp_spec(&self, other: &ExtendedId) -> Option<Ordering> {
        if self.as_raw() < other.as_raw() {
            Some(Ordering::Less)
        } else if self.as_raw() == other.as_raw() {
            Some(Ordering::Equal)
        } else {
            Some(Ordering::Greater)
        }
    }
}

/// A CAN identifier (standard or extended).
///
/// The identifier is the address of a message, and it decides arbitration:
/// when several nodes start to send at once, the lowest identifier wins.
///
/// ## Priority and sorting
///
/// A standard identifier always has a higher priority than an extended one,
/// since the identifier extension bit is recessive in an extended frame.
/// The order of `Id` follows this: every standard identifier is less than
/// every extended identifier, and two of a kind are ordered by value.
#[derive(Clone, Copy, Debug, PartialEq, Eq, Structural, Hash)]
pub enum Id {
    /// Standard (11-bit) CAN identifier.
    Standard(StandardId),
    /// Extended (29-bit) CAN identifier.
    Extended(ExtendedId),
}

impl Id {
    /// The arbitration value, without the flags.
    pub open spec fn spec_as_raw(&self) -> u32 {
        match *self {
            Id::Standard(sid) => sid.as_raw() as u32,
            Id::Extended(eid) => eid.as_raw(),
        }
    }

    /// The flags.
    pub open spec fn spec_flags(&self) -> IdentifierFlags {
        match *self {
            Id::Standard(sid) => sid.flags(),
            Id::Extended(eid) => eid.flags(),
        }
    }

    /// The identifier it holds is valid.
    pub open spec fn wf(&self) -> bool {
        match *self {
            Id::Standard(sid) => sid.wf(),
            Id::Extended(eid) => eid.wf(),
        }
    }

    /// Value and flags in one 32-bit word: the value in the low 29 bits,
    /// the flags in the top three.
    pub open spec fn word(&self) -> u32 {
        self.as_raw() | self.flags().bits()
    }

    /// Returns the identifier as a raw integer, without the flags.
    #[verifier::when_used_as_spec(spec_as_raw)]
    pub fn as_raw(&self) -> (r: u32)
        ensures
            r == self.as_raw(),
            r <= EFF_MASK,
            self.wf(),
    {
        match self {
            Id::Standard(sid) => {
                proof {
                    use_type_invariant(sid);
                }
                sid.as_raw() as u32
            },
            Id::Extended(eid) => {
                proof {
                    use_type_invariant(eid);
                }
                eid.as_raw()
            },
        }
    }

    /// Returns the flags.
    #[verifier::when_used_as_spec(spec_flags)]
    pub fn flags(&self) -> (r: IdentifierFlags)
        ensures
            r == self.flags(),
            r.wf(),
            self.wf(),
    {
        match self {
            Id::Standard(sid) => {
                proof {
                    use_type_invariant(sid);
                }
                sid.flags()
            },
            Id::Extended(eid) => {
                proof {
                    use_type_invariant(eid);
                }
                eid.flags()
            },
        }
    }

    /// The same value with `flags` in place of the flags it had. The
    /// extended flag follows the kind of identifier, whatever `flags`
    /// holds: dropped on a standard one, set on an extended one.
    pub fn set_flags(self, flags: IdentifierFlags) -> (r: Id)
        ensures
            r.as_raw() == self.as_raw(),
            self is Standard ==> r is Standard && r.flags().bits() == flags.bits()
                & !EXTENDED_BIT,
            self is Extended ==> r is Extended && r.flags().bits() == flags.bits()
                | EXTENDED_BIT,
            r.wf(),
    {
        match self {
            Id::Standard(sid) => Id::Standard(sid.set_flags(flags)),
            Id::Extended(eid) => Id::Extended(eid.set_flags(flags)),
        }
    }

    /// The same value with the flags that `f` makes of the flags it had.
    /// The extended flag follows the kind of identifier, whatever `f`
    /// returns.
    pub fn map_flags<F: FnOnce(IdentifierFlags) -> IdentifierFlags>(self, f: F) -> (r: Id)
        requires
            f.requires((self.flags(),)),
        ensures
            r.as_raw() == self.as_raw(),
            self is Standard ==> r is Standard && exists|out: IdentifierFlags|
                f.ensures((self.flags(),), out) && r.flags().bits() == out.bits()
                    & !EXTENDED_BIT,
            self is Extended ==> r is Extended && exists|out: IdentifierFlags|
                f.ensures((self.flags(),), out) && r.flags().bits() == out.bits()
                    | EXTENDED_BIT,
            r.wf(),
    {
        match self {
            Id::Standard(sid) => Id::Standard(sid.map_flags(f)),
            Id::Extended(eid) => Id::Extended(eid.map_flags(f)),
        }
    }
}

impl PartialOrd for Id {
    /// Standard before extended; two of a kind by value.
    fn partial_cmp(&self, other: &Id) -> (r: Option<Ordering>) {
        match (self, other) {
            (Id::Standard(s1), Id::Standard(s2)) => s1.partial_cmp(s2),
            (Id::Standard(_), Id::Extended(_)) => Some(Ordering::Less),
            (Id::Extended(_), Id::Standard(_)) => Some(Ordering::Greater),
            (Id::Extended(e1), Id::Extended(e2)) => e1.partial_cmp(e2),
        }
    }
}

impl vstd::std_specs::cmp::PartialOrdSpecImpl for Id {
    open spec fn obeys_partial_cmp_spec() -> bool {
        true
    }

    open spec fn partial_cmp_spec(&self, other: &Id) -> Option<Ordering> {
        if self is Standard && other is Extended {
            Some(Ordering::Less)
        } else if self is Extended && other is Standard {
            Some(Ordering::Greater)
        } else if self.spec_as_raw() < other.spec_as_raw() {
            Some(Ordering::Less)
        } else if self.spec_as_raw() == other.spec_as_raw() {
            Some(Ordering::Equal)
        } else {
            Some(Ordering::Greater)
        }
    }
}

impl From<StandardId> for Id {
    fn from(id: StandardId) -> (r: Id) {
        Id::Standard(id)
    }
}

impl FromSpecImpl<StandardId> for Id {
    open spec fn obeys_from_spec() -> bool {
        true
    }

    open spec fn from_spec(id: StandardId) -> Id {
        Id::Standard(id)
    }
}

impl From<ExtendedId> for Id {
    fn from(id: ExtendedId) -> (r: Id) {
        Id::Extended(id)
    }
}

impl FromSpecImpl<ExtendedId> for Id {
    open spec fn obeys_from_spec() -> bool {
        true
    }

    open spec fn from_spec(id: ExtendedId) -> Id {
        Id::Extended(id)
    }
}

/// Every standard identifier comes before every extended identifier,
/// whatever their values and flags: on the bus a standard frame wins
/// arbitration against an extended one.
pub proof fn lemma_standard_before_extended(a: StandardId, b: ExtendedId)
    ensures
        Id::Standard(a).partial_cmp_spec(&Id::Extended(b)) == Some(Ordering::Less),
        Id::Extended(b).partial_cmp_spec(&Id::Standard(a)) == Some(Ordering::Greater),
{
}

/// Two identifiers of one kind are ordered by their values alone: the one
/// with the lower value comes first, and flags take no part.
pub proof fn lemma_same_kind_by_value(a: Id, b: Id)
    requires
        a is Standard <==> b is Standard,
    ensures
        a.partial_cmp_spec(&b) == Some(Ordering::Less) <==> a.as_raw() < b.as_raw(),
        a.partial_cmp_spec(&b) == Some(Ordering::Equal) <==> a.as_raw() == b.as_raw(),
        a.partial_cmp_spec(&b) == Some(Ordering::Greater) <==> a.as_raw() > b.as_raw(),
{
}

/// In the word of a valid identifier, value and flags do not overlap: the
/// low 29 bits are the value, the top three are the flags, and the
/// extended bit tells the kind.
pub proof fn lemma_word_parts(id: Id)
    requires
        id.wf(),
    ensures
        id.word() & EFF_MASK == id.as_raw(),
        id.word() & !EFF_MASK == id.flags().bits(),
        id.word() & EXTENDED_BIT == EXTENDED_BIT <==> id is Extended,
{
    let v: u32 = id.as_raw();
    let f: u32 = id.flags().bits();
    assert((v | f) & 0x1fff_ffffu32 == v && (v | f) & !0x1fff_ffffu32 == f) by (bit_vector)
        requires
            v <= 0x1fff_ffffu32,
            f & 0x1fff_ffffu32 == 0,
    ;
    assert(((v | f) & 0x8000_0000u32 == 0x8000_0000u32) <==> (f & 0x8000_0000u32
        == 0x8000_0000u32)) by (bit_vector)
        requires
            v <= 0x1fff_ffffu32,
    ;
    assert(f & 0x8000_0000u32 == 0 || f & 0x8000_0000u32 == 0x8000_0000u32) by (bit_vector);
    assert(0x8000_0000u32 != 0u32);
}

/// Two valid identifiers with the same word are the same identifier.
pub proof fn lemma_word_injective(a: Id, b: Id)
    requires
        a.wf(),
        b.wf(),
    ensures
        a.word() == b.word() <==> a == b,
{
    lemma_word_parts(a);
    lemma_word_parts(b);
    if a.word() == b.word() {
        IdentifierFlags::lemma_bits_injective(a.flags(), b.flags());
        match (a, b) {
            (Id::Standard(x), Id::Standard(y)) => {
                StandardId::lemma_fields_injective(x, y);
            },
            (Id::Extended(x), Id::Extended(y)) => {
                ExtendedId::lemma_fields_injective(x, y);
            },
            _ => {},
        }
    }
}

} // verus!
