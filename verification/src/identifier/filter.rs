//! Identifier filters.

use crate::constants::IdentifierFlags;
use crate::constants::EFF_MASK;
use crate::constants::ERROR_BIT;
use crate::constants::EXTENDED_BIT;
use crate::constants::FLAGS_MASK;
use crate::constants::REMOTE_BIT;
use crate::identifier::id::ExtendedId;
use crate::identifier::id::Id;
use crate::identifier::id::StandardId;
use std::ops::Add;
use std::ops::BitAnd;
use std::ops::BitOr;
use std::ops::BitXor;
use std::ops::Sub;
use vstd::prelude::*;
use vstd::std_specs::ops::AddSpecImpl;
use vstd::std_specs::ops::BitAndSpecImpl;
use vstd::std_specs::ops::BitOrSpecImpl;
use vstd::std_specs::ops::BitXorSpecImpl;
use vstd::std_specs::ops::SubSpecImpl;

verus! {

/// Mask component of a filter: any 32-bit pattern. A set bit is compared, a
/// clear bit is ignored.
#[derive(Clone, Copy, Debug, PartialEq, Eq, Structural, Hash)]
pub struct Mask {
    bits: u32,
}

impl View for Mask {
    type V = u32;

    closed spec fn view(&self) -> u32 {
        self.bits
    }
}

impl Mask {
    /// The mask with the given pattern.
    pub closed spec fn spec_new(mask: u32) -> Mask {
        Mask { bits: mask }
    }

    /// A mask is its pattern and nothing else.
    pub proof fn lemma_view(mask: u32, m: Mask)
        ensures
            Mask::spec_new(mask)@ == mask,
            Mask::spec_new(m@) == m,
    {
    }

    /// Matches all bits in the identifier.
    pub fn all() -> (r: Mask)
        ensures
            r@ == 0xFFFF_FFFFu32,
    {
        Mask { bits: 0xFFFF_FFFF }
    }

    /// Matches no bits in the identifier.
    pub fn none() -> (r: Mask)
        ensures
            r@ == 0,
    {
        Mask { bits: 0 }
    }

    /// Creates a new [`Mask`]. Any pattern is a mask.
    #[verifier::when_used_as_spec(spec_new)]
    pub fn new(mask: u32) -> (r: Mask)
        ensures
            r == Mask::new(mask),
            r@ == mask,
    {
        Mask { bits: mask }
    }

    /// The pattern of this mask.
    pub fn bits(&self) -> (r: u32)
        ensures
            r == self@,
    {
        self.bits
    }
}

impl BitAnd for Mask {
    type Output = Mask;

    /// The bits that both masks compare.
    fn bitand(self, rhs: Mask) -> (r: Mask)
        ensures
            r@ == self@ & rhs@,
    {
        Mask { bits: self.bits & rhs.bits }
    }
}

impl BitAndSpecImpl for Mask {
    open spec fn obeys_bitand_spec() -> bool {
        true
    }

    open spec fn bitand_req(self, rhs: Mask) -> bool {
        true
    }

    open spec fn bitand_spec(self, rhs: Mask) -> Mask {
        Mask::new(self@ & rhs@)
    }
}

impl BitOr for Mask {
    type Output = Mask;

    /// The bits that either mask compares.
    fn bitor(self, rhs: Mask) -> (r: Mask)
        ensures
            r@ == self@ | rhs@,
    {
        Mask { bits: self.bits | rhs.bits }
    }
}

impl BitOrSpecImpl for Mask {
    open spec fn obeys_bitor_spec() -> bool {
        true
    }

    open spec fn bitor_req(self, rhs: Mask) -> bool {
        true
    }

    open spec fn bitor_spec(self, rhs: Mask) -> Mask {
        Mask::new(self@ | rhs@)
    }
}

impl BitXor for Mask {
    type Output = Mask;

    /// The bits that exactly one of the masks compares.
    fn bitxor(self, rhs: Mask) -> (r: Mask)
        ensures
            r@ == self@ ^ rhs@,
    {
        Mask { bits: self.bits ^ rhs.bits }
    }
}

impl BitXorSpecImpl for Mask {
    open spec fn obeys_bitxor_spec() -> bool {
        true
    }

    open spec fn bitxor_req(self, rhs: Mask) -> bool {
        true
    }

    open spec fn bitxor_spec(self, rhs: Mask) -> Mask {
        Mask::new(self@ ^ rhs@)
    }
}

impl Add for Mask {
    type Output = Mask;

    /// The sum of the two patterns, wrapping round at 32 bits.
    fn add(self, rhs: Mask) -> (r: Mask)
        ensures
            r@ == vstd::wrapping::u32_specs::wrapping_add(self@, rhs@),
    {
        Mask { bits: self.bits.wrapping_add(rhs.bits) }
    }
}

impl AddSpecImpl for Mask {
    open spec fn obeys_add_spec() -> bool {
        true
    }

    open spec fn add_req(self, rhs: Mask) -> bool {
        true
    }

    open spec fn add_spec(self, rhs: Mask) -> Mask {
        Mask::new(vstd::wrapping::u32_specs::wrapping_add(self@, rhs@))
    }
}

impl Sub for Mask {
    type Output = Mask;

    /// The difference of the two patterns, wrapping round at 32 bits.
    fn sub(self, rhs: Mask) -> (r: Mask)
        ensures
            r@ == vstd::wrapping::u32_specs::wrapping_sub(self@, rhs@),
    {
        Mask { bits: self.bits.wrapping_sub(rhs.bits) }
    }
}

impl SubSpecImpl for Mask {
    open spec fn obeys_sub_spec() -> bool {
        true
    }

    open spec fn sub_req(self, rhs: Mask) -> bool {
        true
    }

    open spec fn sub_spec(self, rhs: Mask) -> Mask {
        Mask::new(vstd::wrapping::u32_specs::wrapping_sub(self@, rhs@))
    }
}

/// What a filter is: the identifier it compares with, and the pattern of
/// the bits it compares.
pub struct FilterView {
    /// The identifier that incoming identifiers are compared with.
    pub id: Id,
    /// The bits that are compared.
    pub mask: u32,
}

impl FilterView {
    /// The identifier is valid.
    pub open spec fn wf(self) -> bool {
        self.id.wf()
    }

    /// Whether the filter lets `id` pass: the words of the two identifiers
    /// agree in every bit of the mask.
    pub open spec fn matches(self, id: Id) -> bool {
        id.word() & self.mask == self.id.word() & self.mask
    }

    /// The same filter, which compares the bits of `bits` too.
    pub open spec fn comparing(self, bits: u32) -> FilterView {
        FilterView { id: self.id, mask: self.mask | bits }
    }

    /// The same filter, which ignores the bits of `bits`.
    pub open spec fn ignoring(self, bits: u32) -> FilterView {
        FilterView { id: self.id, mask: self.mask & !bits }
    }

    /// The filter for the identifiers from `start` to `end`: it compares
    /// with the one of the two that has the lower value (with `start`, if
    /// the values are equal), in all bits but those of the difference of
    /// the two values.
    pub open spec fn range(start: Id, end: Id) -> FilterView {
        if start.as_raw() > end.as_raw() {
            FilterView { id: end, mask: (0xFFFF_FFFF - (start.as_raw() - end.as_raw())) as u32 }
        } else {
            FilterView { id: start, mask: (0xFFFF_FFFF - (end.as_raw() - start.as_raw())) as u32 }
        }
    }
}

/// An identifier filter.
///
/// On a bus with many devices it is useful to choose which messages are
/// captured and which are ignored. A [`Filter`] holds an identifier and a
/// mask, and lets the identifier of an incoming message pass if
///
/// <message identifier> & mask == <filter identifier> & mask
///
/// where each identifier stands for its 32-bit word: the value in the low
/// 29 bits and the flags (extended, remote, error) in the top three.
///
/// ## Usage
///
/// A filter with the identifier 0x246 and the mask 0x1FFFFFFF lets 0x246
/// pass in either addressing mode, and nothing else: 0x132 differs in the
/// value, while the extended 0x246, whose word is 0x80000246, differs only
/// in a bit that the mask ignores. With the mask 0xFFFFFFFF the extended
/// 0x246 no longer passes.
///
/// A block of addresses can be filtered at once where the addresses differ
/// only in their low bits, as those used for legislated OBD devices do. For
/// 0x7E8 to 0x7EF the mask is 0xFFFFFFFF less the difference of the two
/// addresses, 0xFFFFFFF8, and the identifier is 0x7E8: so 0x7E8 and 0x7EF
/// pass, 0x7F0 does not, and neither does the extended 0x7E8.
///
/// ## Caveats
///
/// The mask gives direct control over every bit of the word. It is often
/// best to use the helper methods, which build filters by need: match one
/// identifier, match error frames only, and so on.
#[derive(Clone, Copy, Debug, PartialEq, Eq, Structural, Hash)]
pub struct Filter {
    id: Id,
    mask: Mask,
}

impl View for Filter {
    type V = FilterView;

    closed spec fn view(&self) -> FilterView {
        FilterView { id: self.id, mask: self.mask@ }
    }
}

impl Filter {
    /// Two filters with the same identifier and mask are the same filter.
    pub proof fn lemma_view_injective(a: Filter, b: Filter)
        ensures
            a@ == b@ <==> a == b,
    {
    }

    /// Creates a [`Filter`] based on the given identifier and mask. Nothing
    /// is checked: the filter may be one that lets no identifier pass.
    pub fn new(id: Id, mask: Mask) -> (r: Filter)
        ensures
            r@ == (FilterView { id, mask: mask@ }),
            r@.wf(),
    {
        let _ = id.as_raw();
        Filter { id, mask }
    }

    /// The identifier that this filter compares with.
    pub fn id(&self) -> (r: Id)
        ensures
            r == self@.id,
            r.wf(),
    {
        let _ = self.id.as_raw();
        self.id
    }

    /// The mask of this filter.
    pub fn mask(&self) -> (r: Mask)
        ensures
            r@ == self@.mask,
    {
        self.mask
    }

    /// Creates a [`Filter`] that will only match the given [`Id`].
    ///
    /// It matches the identifier in its own addressing mode and with its
    /// own flags: every bit of the value is compared, and every flag that
    /// the identifier carries.
    pub fn from_identity(id: Id) -> (r: Filter)
        ensures
            r@ == (FilterView { id, mask: EFF_MASK | id.flags().bits() }),
            r@.wf(),
            forall|x: Id|
                x.wf() ==> (#[trigger] r@.matches(x) <==> x.as_raw() == id.as_raw()
                    && x.flags().bits() & id.flags().bits() == id.flags().bits()),
    {
        let flags = id.flags();
        let r = Filter { id, mask: Mask::new(EFF_MASK | flags.bits()) };
        assert forall|x: Id| x.wf() implies (#[trigger] r@.matches(x) <==> x.as_raw()
            == id.as_raw() && x.flags().bits() & id.flags().bits() == id.flags().bits()) by {
            let xv: u32 = x.as_raw();
            let xf: u32 = x.flags().bits();
            let v: u32 = id.as_raw();
            let f: u32 = id.flags().bits();
            assert(((xv | xf) & (0x1fff_ffffu32 | f) == (v | f) & (0x1fff_ffffu32 | f)) <==> (xv
                == v && xf & f == f)) by (bit_vector)
                requires
                    xv <= 0x1fff_ffffu32,
                    v <= 0x1fff_ffffu32,
                    xf & 0x1fff_ffffu32 == 0,
                    f & 0x1fff_ffffu32 == 0,
            ;
        }
        r
    }

    /// Creates a [`Filter`] for the identifiers between `start` and `end`,
    /// inclusive, in either order of the two.
    ///
    /// The filter is exact where the values between the two form a block
    /// that differs only in its low bits, such as 0x7E8 to 0x7EF. For other
    /// spans it is an approximation.
    pub fn range(start: Id, end: Id) -> (r: Filter)
        ensures
            r@ == FilterView::range(start, end),
            r@.wf(),
    {
        let s: u32 = start.as_raw();
        let e: u32 = end.as_raw();
        if s > e {
            Filter { id: end, mask: Mask::new(0xFFFF_FFFF - (s - e)) }
        } else {
            Filter { id: start, mask: Mask::new(0xFFFF_FFFF - (e - s)) }
        }
    }

    /// Creates a [`Filter`] that matches no identifiers of real frames.
    ///
    /// It compares every bit with the highest extended identifier that
    /// carries all three flags. A frame is never a remote frame and an
    /// error frame at once, so no identifier of a frame is equal to it.
    pub fn none() -> (r: Filter)
        ensures
            r@.id is Extended,
            r@.id.as_raw() == EFF_MASK,
            r@.id.flags().bits() == FLAGS_MASK,
            r@.mask == 0xFFFF_FFFFu32,
            r@.wf(),
            forall|x: Id| x.wf() ==> (#[trigger] r@.matches(x) <==> x == r@.id),
    {
        let id = Id::Extended(ExtendedId::max()).set_flags(IdentifierFlags::all());
        assert(0xe000_0000u32 | 0x8000_0000u32 == 0xe000_0000u32) by (bit_vector);
        let r = Filter { id, mask: Mask::all() };
        assert forall|x: Id| x.wf() implies (#[trigger] r@.matches(x) <==> x == r@.id) by {
            let a: u32 = x.word();
            let b: u32 = id.word();
            assert((a & 0xFFFF_FFFFu32 == b & 0xFFFF_FFFFu32) <==> a == b) by (bit_vector);
            crate::identifier::id::lemma_word_injective(x, id);
        }
        r
    }

    /// Creates a [`Filter`] that matches any identifiers.
    pub fn any() -> (r: Filter)
        ensures
            r@.id is Standard,
            r@.id.as_raw() == 0,
            r@.id.flags().bits() == 0,
            r@.mask == 0,
            r@.wf(),
            forall|x: Id| #[trigger] r@.matches(x),
    {
        let id = Id::Standard(StandardId::zero());
        let r = Filter { id, mask: Mask::new(0) };
        assert forall|x: Id| #[trigger] r@.matches(x) by {
            let a: u32 = x.word();
            let b: u32 = id.word();
            assert(a & 0u32 == b & 0u32) by (bit_vector);
        }
        r
    }

    /// Creates a [`Filter`] that matches only data frames: identifiers
    /// without the error flag, whatever their value and other flags.
    pub fn data_frames_only() -> (r: Filter)
        ensures
            r@.id is Standard,
            r@.id.as_raw() == 0,
            r@.id.flags().bits() == 0,
            r@.mask == ERROR_BIT,
            r@.wf(),
            forall|x: Id|
                x.wf() ==> (#[trigger] r@.matches(x) <==> x.flags().bits() & ERROR_BIT == 0),
    {
        let id = Id::Standard(StandardId::zero());
        let r = Filter { id, mask: Mask::new(ERROR_BIT) };
        assert forall|x: Id| x.wf() implies (#[trigger] r@.matches(x) <==> x.flags().bits()
            & ERROR_BIT == 0) by {
            let v: u32 = x.as_raw();
            let f: u32 = x.flags().bits();
            assert(((v | f) & 0x2000_0000u32 == (0u32 | 0u32) & 0x2000_0000u32) <==> f
                & 0x2000_0000u32 == 0) by (bit_vector)
                requires
                    v <= 0x1fff_ffffu32,
            ;
        }
        r
    }

    /// Creates a [`Filter`] that matches only error frames: identifiers
    /// with the error flag, whatever their value and other flags.
    pub fn error_frames_only() -> (r: Filter)
        ensures
            r@.id is Standard,
            r@.id.as_raw() == 0,
            r@.id.flags().bits() == ERROR_BIT,
            r@.mask == ERROR_BIT,
            r@.wf(),
            forall|x: Id|
                x.wf() ==> (#[trigger] r@.matches(x) <==> x.flags().bits() & ERROR_BIT
                    == ERROR_BIT),
    {
        let id = Id::Standard(StandardId::zero().set_flags(IdentifierFlags::error()));
        assert(0x2000_0000u32 & !0x8000_0000u32 == 0x2000_0000u32) by (bit_vector);
        let r = Filter { id, mask: Mask::new(ERROR_BIT) };
        assert forall|x: Id| x.wf() implies (#[trigger] r@.matches(x) <==> x.flags().bits()
            & ERROR_BIT == ERROR_BIT) by {
            let v: u32 = x.as_raw();
            let f: u32 = x.flags().bits();
            assert(((v | f) & 0x2000_0000u32 == (0u32 | 0x2000_0000u32) & 0x2000_0000u32) <==> f
                & 0x2000_0000u32 == 0x2000_0000u32) by (bit_vector)
                requires
                    v <= 0x1fff_ffffu32,
            ;
        }
        r
    }

    /// Updates this [`Filter`] to compare the extended flag.
    pub fn allow_extended_frames(self) -> (r: Filter)
        ensures
            r@ == self@.comparing(EXTENDED_BIT),
    {
        Filter { id: self.id, mask: Mask::new(self.mask.bits() | EXTENDED_BIT) }
    }

    /// Updates this [`Filter`] to ignore the extended flag.
    pub fn disallow_extended_frames(self) -> (r: Filter)
        ensures
            r@ == self@.ignoring(EXTENDED_BIT),
    {
        Filter { id: self.id, mask: Mask::new(self.mask.bits() & !EXTENDED_BIT) }
    }

    /// Updates this [`Filter`] to compare the remote flag.
    pub fn allow_rtr_frames(self) -> (r: Filter)
        ensures
            r@ == self@.comparing(REMOTE_BIT),
    {
        Filter { id: self.id, mask: Mask::new(self.mask.bits() | REMOTE_BIT) }
    }

    /// Updates this [`Filter`] to ignore the remote flag.
    pub fn disallow_rtr_frames(self) -> (r: Filter)
        ensures
            r@ == self@.ignoring(REMOTE_BIT),
    {
        Filter { id: self.id, mask: Mask::new(self.mask.bits() & !REMOTE_BIT) }
    }

    /// Updates this [`Filter`] to compare the error flag.
    pub fn allow_error_frames(self) -> (r: Filter)
        ensures
            r@ == self@.comparing(ERROR_BIT),
    {
        Filter { id: self.id, mask: Mask::new(self.mask.bits() | ERROR_BIT) }
    }

    /// Updates this [`Filter`] to ignore the error flag.
    pub fn disallow_error_frames(self) -> (r: Filter)
        ensures
            r@ == self@.ignoring(ERROR_BIT),
    {
        Filter { id: self.id, mask: Mask::new(self.mask.bits() & !ERROR_BIT) }
    }

    /// Checks if the given identifier matches the filter.
    pub fn matches(&self, id: Id) -> (r: bool)
        ensures
            r == self@.matches(id),
    {
        let self_id: u32 = self.id.as_raw() | self.id.flags().bits();
        let other_id: u32 = id.as_raw() | id.flags().bits();
        other_id & self.mask.bits() == self_id & self.mask.bits()
    }
}

/// The order of the two ends of a range does not matter, but where the two
/// have the same value and are not the same identifier: then each order
/// compares with its first end, and the two filters differ.
pub proof fn lemma_range_symmetric(start: Id, end: Id)
    requires
        start.wf(),
        end.wf(),
    ensures
        (start.as_raw() != end.as_raw() || start == end) ==> FilterView::range(start, end)
            == FilterView::range(end, start),
        (forall|x: Id|
            x.wf() ==> FilterView::range(start, end).matches(x) == FilterView::range(
                end,
                start,
            ).matches(x)) <==> (start.as_raw() != end.as_raw() || start == end),
{
    if start.as_raw() == end.as_raw() && start != end {
        let a: u32 = start.word();
        let b: u32 = end.word();
        crate::identifier::id::lemma_word_injective(start, end);
        assert(a & 0xFFFF_FFFFu32 == a && b & 0xFFFF_FFFFu32 == b) by (bit_vector);
        assert(FilterView::range(start, end).matches(start));
        assert(!FilterView::range(end, start).matches(start));
    }
}

/// Where the values from the lower end to the higher form a block that
/// differs only in its low bits (the difference of the two ends is one less
/// than a power of two, and the lower end has none of its bits), the range
/// filter is exact: it lets pass the identifiers with a value in the block
/// and with the flags of the lower end, and no others. An identifier of the
/// other addressing mode differs in the extended flag, so it does not pass.
pub proof fn lemma_range_exact_on_block(start: Id, end: Id, x: Id)
    requires
        start.wf(),
        end.wf(),
        x.wf(),
        ({
            let low = FilterView::range(start, end).id.as_raw();
            let delta = (0xFFFF_FFFF - FilterView::range(start, end).mask) as u32;
            delta & ((delta + 1) as u32) == 0 && low & delta == 0
        }),
    ensures
        ({
            let f = FilterView::range(start, end);
            let low = if start.as_raw() > end.as_raw() {
                end.as_raw()
            } else {
                start.as_raw()
            };
            let high = if start.as_raw() > end.as_raw() {
                start.as_raw()
            } else {
                end.as_raw()
            };
            f.matches(x) <==> (low <= x.as_raw() <= high && x.flags().bits() == f.id.flags().bits())
        }),
{
    let f = FilterView::range(start, end);
    let lv: u32 = f.id.as_raw();
    let lf: u32 = f.id.flags().bits();
    let d: u32 = (0xFFFF_FFFF - f.mask) as u32;
    let m: u32 = f.mask;
    let xv: u32 = x.as_raw();
    let xf: u32 = x.flags().bits();
    assert(m == (0xFFFF_FFFFu32 - d) as u32);
    assert(lv + d <= 0x1fff_ffff);
    assert(((xv | xf) & m == (lv | lf) & m) <==> (lv <= xv && xv <= lv + d && xf == lf))
        by (bit_vector)
        requires
            m == (0xFFFF_FFFFu32 - d) as u32,
            d & ((d + 1) as u32) == 0,
            lv & d == 0,
            lv + d <= 0x1fff_ffffu32,
            xv <= 0x1fff_ffffu32,
            xf & 0x1fff_ffffu32 == 0,
            lf & 0x1fff_ffffu32 == 0,
    ;
}

/// To ignore bits after comparing them leaves them ignored, whatever they
/// were before; where they were ignored before, the filter is as it was.
/// To compare bits after ignoring them leaves them compared, and where they
/// were compared before, the filter is as it was. Other bits of the mask,
/// and the identifier, are never touched.
pub proof fn lemma_toggle_round_trip(v: FilterView, bits: u32)
    ensures
        v.comparing(bits).ignoring(bits) == v.ignoring(bits),
        v.ignoring(bits).comparing(bits) == v.comparing(bits),
        v.mask & bits == 0 ==> v.comparing(bits).ignoring(bits) == v,
        v.mask & bits == bits ==> v.ignoring(bits).comparing(bits) == v,
        v.comparing(bits).mask & !bits == v.mask & !bits,
        v.ignoring(bits).mask & !bits == v.mask & !bits,
{
    let m: u32 = v.mask;
    assert((m | bits) & !bits == m & !bits && (m & !bits) | bits == m | bits && (m & bits == 0
        ==> (m | bits) & !bits == m) && (m & bits == bits ==> (m & !bits) | bits == m) && (m
        | bits) & !bits == (m & !bits) & !bits) by (bit_vector);
}

/// A filter that compares more bits lets pass what it let pass before and
/// what agrees with its identifier in the new bits too; a filter that
/// ignores bits lets pass all that it let pass before.
pub proof fn lemma_toggle_matches(v: FilterView, bits: u32, x: Id)
    ensures
        v.comparing(bits).matches(x) <==> v.matches(x) && x.word() & bits == v.id.word() & bits,
        v.matches(x) ==> v.ignoring(bits).matches(x),
{
    let m: u32 = v.mask;
    let a: u32 = x.word();
    let b: u32 = v.id.word();
    assert(((a & (m | bits) == b & (m | bits)) <==> (a & m == b & m && a & bits == b & bits))
        && (a & m == b & m ==> a & (m & !bits) == b & (m & !bits))) by (bit_vector);
}

} // verus!
