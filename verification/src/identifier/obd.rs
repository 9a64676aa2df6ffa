//! OBD-specific (On-board diagnostics) identifiers, based on ISO 15765-4.

use crate::constants::EFF_MASK;
use crate::constants::EXTENDED_BIT;
use crate::constants::SFF_MASK;
use crate::identifier::filter::lemma_range_exact_on_block;
use crate::identifier::filter::Filter;
use crate::identifier::id::lemma_word_parts;
use crate::identifier::id::ExtendedId;
use crate::identifier::id::Id;
use crate::identifier::id::StandardId;
use vstd::prelude::*;
use vstd::std_specs::convert::FromSpecImpl;

verus! {

/// Functional request (broadcast) address, 11-bit addressing.
pub const OBD_BROADCAST_ADDR_STANDARD: u16 = 0x7DF;

/// Functional request (broadcast) address, 29-bit addressing.
pub const OBD_BROADCAST_ADDR_EXTENDED: u32 = 0x18DB_33F1;

/// First physical request address, 11-bit addressing.
pub const OBD_REQ_ADDR_START_STANDARD: u16 = 0x7E0;

/// Last physical request address, 11-bit addressing.
pub const OBD_REQ_ADDR_END_STANDARD: u16 = 0x7E7;

/// First physical response address, 11-bit addressing.
pub const OBD_RESP_ADDR_START_STANDARD: u16 = 0x7E8;

/// Last physical response address, 11-bit addressing.
pub const OBD_RESP_ADDR_END_STANDARD: u16 = 0x7EF;

/// First physical request address, 29-bit addressing.
pub const OBD_REQ_ADDR_START_EXTENDED: u32 = 0x18DA_00F1;

/// Last physical request address, 29-bit addressing.
pub const OBD_REQ_ADDR_END_EXTENDED: u32 = 0x18DA_FFF1;

/// First physical response address, 29-bit addressing.
pub const OBD_RESP_ADDR_START_EXTENDED: u32 = 0x18DA_F100;

/// Last physical response address, 29-bit addressing.
pub const OBD_RESP_ADDR_END_EXTENDED: u32 = 0x18DA_F1FF;

/// What lies between a physical request address and its response address,
/// 11-bit addressing.
pub const OBD_REQ_RESP_ADDR_OFFSET_STANDARD: u16 = 8;

/// The value with its two low bytes exchanged: the top 16 bits stay, bits 8
/// to 15 and bits 0 to 7 change places.
pub open spec fn spec_swap_eid_target_source(eid_raw: u32) -> u32 {
    eid_raw & 0xFFFF_0000 | (eid_raw & 0x0000_FF00) >> 8 | (eid_raw & 0x0000_00FF) << 8
}

/// Whether `id` is a physical request address: a standard identifier from
/// 0x7E0 to 0x7E7, or an extended one from 0x18DA00F1 to 0x18DAFFF1. Flags
/// take no part.
pub open spec fn in_request_band(id: Id) -> bool {
    match id {
        Id::Standard(sid) => OBD_REQ_ADDR_START_STANDARD <= sid.as_raw()
            <= OBD_REQ_ADDR_END_STANDARD,
        Id::Extended(eid) => OBD_REQ_ADDR_START_EXTENDED <= eid.as_raw()
            <= OBD_REQ_ADDR_END_EXTENDED,
    }
}

/// Whether `id` is a physical response address: a standard identifier from
/// 0x7E8 to 0x7EF, or an extended one from 0x18DAF100 to 0x18DAF1FF. Flags
/// take no part.
pub open spec fn in_response_band(id: Id) -> bool {
    match id {
        Id::Standard(sid) => OBD_RESP_ADDR_START_STANDARD <= sid.as_raw()
            <= OBD_RESP_ADDR_END_STANDARD,
        Id::Extended(eid) => OBD_RESP_ADDR_START_EXTENDED <= eid.as_raw()
            <= OBD_RESP_ADDR_END_EXTENDED,
    }
}

/// Whether `id` is the response address of some physical request address:
/// a standard identifier from 0x7E8 to 0x7EF, or an extended one that a
/// request address gives when its two low bytes are exchanged. Every
/// physical response address is one of these.
pub open spec fn answers_a_request(id: Id) -> bool {
    match id {
        Id::Standard(sid) => OBD_RESP_ADDR_START_STANDARD <= sid.as_raw()
            <= OBD_RESP_ADDR_END_STANDARD,
        Id::Extended(eid) => OBD_REQ_ADDR_START_EXTENDED <= spec_swap_eid_target_source(
            eid.as_raw(),
        ) <= OBD_REQ_ADDR_END_EXTENDED,
    }
}

/// The value of the address that is paired with a request address, and in
/// extended addressing with a response address too: 8 more in standard
/// addressing, the two low bytes exchanged in extended addressing.
pub open spec fn response_raw(extended: bool, request: u32) -> int {
    if extended {
        spec_swap_eid_target_source(request) as int
    } else {
        request + OBD_REQ_RESP_ADDR_OFFSET_STANDARD
    }
}

/// The value of the request address that is paired with a response
/// address: 8 less in standard addressing, the two low bytes exchanged in
/// extended addressing.
pub open spec fn request_raw(extended: bool, response: u32) -> int {
    if extended {
        spec_swap_eid_target_source(response) as int
    } else {
        response - OBD_REQ_RESP_ADDR_OFFSET_STANDARD
    }
}

/// Exchanges the two low bytes of the value of an extended identifier: the
/// target address and the source address change places.
pub fn swap_eid_target_source(eid_raw: u32) -> (r: u32)
    ensures
        r == spec_swap_eid_target_source(eid_raw),
        eid_raw <= EFF_MASK ==> r <= EFF_MASK,
{
    let r: u32 = eid_raw & 0xFFFF_0000 | (eid_raw & 0x0000_FF00) >> 8 | (eid_raw & 0x0000_00FF)
        << 8;
    assert(eid_raw <= 0x1fff_ffffu32 ==> (eid_raw & 0xFFFF_0000u32 | (eid_raw & 0x0000_FF00u32)
        >> 8 | (eid_raw & 0x0000_00FFu32) << 8) <= 0x1fff_ffffu32) by (bit_vector);
    r
}

/// To exchange the two low bytes twice gives the value back, and the
/// exchange leaves the top 16 bits as they are.
pub proof fn lemma_swap_involution(v: u32)
    ensures
        spec_swap_eid_target_source(spec_swap_eid_target_source(v)) == v,
        spec_swap_eid_target_source(v) & 0xFFFF_0000 == v & 0xFFFF_0000,
        spec_swap_eid_target_source(v) & 0xFF == (v >> 8) & 0xFF,
        (spec_swap_eid_target_source(v) >> 8) & 0xFF == v & 0xFF,
{
    assert({
        let s = v & 0xFFFF_0000u32 | (v & 0x0000_FF00u32) >> 8 | (v & 0x0000_00FFu32) << 8;
        &&& (s & 0xFFFF_0000u32 | (s & 0x0000_FF00u32) >> 8 | (s & 0x0000_00FFu32) << 8) == v
        &&& s & 0xFFFF_0000u32 == v & 0xFFFF_0000u32
        &&& s & 0xFFu32 == (v >> 8) & 0xFFu32
        &&& (s >> 8) & 0xFFu32 == v & 0xFFu32
    }) by (bit_vector);
}

/// The standard identifier with the value `id` and no flags.
pub fn standard_id(id: u16) -> (r: StandardId)
    requires
        id <= SFF_MASK,
    ensures
        r.as_raw() == id,
        r.flags().bits() == 0,
        r.wf(),
{
    match StandardId::new(id) {
        Some(id) => id,
        None => vstd::pervasive::unreached(),
    }
}

/// The extended identifier with the value `id` and the extended flag alone.
pub fn extended_id(id: u32) -> (r: ExtendedId)
    requires
        id <= EFF_MASK,
    ensures
        r.as_raw() == id,
        r.flags().bits() == EXTENDED_BIT,
        r.wf(),
{
    match ExtendedId::new(id) {
        Some(id) => id,
        None => vstd::pervasive::unreached(),
    }
}

/// Functional request address for legislated OBD diagnostic messages.
///
/// Every device that offers the legislated OBD services treats a message
/// to this address as if it had been addressed to the device itself, so it
/// serves as a broadcast address: with it all such devices on the bus can
/// be found.
#[derive(Clone, Copy, Debug, PartialEq, Eq, Structural, Hash)]
pub struct DiagnosticBroadcastAddress {
    id: Id,
}

impl DiagnosticBroadcastAddress {
    /// The identifier that this broadcast address represents.
    pub closed spec fn spec_id(&self) -> Id {
        self.id
    }

    /// The address is one of the two broadcast addresses, with no flag but
    /// the one of its addressing mode.
    pub open spec fn wf(&self) -> bool {
        &&& self.id().wf()
        &&& match self.id() {
            Id::Standard(sid) => sid.as_raw() == OBD_BROADCAST_ADDR_STANDARD && sid.flags().bits()
                == 0,
            Id::Extended(eid) => eid.as_raw() == OBD_BROADCAST_ADDR_EXTENDED && eid.flags().bits()
                == EXTENDED_BIT,
        }
    }

    #[verifier::type_invariant]
    spec fn inv(&self) -> bool {
        self.wf()
    }

    /// Gets the diagnostic broadcast address for standard addressing, the
    /// 11-bit addressing mode, also known as CAN 2.0A.
    ///
    /// The identifier is 0x7DF, as outlined by ISO 15765-4:2005(E), section
    /// 6.3.2.2, table 3, "11 bit legislated-OBD CAN identifiers".
    pub fn standard() -> (r: DiagnosticBroadcastAddress)
        ensures
            r.id() is Standard,
            r.wf(),
    {
        DiagnosticBroadcastAddress { id: Id::Standard(standard_id(OBD_BROADCAST_ADDR_STANDARD)) }
    }

    /// Gets the diagnostic broadcast address for extended addressing, the
    /// 29-bit addressing mode, also known as CAN 2.0B.
    ///
    /// The identifier is 0x18DB33F1, as outlined by ISO 15765-4:2005(E),
    /// section 6.3.2.3, table 5, "29 bit legislated-OBD CAN identifiers".
    pub fn extended() -> (r: DiagnosticBroadcastAddress)
        ensures
            r.id() is Extended,
            r.wf(),
    {
        DiagnosticBroadcastAddress { id: Id::Extended(extended_id(OBD_BROADCAST_ADDR_EXTENDED)) }
    }

    /// Gets the identifier that this broadcast address represents.
    #[verifier::when_used_as_spec(spec_id)]
    pub fn id(&self) -> (r: Id)
        ensures
            r == self.id(),
            self.wf(),
    {
        proof {
            use_type_invariant(self);
        }
        self.id
    }
}

impl From<DiagnosticBroadcastAddress> for Id {
    fn from(address: DiagnosticBroadcastAddress) -> (r: Id) {
        address.id()
    }
}

impl FromSpecImpl<DiagnosticBroadcastAddress> for Id {
    open spec fn obeys_from_spec() -> bool {
        true
    }

    open spec fn from_spec(address: DiagnosticBroadcastAddress) -> Id {
        address.id()
    }
}

/// Physical request address for legislated OBD diagnostic messages.
///
/// This is an identifier that one device on the bus answers to, such as
/// the powertrain control module: the identifier that an external test
/// device sends its messages to. Request and response addresses are
/// paired: each request address has one response address, which can be
/// computed from it.
///
/// Standard addressing has eight request addresses; extended addressing
/// has room for 256 devices. No more than eight legislated OBD devices are
/// allowed in either mode, and it is recommended, not required, that they
/// use the lowest numbers of their range.
#[derive(Clone, Copy, Debug, PartialEq, Eq, Structural, Hash)]
pub struct DiagnosticRequestAddress {
    id: Id,
}

impl DiagnosticRequestAddress {
    /// The identifier that this request address represents.
    pub closed spec fn spec_id(&self) -> Id {
        self.id
    }

    /// The identifier is a valid one of the request band.
    pub open spec fn wf(&self) -> bool {
        self.id().wf() && in_request_band(self.id())
    }

    #[verifier::type_invariant]
    spec fn inv(&self) -> bool {
        self.wf()
    }

    /// Creates a [`DiagnosticRequestAddress`] from the given identifier.
    ///
    /// Each addressing mode has its range of request addresses. If the
    /// given identifier is not within the range of its mode, `None` is
    /// returned.
    pub fn from_id(id: Id) -> (r: Option<DiagnosticRequestAddress>)
        ensures
            r.is_some() <==> in_request_band(id),
            r.is_some() ==> r.unwrap().id() == id && r.unwrap().wf(),
    {
        let raw: u32 = id.as_raw();
        let is_standard = id >= Id::Standard(standard_id(OBD_REQ_ADDR_START_STANDARD)) && id
            <= Id::Standard(standard_id(OBD_REQ_ADDR_END_STANDARD));
        let is_extended = id >= Id::Extended(extended_id(OBD_REQ_ADDR_START_EXTENDED)) && id
            <= Id::Extended(extended_id(OBD_REQ_ADDR_END_EXTENDED));
        if is_standard || is_extended {
            Some(DiagnosticRequestAddress { id })
        } else {
            None
        }
    }

    /// Gets the identifier that this request address represents.
    #[verifier::when_used_as_spec(spec_id)]
    pub fn id(&self) -> (r: Id)
        ensures
            r == self.id(),
            self.wf(),
    {
        proof {
            use_type_invariant(self);
        }
        self.id
    }

    /// Creates the reciprocal [`DiagnosticResponseAddress`] to this request
    /// address: 8 above it in standard addressing, with the two low bytes
    /// exchanged in extended addressing. The response address carries no
    /// flag but the one of its addressing mode.
    ///
    /// In extended addressing the result lies in the band of the response
    /// addresses only where the low byte of the request address is 0xF1.
    pub fn into_response_address(&self) -> (r: DiagnosticResponseAddress)
        ensures
            r.id() is Extended <==> self.id() is Extended,
            r.id().as_raw() == response_raw(self.id() is Extended, self.id().as_raw()),
            r.id().flags().bits() == (if self.id() is Extended {
                EXTENDED_BIT
            } else {
                0
            }),
            r.wf(),
            in_response_band(r.id()) <==> (self.id() is Standard || self.id().as_raw() & 0xFF
                == 0xF1),
    {
        proof {
            use_type_invariant(self);
        }
        match self.id {
            Id::Standard(sid) => {
                let raw_offset_id: u16 = sid.as_raw() + OBD_REQ_RESP_ADDR_OFFSET_STANDARD;
                let response_id = standard_id(raw_offset_id);
                DiagnosticResponseAddress { id: Id::Standard(response_id) }
            },
            Id::Extended(eid) => {
                let raw: u32 = eid.as_raw();
                let raw_offset_id: u32 = swap_eid_target_source(raw);
                let response_id = extended_id(raw_offset_id);
                proof {
                    lemma_swap_involution(raw);
                    assert((0x18DA_F100u32 <= (raw & 0xFFFF_0000u32 | (raw & 0x0000_FF00u32) >> 8
                        | (raw & 0x0000_00FFu32) << 8) && (raw & 0xFFFF_0000u32 | (raw
                        & 0x0000_FF00u32) >> 8 | (raw & 0x0000_00FFu32) << 8) <= 0x18DA_F1FFu32)
                        <==> raw & 0xFF == 0xF1) by (bit_vector)
                        requires
                            0x18DA_00F1u32 <= raw,
                            raw <= 0x18DA_FFF1u32,
                    ;
                }
                DiagnosticResponseAddress { id: Id::Extended(response_id) }
            },
        }
    }
}

impl From<DiagnosticRequestAddress> for Id {
    fn from(address: DiagnosticRequestAddress) -> (r: Id) {
        address.id()
    }
}

impl FromSpecImpl<DiagnosticRequestAddress> for Id {
    open spec fn obeys_from_spec() -> bool {
        true
    }

    open spec fn from_spec(address: DiagnosticRequestAddress) -> Id {
        address.id()
    }
}

/// Physical response address for legislated OBD diagnostic messages.
///
/// This is an identifier that one device on the bus sends its responses
/// to, typically an external test device: the identifier that the test
/// device receives on. Request and response addresses are paired: each
/// response address has one request address, which can be computed from
/// it.
///
/// Standard addressing has eight response addresses; extended addressing
/// has room for 256 devices. No more than eight legislated OBD devices are
/// allowed in either mode, and it is recommended, not required, that they
/// use the lowest numbers of their range.
#[derive(Clone, Copy, Debug, PartialEq, Eq, Structural, Hash)]
pub struct DiagnosticResponseAddress {
    id: Id,
}

impl DiagnosticResponseAddress {
    /// The identifier that this response address represents.
    pub closed spec fn spec_id(&self) -> Id {
        self.id
    }

    /// The identifier is a valid one that answers a request address.
    pub open spec fn wf(&self) -> bool {
        self.id().wf() && answers_a_request(self.id())
    }

    #[verifier::type_invariant]
    spec fn inv(&self) -> bool {
        self.wf()
    }

    /// Creates a [`DiagnosticResponseAddress`] from the given identifier.
    ///
    /// Each addressing mode has its range of response addresses. If the
    /// given identifier is not within the range of its mode, `None` is
    /// returned.
    pub fn from_id(id: Id) -> (r: Option<DiagnosticResponseAddress>)
        ensures
            r.is_some() <==> in_response_band(id),
            r.is_some() ==> r.unwrap().id() == id && r.unwrap().wf(),
    {
        let raw: u32 = id.as_raw();
        let is_standard = id >= Id::Standard(standard_id(OBD_RESP_ADDR_START_STANDARD)) && id
            <= Id::Standard(standard_id(OBD_RESP_ADDR_END_STANDARD));
        let is_extended = id >= Id::Extended(extended_id(OBD_RESP_ADDR_START_EXTENDED)) && id
            <= Id::Extended(extended_id(OBD_RESP_ADDR_END_EXTENDED));
        if is_standard || is_extended {
            proof {
                lemma_response_band_answers(id);
            }
            Some(DiagnosticResponseAddress { id })
        } else {
            None
        }
    }

    /// Gets the identifier that this response address represents.
    #[verifier::when_used_as_spec(spec_id)]
    pub fn id(&self) -> (r: Id)
        ensures
            r == self.id(),
            self.wf(),
    {
        proof {
            use_type_invariant(self);
        }
        self.id
    }

    /// Creates the reciprocal [`DiagnosticRequestAddress`] to this response
    /// address: 8 below it in standard addressing, with the two low bytes
    /// exchanged in extended addressing. The request address carries no
    /// flag but the one of its addressing mode.
    pub fn into_request_address(&self) -> (r: DiagnosticRequestAddress)
        ensures
            r.id() is Extended <==> self.id() is Extended,
            r.id().as_raw() == request_raw(self.id() is Extended, self.id().as_raw()),
            r.id().flags().bits() == (if self.id() is Extended {
                EXTENDED_BIT
            } else {
                0
            }),
            r.wf(),
    {
        proof {
            use_type_invariant(self);
        }
        match self.id {
            Id::Standard(sid) => {
                let raw_offset_id: u16 = sid.as_raw() - OBD_REQ_RESP_ADDR_OFFSET_STANDARD;
                let request_id = standard_id(raw_offset_id);
                DiagnosticRequestAddress { id: Id::Standard(request_id) }
            },
            Id::Extended(eid) => {
                let raw_offset_id: u32 = swap_eid_target_source(eid.as_raw());
                let request_id = extended_id(raw_offset_id);
                DiagnosticRequestAddress { id: Id::Extended(request_id) }
            },
        }
    }
}

impl From<DiagnosticResponseAddress> for Id {
    fn from(address: DiagnosticResponseAddress) -> (r: Id) {
        address.id()
    }
}

impl FromSpecImpl<DiagnosticResponseAddress> for Id {
    open spec fn obeys_from_spec() -> bool {
        true
    }

    open spec fn from_spec(address: DiagnosticResponseAddress) -> Id {
        address.id()
    }
}

/// Filter for physical response addresses for legislated OBD diagnostic
/// messages.
///
/// When the bus is queried for legislated OBD devices through the
/// broadcast address, it is useful to let pass only the identifiers that
/// answer it: those that are a [`DiagnosticResponseAddress`] and carry no
/// flag but the one of their addressing mode.
pub struct DiagnosticResponseFilter;

impl DiagnosticResponseFilter {
    /// Gets the filter for physical response identifiers when using
    /// standard addressing, the 11-bit addressing mode, also known as CAN
    /// 2.0A.
    ///
    /// Matches identifiers 0x7E8 to 0x7EF, as outlined by ISO
    /// 15765-4:2005(E), section 6.3.2.2, table 3, "11 bit legislated-OBD
    /// CAN identifiers".
    pub fn standard() -> (r: Filter)
        ensures
            r@.id is Standard,
            r@.id.as_raw() == OBD_RESP_ADDR_START_STANDARD,
            r@.id.flags().bits() == 0,
            r@.mask == 0xFFFF_FFF8u32,
            r@.wf(),
            forall|x: Id|
                x.wf() ==> (#[trigger] r@.matches(x) <==> (x is Standard && in_response_band(x)
                    && x.flags().bits() == 0)),
    {
        let start = Id::Standard(standard_id(OBD_RESP_ADDR_START_STANDARD));
        let end = Id::Standard(standard_id(OBD_RESP_ADDR_END_STANDARD));
        let r = Filter::range(start, end);
        assert forall|x: Id| x.wf() implies (#[trigger] r@.matches(x) <==> (x is Standard
            && in_response_band(x) && x.flags().bits() == 0)) by {
            assert(0x7u32 & 0x8u32 == 0 && 0x7E8u32 & 0x7u32 == 0) by (bit_vector);
            lemma_range_exact_on_block(start, end, x);
            lemma_word_parts(x);
        }
        r
    }

    /// Gets the filter for physical response identifiers when using
    /// extended addressing, the 29-bit addressing mode, also known as CAN
    /// 2.0B.
    ///
    /// Matches identifiers 0x18DAF100 to 0x18DAF1FF, as outlined by ISO
    /// 15765-4:2005(E), section 6.3.2.3, table 5, "29 bit legislated-OBD
    /// CAN identifiers".
    pub fn extended() -> (r: Filter)
        ensures
            r@.id is Extended,
            r@.id.as_raw() == OBD_RESP_ADDR_START_EXTENDED,
            r@.id.flags().bits() == EXTENDED_BIT,
            r@.mask == 0xFFFF_FF00u32,
            r@.wf(),
            forall|x: Id|
                x.wf() ==> (#[trigger] r@.matches(x) <==> (x is Extended && in_response_band(x)
                    && x.flags().bits() == EXTENDED_BIT)),
    {
        let start = Id::Extended(extended_id(OBD_RESP_ADDR_START_EXTENDED));
        let end = Id::Extended(extended_id(OBD_RESP_ADDR_END_EXTENDED));
        let r = Filter::range(start, end);
        assert forall|x: Id| x.wf() implies (#[trigger] r@.matches(x) <==> (x is Extended
            && in_response_band(x) && x.flags().bits() == EXTENDED_BIT)) by {
            assert(0xFFu32 & 0x100u32 == 0 && 0x18DA_F100u32 & 0xFFu32 == 0) by (bit_vector);
            lemma_range_exact_on_block(start, end, x);
            lemma_word_parts(x);
        }
        r
    }
}

/// Every physical response address answers a request address: the one 8
/// below it in standard addressing, the one with the two low bytes
/// exchanged, whose low byte is then 0xF1, in extended addressing.
pub proof fn lemma_response_band_answers(id: Id)
    requires
        in_response_band(id),
    ensures
        answers_a_request(id),
        id is Extended ==> spec_swap_eid_target_source(id.as_raw()) & 0xFF == 0xF1,
{
    let v: u32 = id.as_raw();
    if id is Extended {
        assert({
            let s = v & 0xFFFF_0000u32 | (v & 0x0000_FF00u32) >> 8 | (v & 0x0000_00FFu32) << 8;
            0x18DA_00F1u32 <= s && s <= 0x18DA_FFF1u32 && s & 0xFF == 0xF1
        }) by (bit_vector)
            requires
                0x18DA_F100u32 <= v,
                v <= 0x18DA_F1FFu32,
        ;
    }
}

/// Pairing goes both ways: the request address of the response address of
/// a request address is that request address, in either addressing mode,
/// and the response address of the request address of an address that
/// answers a request is that address.
pub proof fn lemma_pairing_round_trip(extended: bool, raw: u32)
    ensures
        (extended || raw >= OBD_RESP_ADDR_START_STANDARD) ==> response_raw(
            extended,
            request_raw(extended, raw) as u32,
        ) == raw,
        (extended || raw <= OBD_REQ_ADDR_END_STANDARD) ==> request_raw(
            extended,
            response_raw(extended, raw) as u32,
        ) == raw,
{
    lemma_swap_involution(raw);
}

/// In standard addressing, pairing maps the band of the request addresses
/// onto the band of the response addresses, one to one.
pub proof fn lemma_standard_bands_paired(raw: u16)
    ensures
        OBD_REQ_ADDR_START_STANDARD <= raw <= OBD_REQ_ADDR_END_STANDARD
            <==> OBD_RESP_ADDR_START_STANDARD <= response_raw(false, raw as u32)
            <= OBD_RESP_ADDR_END_STANDARD,
{
}

} // verus!
