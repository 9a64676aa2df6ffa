//! Conversions of identifiers into those of the `embedded-can` crate.

use crate::identifier::id::ExtendedId;
use crate::identifier::id::Id;
use crate::identifier::id::StandardId;
use embedded_can::ExtendedId as EmbeddedExtendedId;
use embedded_can::Id as EmbeddedId;
use embedded_can::StandardId as EmbeddedStandardId;
use vstd::prelude::*;

verus! {

/// `embedded_can::StandardId`, which Verus does not look into.
#[verifier::external_type_specification]
#[verifier::external_body]
pub struct ExEmbeddedStandardId(EmbeddedStandardId);

/// `embedded_can::ExtendedId`, which Verus does not look into.
#[verifier::external_type_specification]
#[verifier::external_body]
pub struct ExEmbeddedExtendedId(EmbeddedExtendedId);

/// `embedded_can::Id`, which Verus does not look into.
#[verifier::external_type_specification]
#[verifier::external_body]
pub struct ExEmbeddedId(EmbeddedId);

/// The value that an `embedded_can::StandardId` holds.
pub uninterp spec fn embedded_standard_value(id: EmbeddedStandardId) -> u16;

/// The value that an `embedded_can::ExtendedId` holds.
pub uninterp spec fn embedded_extended_value(id: EmbeddedExtendedId) -> u32;

/// What an `embedded_can::Id` holds: whether it is an extended identifier,
/// and its value.
pub uninterp spec fn embedded_id_value(id: EmbeddedId) -> (bool, u32);

/// `embedded_can::StandardId::new` returns an identifier for a value of up
/// to 0x7FF and `None` for any other, and the identifier holds the value it
/// was given.
pub assume_specification[ EmbeddedStandardId::new ](raw: u16) -> (r: Option<EmbeddedStandardId>)
    ensures
        r.is_some() <==> raw <= 0x7FF,
        r.is_some() ==> embedded_standard_value(r.unwrap()) == raw,
;

/// `embedded_can::StandardId::as_raw` returns the value that the identifier
/// holds.
pub assume_specification[ EmbeddedStandardId::as_raw ](id: &EmbeddedStandardId) -> (r: u16)
    ensures
        r == embedded_standard_value(*id),
;

/// `embedded_can::ExtendedId::new` returns an identifier for a value of up
/// to 0x1FFFFFFF and `None` for any other, and the identifier holds the
/// value it was given.
pub assume_specification[ EmbeddedExtendedId::new ](raw: u32) -> (r: Option<EmbeddedExtendedId>)
    ensures
        r.is_some() <==> raw <= 0x1FFF_FFFF,
        r.is_some() ==> embedded_extended_value(r.unwrap()) == raw,
;

/// `embedded_can::ExtendedId::as_raw` returns the value that the identifier
/// holds.
pub assume_specification[ EmbeddedExtendedId::as_raw ](id: &EmbeddedExtendedId) -> (r: u32)
    ensures
        r == embedded_extended_value(*id),
;

/// The variant `embedded_can::Id::Standard` of a standard identifier: a
/// standard `embedded_can::Id` with the same value.
#[verifier::external_body]
fn embedded_id_of_standard(id: EmbeddedStandardId) -> (r: EmbeddedId)
    ensures
        embedded_id_value(r) == (false, embedded_standard_value(id) as u32),
{
    EmbeddedId::Standard(id)
}

/// The variant `embedded_can::Id::Extended` of an extended identifier: an
/// extended `embedded_can::Id` with the same value.
#[verifier::external_body]
fn embedded_id_of_extended(id: EmbeddedExtendedId) -> (r: EmbeddedId)
    ensures
        embedded_id_value(r) == (true, embedded_extended_value(id)),
{
    EmbeddedId::Extended(id)
}

impl StandardId {
    /// The `embedded_can` identifier with the same value. That crate's
    /// identifiers have no flags, so the flags are left behind.
    pub fn into_embedded(self) -> (r: EmbeddedStandardId)
        ensures
            embedded_standard_value(r) == self.as_raw(),
    {
        match EmbeddedStandardId::new(self.as_raw()) {
            Some(id) => id,
            None => vstd::pervasive::unreached(),
        }
    }
}

impl ExtendedId {
    /// The `embedded_can` identifier with the same value. That crate's
    /// identifiers have no flags, so the flags are left behind.
    pub fn into_embedded(self) -> (r: EmbeddedExtendedId)
        ensures
            embedded_extended_value(r) == self.as_raw(),
    {
        match EmbeddedExtendedId::new(self.as_raw()) {
            Some(id) => id,
            None => vstd::pervasive::unreached(),
        }
    }
}

impl Id {
    /// The `embedded_can` identifier of the same kind with the same value.
    /// That crate's identifiers have no flags, so the flags are left
    /// behind.
    pub fn into_embedded(self) -> (r: EmbeddedId)
        ensures
            embedded_id_value(r) == (self is Extended, self.as_raw()),
    {
        match self {
            Id::Standard(sid) => embedded_id_of_standard(sid.into_embedded()),
            Id::Extended(eid) => embedded_id_of_extended(eid.into_embedded()),
        }
    }
}

} // verus!
