//! Conversion of filters into those of the `socketcan` crate.

use crate::identifier::filter::Filter;
use socketcan::CANFilter;
use socketcan::ConstructionError;
use vstd::prelude::*;

verus! {

/// `socketcan::CANFilter`, which Verus does not look into.
#[verifier::external_type_specification]
#[verifier::external_body]
pub struct ExCanFilter(CANFilter);

/// `socketcan::ConstructionError`, which Verus does not look into.
#[verifier::external_type_specification]
#[verifier::external_body]
pub struct ExConstructionError(ConstructionError);

/// What a `socketcan::CANFilter` holds: the word of its identifier, and its
/// mask.
pub uninterp spec fn socketcan_filter_words(filter: CANFilter) -> (u32, u32);

/// `socketcan::CANFilter::new` never fails, whatever it is given, and the
/// filter it returns holds the identifier word and the mask as they were
/// handed in.
pub assume_specification[ CANFilter::new ](id: u32, mask: u32) -> (r: Result<
    CANFilter,
    ConstructionError,
>)
    ensures
        r.is_ok(),
        socketcan_filter_words(r.unwrap()) == (id, mask),
;

impl Filter {
    /// The two words that stand for this filter on a CAN socket: the word
    /// of its identifier, value and flags together, and its mask. A socket
    /// lets an identifier pass where the two words agree in every bit of
    /// the mask, as this filter does.
    pub fn socket_words(&self) -> (r: (u32, u32))
        ensures
            r.0 == self@.id.word(),
            r.1 == self@.mask,
    {
        let id = self.id();
        (id.as_raw() | id.flags().bits(), self.mask().bits())
    }

    /// The `socketcan` filter with the same identifier word and the same
    /// mask.
    pub fn into_socketcan(self) -> (r: CANFilter)
        ensures
            socketcan_filter_words(r) == (self@.id.word(), self@.mask),
    {
        let words = self.socket_words();
        match CANFilter::new(words.0, words.1) {
            Ok(filter) => filter,
            Err(_) => vstd::pervasive::unreached(),
        }
    }
}

} // verus!
