//! CAN identifiers, the filters that screen them, and the OBD addresses
//! that are drawn from them.

pub mod id;
pub use self::id::ExtendedId;
pub use self::id::Id;
pub use self::id::StandardId;

pub mod filter;
pub use self::filter::Filter;
pub use self::filter::FilterView;
pub use self::filter::Mask;

pub mod obd;

pub mod embedded;

pub mod socket;
