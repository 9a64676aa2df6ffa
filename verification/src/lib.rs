//! Common CAN types: identifiers with their frame-type flags, identifier
//! filters, the legislated OBD diagnostic addresses, and frames.
//!
//! Every identifier is modelled by one 32-bit word: the arbitration value in
//! the low 29 bits and the flags in the top three. The contracts of this
//! crate are stated over that word.
//!
//! Identifiers convert into those of the `embedded-can` crate, and filters
//! into those of the `socketcan` crate.

pub mod constants;
pub mod frame;
pub mod identifier;
pub mod text;
