//! Identifiers as text, for people to read.
//!
//! An identifier is written as its value in hexadecimal, with capital
//! digits behind `0x`, followed by the name of each flag it carries. The
//! text is for inspection, and is not meant to be read back.

use crate::constants::IdentifierFlags;
use crate::constants::ERROR_BIT;
use crate::constants::EXTENDED_BIT;
use crate::constants::REMOTE_BIT;
use crate::identifier::id::ExtendedId;
use crate::identifier::id::Id;
use crate::identifier::id::StandardId;
use crate::identifier::obd::DiagnosticBroadcastAddress;
use crate::identifier::obd::DiagnosticRequestAddress;
use crate::identifier::obd::DiagnosticResponseAddress;
use vstd::prelude::*;
use vstd::string::StringExecFns;

verus! {

/// The sixteen hexadecimal digits, capital letters for ten to fifteen.
pub open spec fn hex_alphabet() -> Seq<char> {
    seq!['0', '1', '2', '3', '4', '5', '6', '7', '8', '9', 'A', 'B', 'C', 'D', 'E', 'F']
}

/// The digits of `value` in base 16, the most significant first, without
/// leading zeros; the digit `0` for zero.
pub open spec fn hex_digits(value: nat) -> Seq<char>
    decreases value,
{
    if value < 16 {
        seq![hex_alphabet()[value as int]]
    } else {
        hex_digits(value / 16).push(hex_alphabet()[(value % 16) as int])
    }
}

/// `value` in hexadecimal behind `0x`.
pub open spec fn hex_text(value: nat) -> Seq<char> {
    seq!['0', 'x'] + hex_digits(value)
}

/// The names of the flags in `bits`, each behind a space: extended first,
/// then remote, then error. Empty where no flag is set.
pub open spec fn flags_text(bits: u32) -> Seq<char> {
    (if bits & EXTENDED_BIT != 0 {
        " EXTENDED"@
    } else {
        Seq::<char>::empty()
    }) + (if bits & REMOTE_BIT != 0 {
        " REMOTE"@
    } else {
        Seq::<char>::empty()
    }) + (if bits & ERROR_BIT != 0 {
        " ERROR"@
    } else {
        Seq::<char>::empty()
    })
}

/// The text of an identifier with the given value and flags.
pub open spec fn id_text(raw: u32, flags: IdentifierFlags) -> Seq<char> {
    hex_text(raw as nat) + flags_text(flags.bits())
}

/// One hexadecimal digit as text.
fn hex_digit_str(digit: u32) -> (r: &'static str)
    requires
        digit < 16,
    ensures
        r@ == seq![hex_alphabet()[digit as int]],
{
    proof {
        reveal_strlit("0");
        reveal_strlit("1");
        reveal_strlit("2");
        reveal_strlit("3");
        reveal_strlit("4");
        reveal_strlit("5");
        reveal_strlit("6");
        reveal_strlit("7");
        reveal_strlit("8");
        reveal_strlit("9");
        reveal_strlit("A");
        reveal_strlit("B");
        reveal_strlit("C");
        reveal_strlit("D");
        reveal_strlit("E");
        reveal_strlit("F");
    }
    let r = match digit {
        0 => "0",
        1 => "1",
        2 => "2",
        3 => "3",
        4 => "4",
        5 => "5",
        6 => "6",
        7 => "7",
        8 => "8",
        9 => "9",
        10 => "A",
        11 => "B",
        12 => "C",
        13 => "D",
        14 => "E",
        _ => "F",
    };
    assert(r@ =~= seq![hex_alphabet()[digit as int]]);
    r
}

/// The digits of `value` in base 16, without leading zeros.
fn hex_digits_string(value: u32) -> (r: String)
    ensures
        r@ == hex_digits(value as nat),
    decreases value,
{
    if value < 16 {
        String::from_str(hex_digit_str(value))
    } else {
        let r = hex_digits_string(value / 16).concat(hex_digit_str(value % 16));
        assert(r@ =~= hex_digits((value / 16) as nat).push(
            hex_alphabet()[((value % 16) as nat) as int],
        ));
        r
    }
}

/// Writes `value` in hexadecimal, with capital digits behind `0x`.
pub fn hex_string(value: u32) -> (r: String)
    ensures
        r@ == hex_text(value as nat),
{
    proof {
        reveal_strlit("0x");
    }
    let digits = hex_digits_string(value);
    let r = String::from_str("0x").concat(digits.as_str());
    assert(r@ =~= seq!['0', 'x'] + hex_digits(value as nat));
    r
}

/// Writes an identifier with the given value and flags.
fn id_string(raw: u32, flags: IdentifierFlags) -> (r: String)
    ensures
        r@ == id_text(raw, flags),
{
    let mut r = hex_string(raw);
    let ghost value = r@;
    let bits: u32 = flags.bits();
    if bits & EXTENDED_BIT != 0 {
        r = r.concat(" EXTENDED");
    }
    if bits & REMOTE_BIT != 0 {
        r = r.concat(" REMOTE");
    }
    if bits & ERROR_BIT != 0 {
        r = r.concat(" ERROR");
    }
    assert(r@ =~= value + flags_text(bits));
    r
}

impl StandardId {
    /// The identifier as text: its value in hexadecimal, then the names of
    /// its flags.
    pub fn to_string(&self) -> (r: String)
        ensures
            r@ == id_text(self.as_raw() as u32, self.flags()),
    {
        id_string(self.as_raw() as u32, self.flags())
    }
}

impl ExtendedId {
    /// The identifier as text: its value in hexadecimal, then the names of
    /// its flags, of which `EXTENDED` is always one.
    pub fn to_string(&self) -> (r: String)
        ensures
            r@ == id_text(self.as_raw(), self.flags()),
    {
        id_string(self.as_raw(), self.flags())
    }
}

impl Id {
    /// The identifier as text: its value in hexadecimal, then the names of
    /// its flags.
    pub fn to_string(&self) -> (r: String)
        ensures
            r@ == id_text(self.as_raw(), self.flags()),
    {
        id_string(self.as_raw(), self.flags())
    }
}

impl DiagnosticBroadcastAddress {
    /// The address as text, as its identifier is written.
    pub fn to_string(&self) -> (r: String)
        ensures
            r@ == id_text(self.id().as_raw(), self.id().flags()),
    {
        self.id().to_string()
    }
}

impl DiagnosticRequestAddress {
    /// The address as text, as its identifier is written.
    pub fn to_string(&self) -> (r: String)
        ensures
            r@ == id_text(self.id().as_raw(), self.id().flags()),
    {
        self.id().to_string()
    }
}

impl DiagnosticResponseAddress {
    /// The address as text, as its identifier is written.
    pub fn to_string(&self) -> (r: String)
        ensures
            r@ == id_text(self.id().as_raw(), self.id().flags()),
    {
        self.id().to_string()
    }
}

} // verus!
