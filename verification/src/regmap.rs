//! The register name mapper and the numeric register identifier.
//!
//! The simulator publishes its state elements as a string-keyed resource
//! directory.  `slot_for_name` translates the recognized resource names
//! ("R0" through "R15" and "XPSR") to the fixed register-file slots; every
//! other name belongs to a non-register resource and maps to `None`, to be
//! skipped rather than treated as an error.
//!
//! `Register` is the protocol engine's numeric handle for a single
//! register; `Register::from_raw_id` accepts exactly the raw ids that have
//! a named register behind them.

use vstd::prelude::*;

verus! {

/// A named register of the execution context.
#[derive(Debug, Clone, PartialEq)]
pub enum Register {
    R0,
    R1,
    R2,
    R3,
    R4,
    R5,
    R6,
    R7,
    R8,
    R9,
    R10,
    R11,
    R12,
    SP,
    LR,
    PC,
    XPSR,
}

/// Relies on `<str as PartialEq>::eq`: two string slices compare equal
/// exactly when their characters do.
#[verifier::external_body]
fn str_equal(a: &str, b: &str) -> (r: bool)
    ensures
        r == (a@ == b@),
{
    a == b
}

/// The register-file slot behind a resource name: "R0" through "R15" and
/// "XPSR" map to slots 0 through 15 and 25; every other name is not a
/// register.
pub open spec fn spec_slot_for_name(name: Seq<char>) -> Option<usize> {
    if name == "R0"@ {
        Some(0usize)
    } else if name == "R1"@ {
        Some(1usize)
    } else if name == "R2"@ {
        Some(2usize)
    } else if name == "R3"@ {
        Some(3usize)
    } else if name == "R4"@ {
        Some(4usize)
    } else if name == "R5"@ {
        Some(5usize)
    } else if name == "R6"@ {
        Some(6usize)
    } else if name == "R7"@ {
        Some(7usize)
    } else if name == "R8"@ {
        Some(8usize)
    } else if name == "R9"@ {
        Some(9usize)
    } else if name == "R10"@ {
        Some(10usize)
    } else if name == "R11"@ {
        Some(11usize)
    } else if name == "R12"@ {
        Some(12usize)
    } else if name == "R13"@ {
        Some(13usize)
    } else if name == "R14"@ {
        Some(14usize)
    } else if name == "R15"@ {
        Some(15usize)
    } else if name == "XPSR"@ {
        Some(25usize)
    } else {
        None
    }
}

/// Translates a simulator resource name to its register-file slot, or
/// `None` for a resource that is not a register.
pub fn slot_for_name(name: &str) -> (r: Option<usize>)
    ensures
        r == spec_slot_for_name(name@),
        r is Some ==> r.unwrap() < 26,
{
    if str_equal(name, "R0") {
        Some(0)
    } else if str_equal(name, "R1") {
        Some(1)
    } else if str_equal(name, "R2") {
        Some(2)
    } else if str_equal(name, "R3") {
        Some(3)
    } else if str_equal(name, "R4") {
        Some(4)
    } else if str_equal(name, "R5") {
        Some(5)
    } else if str_equal(name, "R6") {
        Some(6)
    } else if str_equal(name, "R7") {
        Some(7)
    } else if str_equal(name, "R8") {
        Some(8)
    } else if str_equal(name, "R9") {
        Some(9)
    } else if str_equal(name, "R10") {
        Some(10)
    } else if str_equal(name, "R11") {
        Some(11)
    } else if str_equal(name, "R12") {
        Some(12)
    } else if str_equal(name, "R13") {
        Some(13)
    } else if str_equal(name, "R14") {
        Some(14)
    } else if str_equal(name, "R15") {
        Some(15)
    } else if str_equal(name, "XPSR") {
        Some(25)
    } else {
        None
    }
}

/// The register behind a raw numeric id, with the offset the protocol
/// engine expects alongside it: ids 0 through 15 are R0 through R12, SP,
/// LR and PC; id 25 is XPSR; no other id names a register.
pub open spec fn spec_from_raw_id(id: usize) -> Option<(Register, usize)> {
    if id == 0 {
        Some((Register::R0, 0usize))
    } else if id == 1 {
        Some((Register::R1, 0usize))
    } else if id == 2 {
        Some((Register::R2, 0usize))
    } else if id == 3 {
        Some((Register::R3, 0usize))
    } else if id == 4 {
        Some((Register::R4, 0usize))
    } else if id == 5 {
        Some((Register::R5, 0usize))
    } else if id == 6 {
        Some((Register::R6, 0usize))
    } else if id == 7 {
        Some((Register::R7, 0usize))
    } else if id == 8 {
        Some((Register::R8, 0usize))
    } else if id == 9 {
        Some((Register::R9, 0usize))
    } else if id == 10 {
        Some((Register::R10, 0usize))
    } else if id == 11 {
        Some((Register::R11, 0usize))
    } else if id == 12 {
        Some((Register::R12, 0usize))
    } else if id == 13 {
        Some((Register::SP, 0usize))
    } else if id == 14 {
        Some((Register::LR, 0usize))
    } else if id == 15 {
        Some((Register::PC, 0usize))
    } else if id == 25 {
        Some((Register::XPSR, 0usize))
    } else {
        None
    }
}

impl Register {
    /// Decodes a raw register id from the protocol engine.
    pub fn from_raw_id(id: usize) -> (r: Option<(Register, usize)>)
        ensures
            r == spec_from_raw_id(id),
    {
        match id {
            0 => Some((Register::R0, 0)),
            1 => Some((Register::R1, 0)),
            2 => Some((Register::R2, 0)),
            3 => Some((Register::R3, 0)),
            4 => Some((Register::R4, 0)),
            5 => Some((Register::R5, 0)),
            6 => Some((Register::R6, 0)),
            7 => Some((Register::R7, 0)),
            8 => Some((Register::R8, 0)),
            9 => Some((Register::R9, 0)),
            10 => Some((Register::R10, 0)),
            11 => Some((Register::R11, 0)),
            12 => Some((Register::R12, 0)),
            13 => Some((Register::SP, 0)),
            14 => Some((Register::LR, 0)),
            15 => Some((Register::PC, 0)),
            25 => Some((Register::XPSR, 0)),
            _ => None,
        }
    }
}

} // verus!
