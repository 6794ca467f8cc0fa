//! The four condition flags held in the low byte of the status register.

use vstd::prelude::*;

verus! {

/// The condition flags: zero, negative, carry and overflow, packed into
/// bits 0 through 3 of the low byte of the status register.
#[derive(Debug, Clone, Copy, PartialEq, Eq, Structural)]
pub struct StatusFlags {
    pub zero: bool,
    pub negative: bool,
    pub carry: bool,
    pub overflow: bool,
}

/// The bit pattern that a set of flags packs to: Z is bit 0, N bit 1,
/// C bit 2, V bit 3.
pub open spec fn spec_flags_to_u16(f: StatusFlags) -> u16 {
    (if f.zero { 1u16 } else { 0u16 }) | (if f.negative { 2u16 } else { 0u16 }) | (if f.carry {
        4u16
    } else {
        0u16
    }) | (if f.overflow { 8u16 } else { 0u16 })
}

/// The flags encoded by a status-register word; only bits 0 through 3
/// are read.
pub open spec fn spec_flags_from_u16(sr: u16) -> StatusFlags {
    StatusFlags {
        zero: sr & 1 != 0,
        negative: sr & 2 != 0,
        carry: sr & 4 != 0,
        overflow: sr & 8 != 0,
    }
}

impl StatusFlags {
    /// All four flags clear.
    pub fn new() -> (r: StatusFlags)
        ensures
            r == (StatusFlags { zero: false, negative: false, carry: false, overflow: false }),
    {
        StatusFlags { zero: false, negative: false, carry: false, overflow: false }
    }

    /// Packs the flags into the low nibble of a word.
    pub fn to_u16(&self) -> (r: u16)
        ensures
            r == spec_flags_to_u16(*self),
    {
        let z: u16 = if self.zero { 1 } else { 0 };
        let n: u16 = if self.negative { 2 } else { 0 };
        let c: u16 = if self.carry { 4 } else { 0 };
        let v: u16 = if self.overflow { 8 } else { 0 };
        z | n | c | v
    }

    /// Reads the flags out of the low nibble of a status-register word.
    pub fn from_u16(sr: u16) -> (r: StatusFlags)
        ensures
            r == spec_flags_from_u16(sr),
    {
        StatusFlags {
            zero: (sr & 1) != 0,
            negative: (sr & 2) != 0,
            carry: (sr & 4) != 0,
            overflow: (sr & 8) != 0,
        }
    }
}

/// Packing a set of flags and reading it back yields the same flags, and
/// reading a word and re-packing keeps exactly its low nibble.
pub proof fn lemma_flags_round_trip(f: StatusFlags, sr: u16)
    ensures
        spec_flags_from_u16(spec_flags_to_u16(f)) == f,
        spec_flags_to_u16(spec_flags_from_u16(sr)) == sr & 0xF,
{
    let zb: u16 = if f.zero { 1 } else { 0 };
    let nb: u16 = if f.negative { 2 } else { 0 };
    let cb: u16 = if f.carry { 4 } else { 0 };
    let vb: u16 = if f.overflow { 8 } else { 0 };
    assert((zb == 0 || zb == 1) && (nb == 0 || nb == 2) && (cb == 0 || cb == 4) && (vb == 0 || vb
        == 8) ==> (((zb | nb | cb | vb) & 1 != 0) == (zb == 1)) && (((zb | nb | cb | vb) & 2 != 0)
        == (nb == 2)) && (((zb | nb | cb | vb) & 4 != 0) == (cb == 4)) && (((zb | nb | cb | vb) & 8
        != 0) == (vb == 8))) by (bit_vector);
    assert(((if sr & 1 != 0 { 1u16 } else { 0u16 }) | (if sr & 2 != 0 { 2u16 } else { 0u16 }) | (
    if sr & 4 != 0 {
        4u16
    } else {
        0u16
    }) | (if sr & 8 != 0 { 8u16 } else { 0u16 })) == sr & 0xF) by (bit_vector);
}

} // verus!
