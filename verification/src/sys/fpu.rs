//! The floating-point unit's control register (FCR31): rounding mode, sticky
//! flags, exception enables and causes.
use vstd::prelude::*;

verus! {

/// A value of the FPU control register.
#[derive(Clone, Copy, Debug, PartialEq, Eq, Structural)]
pub struct Fcr31 {
    bits: u32,
}

impl View for Fcr31 {
    type V = u32;

    closed spec fn view(&self) -> u32 {
        self.bits
    }
}

impl Fcr31 {
    pub const ROUND_MODE_NEAREST: u32 = 0;
    pub const ROUND_MODE_ZERO: u32 = 1;
    pub const ROUND_MODE_NEG_INF: u32 = 2;
    pub const ROUND_MODE_POS_INF: u32 = 3;
    pub const FLAG_INEXACT: u32 = 0x4;
    pub const FLAG_UNDERFLOW: u32 = 0x8;
    pub const FLAG_OVERFLOW: u32 = 0x10;
    pub const FLAG_DIV_ZERO: u32 = 0x20;
    pub const FLAG_INVALID: u32 = 0x40;
    pub const ENABLE_INEXACT: u32 = 0x80;
    pub const ENABLE_UNDERFLOW: u32 = 0x100;
    pub const ENABLE_OVERFLOW: u32 = 0x200;
    pub const ENABLE_DIV_ZERO: u32 = 0x400;
    pub const ENABLE_INVALID: u32 = 0x800;
    pub const CAUSE_INEXACT: u32 = 0x1000;
    pub const CAUSE_UNDERFLOW: u32 = 0x2000;
    pub const CAUSE_OVERFLOW: u32 = 0x4000;
    pub const CAUSE_DIV_ZERO: u32 = 0x8000;
    pub const CAUSE_INVALID: u32 = 0x1_0000;
    pub const CAUSE_UNIMPLEMENTED: u32 = 0x2_0000;

    /// The register value with exactly the given bits.
    pub fn from_bits_retain(bits: u32) -> (f: Self)
        ensures
            f@ == bits,
    {
        Fcr31 { bits }
    }

    /// The raw bits.
    pub fn bits(&self) -> (b: u32)
        ensures
            b == self@,
    {
        self.bits
    }

    /// The bits set in either value.
    pub fn union(self, other: Self) -> (f: Self)
        ensures
            f@ == self@ | other@,
    {
        Fcr31 { bits: self.bits | other.bits }
    }
}

/// The register value for desktop IEEE-754 behaviour (round to nearest, no
/// exception traps); the caller writes it to FCR31.
pub fn set_fcr31_ieee754() -> (f: Fcr31)
    ensures
        f@ == 0,
{
    Fcr31::from_bits_retain(Fcr31::ROUND_MODE_NEAREST)
}

/// The register value of the system's default (round to nearest, with traps
/// on invalid operations, division by zero and overflow); the caller writes
/// it to FCR31.
pub fn set_fcr31_psp_default() -> (f: Fcr31)
    ensures
        f@ == Fcr31::ENABLE_INVALID | Fcr31::ENABLE_DIV_ZERO | Fcr31::ENABLE_OVERFLOW,
        f@ == 0xe00,
{
    let f = Fcr31::from_bits_retain(Fcr31::ROUND_MODE_NEAREST)
        .union(Fcr31::from_bits_retain(Fcr31::ENABLE_INVALID))
        .union(Fcr31::from_bits_retain(Fcr31::ENABLE_DIV_ZERO))
        .union(Fcr31::from_bits_retain(Fcr31::ENABLE_OVERFLOW));
    assert(0u32 | 0x800u32 | 0x400u32 | 0x200u32 == 0xe00u32) by (bit_vector);
    assert(0x800u32 | 0x400u32 | 0x200u32 == 0xe00u32) by (bit_vector);
    f
}

} // verus!
