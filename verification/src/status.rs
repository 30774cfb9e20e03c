//! The processor status word (PSW) of the audio coprocessor.

use vstd::prelude::*;

verus! {

/// Negative flag: top bit of the last result.
pub const NEG_FLAG: u8 = 0x80;
/// Signed-overflow flag, set by `ADC`.
pub const OVERFLOW_FLAG: u8 = 0x40;
/// Selects the direct page at 0x0100 instead of 0x0000.
pub const DIRECT_PAGE_FLAG: u8 = 0x20;
/// Carry out of bit 3, set by `ADC`.
pub const HALF_CARRY_FLAG: u8 = 0x08;
/// Zero flag: the last result was zero.
pub const ZERO_FLAG: u8 = 0x02;
/// Carry flag.
pub const CARRY_FLAG: u8 = 0x01;

/// The 8-bit status word. Bits not listed above are plain read/write storage
/// that the arithmetic never touches.
#[derive(Clone, Copy, PartialEq, Eq, Structural, Debug)]
pub struct StatusReg(pub u8);

/// The status word after one flag bit is set (`v == true`) or cleared.
pub open spec fn spec_set_flag(psw: u8, flag: u8, v: bool) -> u8 {
    if v {
        psw | flag
    } else {
        psw & !flag
    }
}

/// The status word after N and Z are refreshed from a result byte:
/// N is the top bit of the result, Z holds exactly when it is zero.
pub open spec fn spec_set_nz(psw: u8, val: u8) -> u8 {
    spec_set_flag(spec_set_flag(psw, NEG_FLAG, val & NEG_FLAG != 0), ZERO_FLAG, val == 0)
}

impl StatusReg {
    pub open spec fn spec_negative(self) -> bool {
        self.0 & NEG_FLAG != 0
    }

    pub open spec fn spec_zero(self) -> bool {
        self.0 & ZERO_FLAG != 0
    }

    pub open spec fn spec_direct_page(self) -> bool {
        self.0 & DIRECT_PAGE_FLAG != 0
    }

    pub open spec fn spec_carry(self) -> bool {
        self.0 & CARRY_FLAG != 0
    }

    pub open spec fn spec_half_carry(self) -> bool {
        self.0 & HALF_CARRY_FLAG != 0
    }

    pub open spec fn spec_overflow(self) -> bool {
        self.0 & OVERFLOW_FLAG != 0
    }

    pub fn negative(&self) -> (r: bool)
        ensures
            r == self.spec_negative(),
    {
        self.0 & NEG_FLAG != 0
    }

    pub fn zero(&self) -> (r: bool)
        ensures
            r == self.spec_zero(),
    {
        self.0 & ZERO_FLAG != 0
    }

    pub fn direct_page(&self) -> (r: bool)
        ensures
            r == self.spec_direct_page(),
    {
        self.0 & DIRECT_PAGE_FLAG != 0
    }

    pub fn carry(&self) -> (r: bool)
        ensures
            r == self.spec_carry(),
    {
        self.0 & CARRY_FLAG != 0
    }

    pub fn half_carry(&self) -> (r: bool)
        ensures
            r == self.spec_half_carry(),
    {
        self.0 & HALF_CARRY_FLAG != 0
    }

    pub fn overflow(&self) -> (r: bool)
        ensures
            r == self.spec_overflow(),
    {
        self.0 & OVERFLOW_FLAG != 0
    }

    pub fn set(&mut self, flag: u8, v: bool)
        ensures
            final(self).0 == spec_set_flag(old(self).0, flag, v),
    {
        match v {
            true => self.0 = self.0 | flag,
            false => self.0 = self.0 & !flag,
        }
    }

    pub fn set_negative(&mut self, v: bool)
        ensures
            final(self).0 == spec_set_flag(old(self).0, NEG_FLAG, v),
    {
        self.set(NEG_FLAG, v)
    }

    pub fn set_zero(&mut self, v: bool)
        ensures
            final(self).0 == spec_set_flag(old(self).0, ZERO_FLAG, v),
    {
        self.set(ZERO_FLAG, v)
    }

    pub fn set_direct_page(&mut self, v: bool)
        ensures
            final(self).0 == spec_set_flag(old(self).0, DIRECT_PAGE_FLAG, v),
    {
        self.set(DIRECT_PAGE_FLAG, v)
    }

    pub fn set_carry(&mut self, v: bool)
        ensures
            final(self).0 == spec_set_flag(old(self).0, CARRY_FLAG, v),
    {
        self.set(CARRY_FLAG, v)
    }

    pub fn set_half_carry(&mut self, v: bool)
        ensures
            final(self).0 == spec_set_flag(old(self).0, HALF_CARRY_FLAG, v),
    {
        self.set(HALF_CARRY_FLAG, v)
    }

    pub fn set_overflow(&mut self, v: bool)
        ensures
            final(self).0 == spec_set_flag(old(self).0, OVERFLOW_FLAG, v),
    {
        self.set(OVERFLOW_FLAG, v)
    }

    /// Refresh N and Z from a result byte and hand the byte back.
    pub fn set_nz(&mut self, val: u8) -> (r: u8)
        ensures
            final(self).0 == spec_set_nz(old(self).0, val),
            r == val,
    {
        self.set_negative(val & 0x80 != 0);
        self.set_zero(val == 0);
        val
    }
}

} // verus!
