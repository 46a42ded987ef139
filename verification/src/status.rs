//! The processor status register: eight flag bits packed into one byte.

use vstd::prelude::*;

verus! {

/// Bit 0: carry / no-borrow indicator.
pub const FLAG_C: u8 = 0x01;

/// Bit 1: zero flag.
pub const FLAG_Z: u8 = 0x02;

/// Bit 2: interrupt-disable flag (storable only in this core).
pub const FLAG_I: u8 = 0x04;

/// Bit 3: decimal-mode flag (storable only; arithmetic stays binary).
pub const FLAG_D: u8 = 0x08;

/// Bit 4: break flag (storable only).
pub const FLAG_B: u8 = 0x10;

/// Bit 5: the reserved bit; it has no meaning of its own.
pub const FLAG_U: u8 = 0x20;

/// Bit 6: signed-overflow flag.
pub const FLAG_V: u8 = 0x40;

/// Bit 7: negative flag, a copy of bit 7 of the most recent result byte.
pub const FLAG_N: u8 = 0x80;

/// Whether the flag selected by `mask` is set in the status byte `p`.
pub open spec fn flag(p: u8, mask: u8) -> bool {
    p & mask != 0
}

/// The status byte `p` with the bits of `mask` forced to `on`.
pub open spec fn flag_set(p: u8, mask: u8, on: bool) -> u8 {
    if on {
        p | mask
    } else {
        p & !mask
    }
}

/// The status byte `p` after a result byte `v` has been produced: Z is set
/// exactly when `v` is zero, N is a copy of bit 7 of `v`, and every other
/// flag keeps its value.
pub open spec fn with_nz(p: u8, v: u8) -> u8 {
    flag_set(flag_set(p, FLAG_Z, v == 0), FLAG_N, v & FLAG_N != 0)
}

/// The packed 8-bit processor status register.
#[derive(Copy, Clone)]
pub struct ProcessorStatus {
    status: u8,
}

impl View for ProcessorStatus {
    type V = u8;

    closed spec fn view(&self) -> u8 {
        self.status
    }
}

impl ProcessorStatus {
    /// A status register with every flag clear.
    pub fn new() -> (r: Self)
        ensures
            r@ == 0u8,
    {
        ProcessorStatus { status: 0 }
    }

    /// A status register holding exactly the byte `value`.
    pub fn from_byte(value: u8) -> (r: Self)
        ensures
            r@ == value,
    {
        ProcessorStatus { status: value }
    }

    /// The whole status byte.
    pub fn to_byte(&self) -> (r: u8)
        ensures
            r == self@,
    {
        self.status
    }

    pub fn set_carry(&mut self)
        ensures
            final(self)@ == flag_set(old(self)@, FLAG_C, true),
    {
        self.status = self.status | FLAG_C;
    }

    pub fn clear_carry(&mut self)
        ensures
            final(self)@ == flag_set(old(self)@, FLAG_C, false),
    {
        self.status = self.status & !FLAG_C;
    }

    pub fn carry(&self) -> (r: bool)
        ensures
            r == flag(self@, FLAG_C),
    {
        self.status & FLAG_C != 0
    }

    pub fn set_zero(&mut self)
        ensures
            final(self)@ == flag_set(old(self)@, FLAG_Z, true),
    {
        self.status = self.status | FLAG_Z;
    }

    pub fn clear_zero(&mut self)
        ensures
            final(self)@ == flag_set(old(self)@, FLAG_Z, false),
    {
        self.status = self.status & !FLAG_Z;
    }

    pub fn zero(&self) -> (r: bool)
        ensures
            r == flag(self@, FLAG_Z),
    {
        self.status & FLAG_Z != 0
    }

    pub fn set_interrupt_disable(&mut self)
        ensures
            final(self)@ == flag_set(old(self)@, FLAG_I, true),
    {
        self.status = self.status | FLAG_I;
    }

    pub fn clear_interrupt_disable(&mut self)
        ensures
            final(self)@ == flag_set(old(self)@, FLAG_I, false),
    {
        self.status = self.status & !FLAG_I;
    }

    pub fn interrupt_disable(&self) -> (r: bool)
        ensures
            r == flag(self@, FLAG_I),
    {
        self.status & FLAG_I != 0
    }

    pub fn set_decimal_mode(&mut self)
        ensures
            final(self)@ == flag_set(old(self)@, FLAG_D, true),
    {
        self.status = self.status | FLAG_D;
    }

    pub fn clear_decimal_mode(&mut self)
        ensures
            final(self)@ == flag_set(old(self)@, FLAG_D, false),
    {
        self.status = self.status & !FLAG_D;
    }

    pub fn decimal_mode(&self) -> (r: bool)
        ensures
            r == flag(self@, FLAG_D),
    {
        self.status & FLAG_D != 0
    }

    pub fn set_break_command(&mut self)
        ensures
            final(self)@ == flag_set(old(self)@, FLAG_B, true),
    {
        self.status = self.status | FLAG_B;
    }

    pub fn clear_break_command(&mut self)
        ensures
            final(self)@ == flag_set(old(self)@, FLAG_B, false),
    {
        self.status = self.status & !FLAG_B;
    }

    pub fn break_command(&self) -> (r: bool)
        ensures
            r == flag(self@, FLAG_B),
    {
        self.status & FLAG_B != 0
    }

    pub fn set_overflow(&mut self)
        ensures
            final(self)@ == flag_set(old(self)@, FLAG_V, true),
    {
        self.status = self.status | FLAG_V;
    }

    pub fn clear_overflow(&mut self)
        ensures
            final(self)@ == flag_set(old(self)@, FLAG_V, false),
    {
        self.status = self.status & !FLAG_V;
    }

    pub fn overflow(&self) -> (r: bool)
        ensures
            r == flag(self@, FLAG_V),
    {
        self.status & FLAG_V != 0
    }

    pub fn set_negative(&mut self)
        ensures
            final(self)@ == flag_set(old(self)@, FLAG_N, true),
    {
        self.status = self.status | FLAG_N;
    }

    pub fn clear_negative(&mut self)
        ensures
            final(self)@ == flag_set(old(self)@, FLAG_N, false),
    {
        self.status = self.status & !FLAG_N;
    }

    pub fn negative(&self) -> (r: bool)
        ensures
            r == flag(self@, FLAG_N),
    {
        self.status & FLAG_N != 0
    }
}

} // verus!
