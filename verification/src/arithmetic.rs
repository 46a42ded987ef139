//! The arithmetic group: ADC, SBC and the CMP/CPX/CPY comparisons.
//! Arithmetic is binary only: the decimal flag is storable but does not
//! alter these operations.

use vstd::prelude::*;

use crate::addressing::{read_operand, Mode};
use crate::cpu::{reg_get, CpuState, Reg, Step, MOS6502};
use crate::memory::Memory;
use crate::status::{flag, flag_set, with_nz, ProcessorStatus, FLAG_C, FLAG_N, FLAG_V, FLAG_Z};

verus! {

/// Updates the zero and negative flags from the result byte `value`,
/// leaving every other flag unchanged.
pub fn on_arit_set_status(proc_status: &mut ProcessorStatus, value: u8)
    ensures
        final(proc_status)@ == with_nz(old(proc_status)@, value),
{
    if value == 0 {
        proc_status.set_zero();
    } else {
        proc_status.clear_zero();
    }
    if value & FLAG_N != 0 {
        proc_status.set_negative();
    } else {
        proc_status.clear_negative();
    }
}

/// Whether bit 7, the sign bit of a two's-complement byte, is set.
pub open spec fn sign_bit(v: u8) -> bool {
    v & FLAG_N != 0
}

/// The nine-bit sum `A + operand + carry-in` of ADC.
pub open spec fn adc_sum(a: u8, value: u8, carry_in: bool) -> int {
    a + value + (if carry_in { 1int } else { 0int })
}

/// The state after `A := A + value + C` with all four flag updates: C is
/// the unsigned carry out, V is set exactly when two like-signed operands
/// produce a result of the other sign, and Z and N reflect the new A.
pub open spec fn adc_state(s: CpuState, value: u8) -> CpuState {
    let sum = adc_sum(s.a, value, flag(s.p, FLAG_C));
    let result = (sum % 256) as u8;
    let p1 = flag_set(s.p, FLAG_C, sum > 0xFF);
    let p2 = flag_set(
        p1,
        FLAG_V,
        sign_bit(s.a) == sign_bit(value) && sign_bit(s.a) != sign_bit(result),
    );
    CpuState { a: result, p: with_nz(p2, result), ..s }
}

/// The signed intermediate `A - operand - (1 - carry-in)` of SBC.
pub open spec fn sbc_diff(a: u8, value: u8, carry_in: bool) -> int {
    a - value - (if carry_in { 0int } else { 1int })
}

/// The state after `A := A - value - (1 - C)` with all four flag updates:
/// C is set exactly when no borrow occurred, V is set exactly when the
/// operands have different signs and the result has the other sign than A,
/// and Z and N reflect the new A.
pub open spec fn sbc_state(s: CpuState, value: u8) -> CpuState {
    let diff = sbc_diff(s.a, value, flag(s.p, FLAG_C));
    let result = (diff % 256) as u8;
    let p1 = flag_set(s.p, FLAG_C, diff >= 0);
    let p2 = flag_set(
        p1,
        FLAG_V,
        sign_bit(s.a) != sign_bit(value) && sign_bit(s.a) != sign_bit(result),
    );
    CpuState { a: result, p: with_nz(p2, result), ..s }
}

/// The status byte after a comparison of register value `reg` with the
/// operand `value`: C holds exactly when `reg >= value` unsigned, Z holds
/// exactly when they are equal, and N copies bit 7 of the wrapping
/// difference.  No register changes.
pub open spec fn cmp_flags(p: u8, reg: u8, value: u8) -> u8 {
    let result = reg.wrapping_sub(value);
    flag_set(
        flag_set(flag_set(p, FLAG_C, reg >= value), FLAG_Z, reg == value),
        FLAG_N,
        result & FLAG_N != 0,
    )
}

/// The effect of ADC through `mode`.
pub open spec fn adc_step(s: CpuState, m: Seq<u8>, mode: Mode) -> Step {
    let t = read_operand(s, m, mode);
    Step {
        s: (CpuState { pc: t.pc, ..adc_state(s, t.value) }),
        m: m,
        cycles: t.cycles,
    }
}

/// The effect of SBC through `mode`.
pub open spec fn sbc_step(s: CpuState, m: Seq<u8>, mode: Mode) -> Step {
    let t = read_operand(s, m, mode);
    Step {
        s: (CpuState { pc: t.pc, ..sbc_state(s, t.value) }),
        m: m,
        cycles: t.cycles,
    }
}

/// The effect of a comparison of register `r` through `mode`.
pub open spec fn cp_step(s: CpuState, m: Seq<u8>, mode: Mode, r: Reg) -> Step {
    let t = read_operand(s, m, mode);
    Step {
        s: (CpuState { pc: t.pc, p: cmp_flags(s.p, reg_get(s, r), t.value), ..s }),
        m: m,
        cycles: t.cycles,
    }
}

impl MOS6502 {
    /// Add with carry: `A := A + value + C`, updating C, V, Z and N.
    fn adc(&mut self, value: u8)
        ensures
            final(self)@ == adc_state(old(self)@, value),
    {
        let carry: u16 = if self.proc_status.carry() {
            1
        } else {
            0
        };
        let result: u16 = self.reg_a as u16 + value as u16 + carry;

        if result > 0xFF {
            self.proc_status.set_carry();
        } else {
            self.proc_status.clear_carry();
        }

        let a_sign = (self.reg_a & FLAG_N) != 0;
        let value_sign = (value & FLAG_N) != 0;
        let result_byte = (result % 256) as u8;
        let result_sign = (result_byte & FLAG_N) != 0;
        if a_sign == value_sign && a_sign != result_sign {
            self.proc_status.set_overflow();
        } else {
            self.proc_status.clear_overflow();
        }

        self.reg_a = result_byte;
        on_arit_set_status(&mut self.proc_status, self.reg_a);
    }

    /// Subtract with carry: `A := A - value - (1 - C)`, updating C, V, Z
    /// and N.
    fn sbc(&mut self, value: u8)
        ensures
            final(self)@ == sbc_state(old(self)@, value),
    {
        let carry: i16 = if self.proc_status.carry() {
            1
        } else {
            0
        };
        let result: i16 = self.reg_a as i16 - value as i16 - (1 - carry);

        if result >= 0 {
            self.proc_status.set_carry();
        } else {
            self.proc_status.clear_carry();
        }

        let result_byte: u8 = if result >= 0 {
            result as u8
        } else {
            (result + 256) as u8
        };

        let a_sign = (self.reg_a & FLAG_N) != 0;
        let value_sign = (value & FLAG_N) != 0;
        let result_sign = (result_byte & FLAG_N) != 0;
        if a_sign != value_sign && a_sign != result_sign {
            self.proc_status.set_overflow();
        } else {
            self.proc_status.clear_overflow();
        }

        self.reg_a = result_byte;
        on_arit_set_status(&mut self.proc_status, self.reg_a);
    }

    /// Compare: sets C, Z and N from the register value `reg`, the operand
    /// `value` and their wrapping difference `result`.  No register
    /// changes.
    fn cmp(&mut self, reg: u8, result: u8, value: u8)
        requires
            result == reg.wrapping_sub(value),
        ensures
            final(self)@ == (CpuState { p: cmp_flags(old(self)@.p, reg, value), ..old(self)@ }),
    {
        if reg >= value {
            self.proc_status.set_carry();
        } else {
            self.proc_status.clear_carry();
        }

        if reg == value {
            self.proc_status.set_zero();
        } else {
            self.proc_status.clear_zero();
        }

        if result & FLAG_N != 0 {
            self.proc_status.set_negative();
        } else {
            self.proc_status.clear_negative();
        }
    }

    /// Compares A with the operand value.
    fn cmpa2cmp(&mut self, value: u8)
        ensures
            final(self)@ == (CpuState {
                p: cmp_flags(old(self)@.p, old(self)@.a, value),
                ..old(self)@
            }),
    {
        let result = self.reg_a.wrapping_sub(value);
        let reg = self.reg_a;
        self.cmp(reg, result, value)
    }

    /// Compares X with the operand value.
    fn cmpx2cmp(&mut self, value: u8)
        ensures
            final(self)@ == (CpuState {
                p: cmp_flags(old(self)@.p, old(self)@.x, value),
                ..old(self)@
            }),
    {
        let result = self.reg_x.wrapping_sub(value);
        let reg = self.reg_x;
        self.cmp(reg, result, value)
    }

    /// Compares Y with the operand value.
    fn cmpy2cmp(&mut self, value: u8)
        ensures
            final(self)@ == (CpuState {
                p: cmp_flags(old(self)@.p, old(self)@.y, value),
                ..old(self)@
            }),
    {
        let result = self.reg_y.wrapping_sub(value);
        let reg = self.reg_y;
        self.cmp(reg, result, value)
    }

    pub fn adc_im(&mut self, memory: &Memory) -> (cycles: u32)
        ensures
            ({
                let t = adc_step(old(self)@, memory@, Mode::Im);
                final(self)@ == t.s && cycles == t.cycles
            }),
    {
        let (value, cycles) = self.operand(memory, Mode::Im);
        self.adc(value);
        cycles
    }

    pub fn adc_zp(&mut self, memory: &Memory) -> (cycles: u32)
        ensures
            ({
                let t = adc_step(old(self)@, memory@, Mode::Zp);
                final(self)@ == t.s && cycles == t.cycles
            }),
    {
        let (value, cycles) = self.operand(memory, Mode::Zp);
        self.adc(value);
        cycles
    }

    pub fn adc_zpx(&mut self, memory: &Memory) -> (cycles: u32)
        ensures
            ({
                let t = adc_step(old(self)@, memory@, Mode::Zpx);
                final(self)@ == t.s && cycles == t.cycles
            }),
    {
        let (value, cycles) = self.operand(memory, Mode::Zpx);
        self.adc(value);
        cycles
    }

    pub fn adc_abs(&mut self, memory: &Memory) -> (cycles: u32)
        ensures
            ({
                let t = adc_step(old(self)@, memory@, Mode::Abs);
                final(self)@ == t.s && cycles == t.cycles
            }),
    {
        let (value, cycles) = self.operand(memory, Mode::Abs);
        self.adc(value);
        cycles
    }

    pub fn adc_absx(&mut self, memory: &Memory) -> (cycles: u32)
        ensures
            ({
                let t = adc_step(old(self)@, memory@, Mode::Absx);
                final(self)@ == t.s && cycles == t.cycles
            }),
    {
        let (value, cycles) = self.operand(memory, Mode::Absx);
        self.adc(value);
        cycles
    }

    pub fn adc_absy(&mut self, memory: &Memory) -> (cycles: u32)
        ensures
            ({
                let t = adc_step(old(self)@, memory@, Mode::Absy);
                final(self)@ == t.s && cycles == t.cycles
            }),
    {
        let (value, cycles) = self.operand(memory, Mode::Absy);
        self.adc(value);
        cycles
    }

    pub fn adc_indx(&mut self, memory: &Memory) -> (cycles: u32)
        ensures
            ({
                let t = adc_step(old(self)@, memory@, Mode::Indx);
                final(self)@ == t.s && cycles == t.cycles
            }),
    {
        let (value, cycles) = self.operand(memory, Mode::Indx);
        self.adc(value);
        cycles
    }

    pub fn adc_indy(&mut self, memory: &Memory) -> (cycles: u32)
        ensures
            ({
                let t = adc_step(old(self)@, memory@, Mode::Indy);
                final(self)@ == t.s && cycles == t.cycles
            }),
    {
        let (value, cycles) = self.operand(memory, Mode::Indy);
        self.adc(value);
        cycles
    }

    pub fn sbc_im(&mut self, memory: &Memory) -> (cycles: u32)
        ensures
            ({
                let t = sbc_step(old(self)@, memory@, Mode::Im);
                final(self)@ == t.s && cycles == t.cycles
            }),
    {
        let (value, cycles) = self.operand(memory, Mode::Im);
        self.sbc(value);
        cycles
    }

    pub fn sbc_zp(&mut self, memory: &Memory) -> (cycles: u32)
        ensures
            ({
                let t = sbc_step(old(self)@, memory@, Mode::Zp);
                final(self)@ == t.s && cycles == t.cycles
            }),
    {
        let (value, cycles) = self.operand(memory, Mode::Zp);
        self.sbc(value);
        cycles
    }

    pub fn sbc_zpx(&mut self, memory: &Memory) -> (cycles: u32)
        ensures
            ({
                let t = sbc_step(old(self)@, memory@, Mode::Zpx);
                final(self)@ == t.s && cycles == t.cycles
            }),
    {
        let (value, cycles) = self.operand(memory, Mode::Zpx);
        self.sbc(value);
        cycles
    }

    pub fn sbc_abs(&mut self, memory: &Memory) -> (cycles: u32)
        ensures
            ({
                let t = sbc_step(old(self)@, memory@, Mode::Abs);
                final(self)@ == t.s && cycles == t.cycles
            }),
    {
        let (value, cycles) = self.operand(memory, Mode::Abs);
        self.sbc(value);
        cycles
    }

    pub fn sbc_absx(&mut self, memory: &Memory) -> (cycles: u32)
        ensures
            ({
                let t = sbc_step(old(self)@, memory@, Mode::Absx);
                final(self)@ == t.s && cycles == t.cycles
            }),
    {
        let (value, cycles) = self.operand(memory, Mode::Absx);
        self.sbc(value);
        cycles
    }

    pub fn sbc_absy(&mut self, memory: &Memory) -> (cycles: u32)
        ensures
            ({
                let t = sbc_step(old(self)@, memory@, Mode::Absy);
                final(self)@ == t.s && cycles == t.cycles
            }),
    {
        let (value, cycles) = self.operand(memory, Mode::Absy);
        self.sbc(value);
        cycles
    }

    pub fn sbc_indx(&mut self, memory: &Memory) -> (cycles: u32)
        ensures
            ({
                let t = sbc_step(old(self)@, memory@, Mode::Indx);
                final(self)@ == t.s && cycles == t.cycles
            }),
    {
        let (value, cycles) = self.operand(memory, Mode::Indx);
        self.sbc(value);
        cycles
    }

    pub fn sbc_indy(&mut self, memory: &Memory) -> (cycles: u32)
        ensures
            ({
                let t = sbc_step(old(self)@, memory@, Mode::Indy);
                final(self)@ == t.s && cycles == t.cycles
            }),
    {
        let (value, cycles) = self.operand(memory, Mode::Indy);
        self.sbc(value);
        cycles
    }

    pub fn cmp_im(&mut self, memory: &Memory) -> (cycles: u32)
        ensures
            ({
                let t = cp_step(old(self)@, memory@, Mode::Im, Reg::A);
                final(self)@ == t.s && cycles == t.cycles
            }),
    {
        let (value, cycles) = self.operand(memory, Mode::Im);
        self.cmpa2cmp(value);
        cycles
    }

    pub fn cmp_zp(&mut self, memory: &Memory) -> (cycles: u32)
        ensures
            ({
                let t = cp_step(old(self)@, memory@, Mode::Zp, Reg::A);
                final(self)@ == t.s && cycles == t.cycles
            }),
    {
        let (value, cycles) = self.operand(memory, Mode::Zp);
        self.cmpa2cmp(value);
        cycles
    }

    pub fn cmp_zpx(&mut self, memory: &Memory) -> (cycles: u32)
        ensures
            ({
                let t = cp_step(old(self)@, memory@, Mode::Zpx, Reg::A);
                final(self)@ == t.s && cycles == t.cycles
            }),
    {
        let (value, cycles) = self.operand(memory, Mode::Zpx);
        self.cmpa2cmp(value);
        cycles
    }

    pub fn cmp_abs(&mut self, memory: &Memory) -> (cycles: u32)
        ensures
            ({
                let t = cp_step(old(self)@, memory@, Mode::Abs, Reg::A);
                final(self)@ == t.s && cycles == t.cycles
            }),
    {
        let (value, cycles) = self.operand(memory, Mode::Abs);
        self.cmpa2cmp(value);
        cycles
    }

    pub fn cmp_absx(&mut self, memory: &Memory) -> (cycles: u32)
        ensures
            ({
                let t = cp_step(old(self)@, memory@, Mode::Absx, Reg::A);
                final(self)@ == t.s && cycles == t.cycles
            }),
    {
        let (value, cycles) = self.operand(memory, Mode::Absx);
        self.cmpa2cmp(value);
        cycles
    }

    pub fn cmp_absy(&mut self, memory: &Memory) -> (cycles: u32)
        ensures
            ({
                let t = cp_step(old(self)@, memory@, Mode::Absy, Reg::A);
                final(self)@ == t.s && cycles == t.cycles
            }),
    {
        let (value, cycles) = self.operand(memory, Mode::Absy);
        self.cmpa2cmp(value);
        cycles
    }

    pub fn cmp_indx(&mut self, memory: &Memory) -> (cycles: u32)
        ensures
            ({
                let t = cp_step(old(self)@, memory@, Mode::Indx, Reg::A);
                final(self)@ == t.s && cycles == t.cycles
            }),
    {
        let (value, cycles) = self.operand(memory, Mode::Indx);
        self.cmpa2cmp(value);
        cycles
    }

    pub fn cmp_indy(&mut self, memory: &Memory) -> (cycles: u32)
        ensures
            ({
                let t = cp_step(old(self)@, memory@, Mode::Indy, Reg::A);
                final(self)@ == t.s && cycles == t.cycles
            }),
    {
        let (value, cycles) = self.operand(memory, Mode::Indy);
        self.cmpa2cmp(value);
        cycles
    }

    pub fn cpx_im(&mut self, memory: &Memory) -> (cycles: u32)
        ensures
            ({
                let t = cp_step(old(self)@, memory@, Mode::Im, Reg::X);
                final(self)@ == t.s && cycles == t.cycles
            }),
    {
        let (value, cycles) = self.operand(memory, Mode::Im);
        self.cmpx2cmp(value);
        cycles
    }

    pub fn cpx_zp(&mut self, memory: &Memory) -> (cycles: u32)
        ensures
            ({
                let t = cp_step(old(self)@, memory@, Mode::Zp, Reg::X);
                final(self)@ == t.s && cycles == t.cycles
            }),
    {
        let (value, cycles) = self.operand(memory, Mode::Zp);
        self.cmpx2cmp(value);
        cycles
    }

    pub fn cpx_abs(&mut self, memory: &Memory) -> (cycles: u32)
        ensures
            ({
                let t = cp_step(old(self)@, memory@, Mode::Abs, Reg::X);
                final(self)@ == t.s && cycles == t.cycles
            }),
    {
        let (value, cycles) = self.operand(memory, Mode::Abs);
        self.cmpx2cmp(value);
        cycles
    }

    pub fn cpy_im(&mut self, memory: &Memory) -> (cycles: u32)
        ensures
            ({
                let t = cp_step(old(self)@, memory@, Mode::Im, Reg::Y);
                final(self)@ == t.s && cycles == t.cycles
            }),
    {
        let (value, cycles) = self.operand(memory, Mode::Im);
        self.cmpy2cmp(value);
        cycles
    }

    pub fn cpy_zp(&mut self, memory: &Memory) -> (cycles: u32)
        ensures
            ({
                let t = cp_step(old(self)@, memory@, Mode::Zp, Reg::Y);
                final(self)@ == t.s && cycles == t.cycles
            }),
    {
        let (value, cycles) = self.operand(memory, Mode::Zp);
        self.cmpy2cmp(value);
        cycles
    }

    pub fn cpy_abs(&mut self, memory: &Memory) -> (cycles: u32)
        ensures
            ({
                let t = cp_step(old(self)@, memory@, Mode::Abs, Reg::Y);
                final(self)@ == t.s && cycles == t.cycles
            }),
    {
        let (value, cycles) = self.operand(memory, Mode::Abs);
        self.cmpy2cmp(value);
        cycles
    }
}

} // verus!
