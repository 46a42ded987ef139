//! The load group: LDA, LDX and LDY.

use vstd::prelude::*;

use crate::addressing::{read_operand, Mode};
use crate::cpu::{reg_with, CpuState, Reg, Step, MOS6502};
use crate::memory::Memory;
use crate::status::{with_nz, ProcessorStatus, FLAG_N};

verus! {

/// Updates the zero and negative flags from the result byte `value`,
/// leaving every other flag unchanged.
pub fn on_ld_set_status(proc_status: &mut ProcessorStatus, value: u8)
    ensures
        final(proc_status)@ == with_nz(old(proc_status)@, value),
{
    if value == 0 {
        proc_status.set_zero();
    } else {
        proc_status.clear_zero();
    }
    if value & FLAG_N != 0 {
        proc_status.set_negative();
    } else {
        proc_status.clear_negative();
    }
}

/// The effect of a load through `mode` into register `r`: the operand
/// value lands in the register, Z and N reflect it, and memory is
/// untouched.
pub open spec fn ld_step(s: CpuState, m: Seq<u8>, mode: Mode, r: Reg) -> Step {
    let t = read_operand(s, m, mode);
    Step {
        s: (CpuState { pc: t.pc, p: with_nz(s.p, t.value), ..reg_with(s, r, t.value) }),
        m: m,
        cycles: t.cycles,
    }
}

impl MOS6502 {
    /// Stores `value` into register `r` and updates Z and N from it.
    pub(crate) fn load_reg(&mut self, r: Reg, value: u8)
        ensures
            final(self)@ == (CpuState {
                p: with_nz(old(self)@.p, value),
                ..reg_with(old(self)@, r, value)
            }),
    {
        match r {
            Reg::A => {
                self.reg_a = value;
            },
            Reg::X => {
                self.reg_x = value;
            },
            Reg::Y => {
                self.reg_y = value;
            },
        }
        on_ld_set_status(&mut self.proc_status, value);
    }

    pub fn lda_im(&mut self, memory: &Memory) -> (cycles: u32)
        ensures
            ({
                let t = ld_step(old(self)@, memory@, Mode::Im, Reg::A);
                final(self)@ == t.s && cycles == t.cycles
            }),
    {
        let (value, cycles) = self.operand(memory, Mode::Im);
        self.load_reg(Reg::A, value);
        cycles
    }

    pub fn lda_zp(&mut self, memory: &Memory) -> (cycles: u32)
        ensures
            ({
                let t = ld_step(old(self)@, memory@, Mode::Zp, Reg::A);
                final(self)@ == t.s && cycles == t.cycles
            }),
    {
        let (value, cycles) = self.operand(memory, Mode::Zp);
        self.load_reg(Reg::A, value);
        cycles
    }

    pub fn lda_zpx(&mut self, memory: &Memory) -> (cycles: u32)
        ensures
            ({
                let t = ld_step(old(self)@, memory@, Mode::Zpx, Reg::A);
                final(self)@ == t.s && cycles == t.cycles
            }),
    {
        let (value, cycles) = self.operand(memory, Mode::Zpx);
        self.load_reg(Reg::A, value);
        cycles
    }

    pub fn lda_abs(&mut self, memory: &Memory) -> (cycles: u32)
        ensures
            ({
                let t = ld_step(old(self)@, memory@, Mode::Abs, Reg::A);
                final(self)@ == t.s && cycles == t.cycles
            }),
    {
        let (value, cycles) = self.operand(memory, Mode::Abs);
        self.load_reg(Reg::A, value);
        cycles
    }

    pub fn lda_absx(&mut self, memory: &Memory) -> (cycles: u32)
        ensures
            ({
                let t = ld_step(old(self)@, memory@, Mode::Absx, Reg::A);
                final(self)@ == t.s && cycles == t.cycles
            }),
    {
        let (value, cycles) = self.operand(memory, Mode::Absx);
        self.load_reg(Reg::A, value);
        cycles
    }

    pub fn lda_absy(&mut self, memory: &Memory) -> (cycles: u32)
        ensures
            ({
                let t = ld_step(old(self)@, memory@, Mode::Absy, Reg::A);
                final(self)@ == t.s && cycles == t.cycles
            }),
    {
        let (value, cycles) = self.operand(memory, Mode::Absy);
        self.load_reg(Reg::A, value);
        cycles
    }

    pub fn lda_indx(&mut self, memory: &Memory) -> (cycles: u32)
        ensures
            ({
                let t = ld_step(old(self)@, memory@, Mode::Indx, Reg::A);
                final(self)@ == t.s && cycles == t.cycles
            }),
    {
        let (value, cycles) = self.operand(memory, Mode::Indx);
        self.load_reg(Reg::A, value);
        cycles
    }

    pub fn lda_indy(&mut self, memory: &Memory) -> (cycles: u32)
        ensures
            ({
                let t = ld_step(old(self)@, memory@, Mode::Indy, Reg::A);
                final(self)@ == t.s && cycles == t.cycles
            }),
    {
        let (value, cycles) = self.operand(memory, Mode::Indy);
        self.load_reg(Reg::A, value);
        cycles
    }

    pub fn ldx_im(&mut self, memory: &Memory) -> (cycles: u32)
        ensures
            ({
                let t = ld_step(old(self)@, memory@, Mode::Im, Reg::X);
                final(self)@ == t.s && cycles == t.cycles
            }),
    {
        let (value, cycles) = self.operand(memory, Mode::Im);
        self.load_reg(Reg::X, value);
        cycles
    }

    pub fn ldx_zp(&mut self, memory: &Memory) -> (cycles: u32)
        ensures
            ({
                let t = ld_step(old(self)@, memory@, Mode::Zp, Reg::X);
                final(self)@ == t.s && cycles == t.cycles
            }),
    {
        let (value, cycles) = self.operand(memory, Mode::Zp);
        self.load_reg(Reg::X, value);
        cycles
    }

    pub fn ldx_zpy(&mut self, memory: &Memory) -> (cycles: u32)
        ensures
            ({
                let t = ld_step(old(self)@, memory@, Mode::Zpy, Reg::X);
                final(self)@ == t.s && cycles == t.cycles
            }),
    {
        let (value, cycles) = self.operand(memory, Mode::Zpy);
        self.load_reg(Reg::X, value);
        cycles
    }

    pub fn ldx_abs(&mut self, memory: &Memory) -> (cycles: u32)
        ensures
            ({
                let t = ld_step(old(self)@, memory@, Mode::Abs, Reg::X);
                final(self)@ == t.s && cycles == t.cycles
            }),
    {
        let (value, cycles) = self.operand(memory, Mode::Abs);
        self.load_reg(Reg::X, value);
        cycles
    }

    pub fn ldx_absy(&mut self, memory: &Memory) -> (cycles: u32)
        ensures
            ({
                let t = ld_step(old(self)@, memory@, Mode::Absy, Reg::X);
                final(self)@ == t.s && cycles == t.cycles
            }),
    {
        let (value, cycles) = self.operand(memory, Mode::Absy);
        self.load_reg(Reg::X, value);
        cycles
    }

    pub fn ldy_im(&mut self, memory: &Memory) -> (cycles: u32)
        ensures
            ({
                let t = ld_step(old(self)@, memory@, Mode::Im, Reg::Y);
                final(self)@ == t.s && cycles == t.cycles
            }),
    {
        let (value, cycles) = self.operand(memory, Mode::Im);
        self.load_reg(Reg::Y, value);
        cycles
    }

    pub fn ldy_zp(&mut self, memory: &Memory) -> (cycles: u32)
        ensures
            ({
                let t = ld_step(old(self)@, memory@, Mode::Zp, Reg::Y);
                final(self)@ == t.s && cycles == t.cycles
            }),
    {
        let (value, cycles) = self.operand(memory, Mode::Zp);
        self.load_reg(Reg::Y, value);
        cycles
    }

    pub fn ldy_zpx(&mut self, memory: &Memory) -> (cycles: u32)
        ensures
            ({
                let t = ld_step(old(self)@, memory@, Mode::Zpx, Reg::Y);
                final(self)@ == t.s && cycles == t.cycles
            }),
    {
        let (value, cycles) = self.operand(memory, Mode::Zpx);
        self.load_reg(Reg::Y, value);
        cycles
    }

    pub fn ldy_abs(&mut self, memory: &Memory) -> (cycles: u32)
        ensures
            ({
                let t = ld_step(old(self)@, memory@, Mode::Abs, Reg::Y);
                final(self)@ == t.s && cycles == t.cycles
            }),
    {
        let (value, cycles) = self.operand(memory, Mode::Abs);
        self.load_reg(Reg::Y, value);
        cycles
    }

    pub fn ldy_absx(&mut self, memory: &Memory) -> (cycles: u32)
        ensures
            ({
                let t = ld_step(old(self)@, memory@, Mode::Absx, Reg::Y);
                final(self)@ == t.s && cycles == t.cycles
            }),
    {
        let (value, cycles) = self.operand(memory, Mode::Absx);
        self.load_reg(Reg::Y, value);
        cycles
    }
}

} // verus!
