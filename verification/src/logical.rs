//! The logical group: AND, EOR, ORA and the BIT test.

use vstd::prelude::*;

use crate::addressing::{read_operand, Mode};
use crate::cpu::{CpuState, Step, MOS6502};
use crate::memory::Memory;
use crate::status::{flag_set, with_nz, ProcessorStatus, FLAG_N, FLAG_V, FLAG_Z};

verus! {

/// Updates the zero and negative flags from the result byte `value`,
/// leaving every other flag unchanged.
pub fn on_logic_set_status(proc_status: &mut ProcessorStatus, value: u8)
    ensures
        final(proc_status)@ == with_nz(old(proc_status)@, value),
{
    if value == 0 {
        proc_status.set_zero();
    } else {
        proc_status.clear_zero();
    }
    if value & FLAG_N != 0 {
        proc_status.set_negative();
    } else {
        proc_status.clear_negative();
    }
}

/// The effect of AND through `mode`: A becomes `A & operand`; Z and N
/// reflect the new A.
pub open spec fn and_step(s: CpuState, m: Seq<u8>, mode: Mode) -> Step {
    let t = read_operand(s, m, mode);
    let value = s.a & t.value;
    Step {
        s: (CpuState { pc: t.pc, a: value, p: with_nz(s.p, value), ..s }),
        m: m,
        cycles: t.cycles,
    }
}

/// The effect of EOR through `mode`: A becomes `A ^ operand`; Z and N
/// reflect the new A.
pub open spec fn eor_step(s: CpuState, m: Seq<u8>, mode: Mode) -> Step {
    let t = read_operand(s, m, mode);
    let value = s.a ^ t.value;
    Step {
        s: (CpuState { pc: t.pc, a: value, p: with_nz(s.p, value), ..s }),
        m: m,
        cycles: t.cycles,
    }
}

/// The effect of ORA through `mode`: A becomes `A | operand`; Z and N
/// reflect the new A.
pub open spec fn ora_step(s: CpuState, m: Seq<u8>, mode: Mode) -> Step {
    let t = read_operand(s, m, mode);
    let value = s.a | t.value;
    Step {
        s: (CpuState { pc: t.pc, a: value, p: with_nz(s.p, value), ..s }),
        m: m,
        cycles: t.cycles,
    }
}

/// The effect of BIT through `mode`: Z is set exactly when `A & operand`
/// is zero, N copies bit 7 of the operand, V copies bit 6 of the operand.
/// A is not modified.
pub open spec fn bit_step(s: CpuState, m: Seq<u8>, mode: Mode) -> Step {
    let t = read_operand(s, m, mode);
    let p = flag_set(
        flag_set(flag_set(s.p, FLAG_Z, s.a & t.value == 0), FLAG_N, t.value & FLAG_N != 0),
        FLAG_V,
        t.value & FLAG_V != 0,
    );
    Step { s: (CpuState { pc: t.pc, p: p, ..s }), m: m, cycles: t.cycles }
}

impl MOS6502 {
    pub fn and_im(&mut self, memory: &Memory) -> (cycles: u32)
        ensures
            ({
                let t = and_step(old(self)@, memory@, Mode::Im);
                final(self)@ == t.s && cycles == t.cycles
            }),
    {
        let (value, cycles) = self.operand(memory, Mode::Im);
        self.reg_a = self.reg_a & value;
        on_logic_set_status(&mut self.proc_status, self.reg_a);
        cycles
    }

    pub fn and_zp(&mut self, memory: &Memory) -> (cycles: u32)
        ensures
            ({
                let t = and_step(old(self)@, memory@, Mode::Zp);
                final(self)@ == t.s && cycles == t.cycles
            }),
    {
        let (value, cycles) = self.operand(memory, Mode::Zp);
        self.reg_a = self.reg_a & value;
        on_logic_set_status(&mut self.proc_status, self.reg_a);
        cycles
    }

    pub fn and_zpx(&mut self, memory: &Memory) -> (cycles: u32)
        ensures
            ({
                let t = and_step(old(self)@, memory@, Mode::Zpx);
                final(self)@ == t.s && cycles == t.cycles
            }),
    {
        let (value, cycles) = self.operand(memory, Mode::Zpx);
        self.reg_a = self.reg_a & value;
        on_logic_set_status(&mut self.proc_status, self.reg_a);
        cycles
    }

    pub fn and_abs(&mut self, memory: &Memory) -> (cycles: u32)
        ensures
            ({
                let t = and_step(old(self)@, memory@, Mode::Abs);
                final(self)@ == t.s && cycles == t.cycles
            }),
    {
        let (value, cycles) = self.operand(memory, Mode::Abs);
        self.reg_a = self.reg_a & value;
        on_logic_set_status(&mut self.proc_status, self.reg_a);
        cycles
    }

    pub fn and_absx(&mut self, memory: &Memory) -> (cycles: u32)
        ensures
            ({
                let t = and_step(old(self)@, memory@, Mode::Absx);
                final(self)@ == t.s && cycles == t.cycles
            }),
    {
        let (value, cycles) = self.operand(memory, Mode::Absx);
        self.reg_a = self.reg_a & value;
        on_logic_set_status(&mut self.proc_status, self.reg_a);
        cycles
    }

    pub fn and_absy(&mut self, memory: &Memory) -> (cycles: u32)
        ensures
            ({
                let t = and_step(old(self)@, memory@, Mode::Absy);
                final(self)@ == t.s && cycles == t.cycles
            }),
    {
        let (value, cycles) = self.operand(memory, Mode::Absy);
        self.reg_a = self.reg_a & value;
        on_logic_set_status(&mut self.proc_status, self.reg_a);
        cycles
    }

    pub fn and_indx(&mut self, memory: &Memory) -> (cycles: u32)
        ensures
            ({
                let t = and_step(old(self)@, memory@, Mode::Indx);
                final(self)@ == t.s && cycles == t.cycles
            }),
    {
        let (value, cycles) = self.operand(memory, Mode::Indx);
        self.reg_a = self.reg_a & value;
        on_logic_set_status(&mut self.proc_status, self.reg_a);
        cycles
    }

    pub fn and_indy(&mut self, memory: &Memory) -> (cycles: u32)
        ensures
            ({
                let t = and_step(old(self)@, memory@, Mode::Indy);
                final(self)@ == t.s && cycles == t.cycles
            }),
    {
        let (value, cycles) = self.operand(memory, Mode::Indy);
        self.reg_a = self.reg_a & value;
        on_logic_set_status(&mut self.proc_status, self.reg_a);
        cycles
    }

    pub fn eor_im(&mut self, memory: &Memory) -> (cycles: u32)
        ensures
            ({
                let t = eor_step(old(self)@, memory@, Mode::Im);
                final(self)@ == t.s && cycles == t.cycles
            }),
    {
        let (value, cycles) = self.operand(memory, Mode::Im);
        self.reg_a = self.reg_a ^ value;
        on_logic_set_status(&mut self.proc_status, self.reg_a);
        cycles
    }

    pub fn eor_zp(&mut self, memory: &Memory) -> (cycles: u32)
        ensures
            ({
                let t = eor_step(old(self)@, memory@, Mode::Zp);
                final(self)@ == t.s && cycles == t.cycles
            }),
    {
        let (value, cycles) = self.operand(memory, Mode::Zp);
        self.reg_a = self.reg_a ^ value;
        on_logic_set_status(&mut self.proc_status, self.reg_a);
        cycles
    }

    pub fn eor_zpx(&mut self, memory: &Memory) -> (cycles: u32)
        ensures
            ({
                let t = eor_step(old(self)@, memory@, Mode::Zpx);
                final(self)@ == t.s && cycles == t.cycles
            }),
    {
        let (value, cycles) = self.operand(memory, Mode::Zpx);
        self.reg_a = self.reg_a ^ value;
        on_logic_set_status(&mut self.proc_status, self.reg_a);
        cycles
    }

    pub fn eor_abs(&mut self, memory: &Memory) -> (cycles: u32)
        ensures
            ({
                let t = eor_step(old(self)@, memory@, Mode::Abs);
                final(self)@ == t.s && cycles == t.cycles
            }),
    {
        let (value, cycles) = self.operand(memory, Mode::Abs);
        self.reg_a = self.reg_a ^ value;
        on_logic_set_status(&mut self.proc_status, self.reg_a);
        cycles
    }

    pub fn eor_absx(&mut self, memory: &Memory) -> (cycles: u32)
        ensures
            ({
                let t = eor_step(old(self)@, memory@, Mode::Absx);
                final(self)@ == t.s && cycles == t.cycles
            }),
    {
        let (value, cycles) = self.operand(memory, Mode::Absx);
        self.reg_a = self.reg_a ^ value;
        on_logic_set_status(&mut self.proc_status, self.reg_a);
        cycles
    }

    pub fn eor_absy(&mut self, memory: &Memory) -> (cycles: u32)
        ensures
            ({
                let t = eor_step(old(self)@, memory@, Mode::Absy);
                final(self)@ == t.s && cycles == t.cycles
            }),
    {
        let (value, cycles) = self.operand(memory, Mode::Absy);
        self.reg_a = self.reg_a ^ value;
        on_logic_set_status(&mut self.proc_status, self.reg_a);
        cycles
    }

    pub fn eor_indx(&mut self, memory: &Memory) -> (cycles: u32)
        ensures
            ({
                let t = eor_step(old(self)@, memory@, Mode::Indx);
                final(self)@ == t.s && cycles == t.cycles
            }),
    {
        let (value, cycles) = self.operand(memory, Mode::Indx);
        self.reg_a = self.reg_a ^ value;
        on_logic_set_status(&mut self.proc_status, self.reg_a);
        cycles
    }

    pub fn eor_indy(&mut self, memory: &Memory) -> (cycles: u32)
        ensures
            ({
                let t = eor_step(old(self)@, memory@, Mode::Indy);
                final(self)@ == t.s && cycles == t.cycles
            }),
    {
        let (value, cycles) = self.operand(memory, Mode::Indy);
        self.reg_a = self.reg_a ^ value;
        on_logic_set_status(&mut self.proc_status, self.reg_a);
        cycles
    }

    pub fn ora_im(&mut self, memory: &Memory) -> (cycles: u32)
        ensures
            ({
                let t = ora_step(old(self)@, memory@, Mode::Im);
                final(self)@ == t.s && cycles == t.cycles
            }),
    {
        let (value, cycles) = self.operand(memory, Mode::Im);
        self.reg_a = self.reg_a | value;
        on_logic_set_status(&mut self.proc_status, self.reg_a);
        cycles
    }

    pub fn ora_zp(&mut self, memory: &Memory) -> (cycles: u32)
        ensures
            ({
                let t = ora_step(old(self)@, memory@, Mode::Zp);
                final(self)@ == t.s && cycles == t.cycles
            }),
    {
        let (value, cycles) = self.operand(memory, Mode::Zp);
        self.reg_a = self.reg_a | value;
        on_logic_set_status(&mut self.proc_status, self.reg_a);
        cycles
    }

    pub fn ora_zpx(&mut self, memory: &Memory) -> (cycles: u32)
        ensures
            ({
                let t = ora_step(old(self)@, memory@, Mode::Zpx);
                final(self)@ == t.s && cycles == t.cycles
            }),
    {
        let (value, cycles) = self.operand(memory, Mode::Zpx);
        self.reg_a = self.reg_a | value;
        on_logic_set_status(&mut self.proc_status, self.reg_a);
        cycles
    }

    pub fn ora_abs(&mut self, memory: &Memory) -> (cycles: u32)
        ensures
            ({
                let t = ora_step(old(self)@, memory@, Mode::Abs);
                final(self)@ == t.s && cycles == t.cycles
            }),
    {
        let (value, cycles) = self.operand(memory, Mode::Abs);
        self.reg_a = self.reg_a | value;
        on_logic_set_status(&mut self.proc_status, self.reg_a);
        cycles
    }

    pub fn ora_absx(&mut self, memory: &Memory) -> (cycles: u32)
        ensures
            ({
                let t = ora_step(old(self)@, memory@, Mode::Absx);
                final(self)@ == t.s && cycles == t.cycles
            }),
    {
        let (value, cycles) = self.operand(memory, Mode::Absx);
        self.reg_a = self.reg_a | value;
        on_logic_set_status(&mut self.proc_status, self.reg_a);
        cycles
    }

    pub fn ora_absy(&mut self, memory: &Memory) -> (cycles: u32)
        ensures
            ({
                let t = ora_step(old(self)@, memory@, Mode::Absy);
                final(self)@ == t.s && cycles == t.cycles
            }),
    {
        let (value, cycles) = self.operand(memory, Mode::Absy);
        self.reg_a = self.reg_a | value;
        on_logic_set_status(&mut self.proc_status, self.reg_a);
        cycles
    }

    pub fn ora_indx(&mut self, memory: &Memory) -> (cycles: u32)
        ensures
            ({
                let t = ora_step(old(self)@, memory@, Mode::Indx);
                final(self)@ == t.s && cycles == t.cycles
            }),
    {
        let (value, cycles) = self.operand(memory, Mode::Indx);
        self.reg_a = self.reg_a | value;
        on_logic_set_status(&mut self.proc_status, self.reg_a);
        cycles
    }

    pub fn ora_indy(&mut self, memory: &Memory) -> (cycles: u32)
        ensures
            ({
                let t = ora_step(old(self)@, memory@, Mode::Indy);
                final(self)@ == t.s && cycles == t.cycles
            }),
    {
        let (value, cycles) = self.operand(memory, Mode::Indy);
        self.reg_a = self.reg_a | value;
        on_logic_set_status(&mut self.proc_status, self.reg_a);
        cycles
    }

    pub fn bit_zp(&mut self, memory: &Memory) -> (cycles: u32)
        ensures
            ({
                let t = bit_step(old(self)@, memory@, Mode::Zp);
                final(self)@ == t.s && cycles == t.cycles
            }),
    {
        let (value, cycles) = self.operand(memory, Mode::Zp);
        if self.reg_a & value == 0 {
            self.proc_status.set_zero();
        } else {
            self.proc_status.clear_zero();
        }
        if value & FLAG_N != 0 {
            self.proc_status.set_negative();
        } else {
            self.proc_status.clear_negative();
        }
        if value & FLAG_V != 0 {
            self.proc_status.set_overflow();
        } else {
            self.proc_status.clear_overflow();
        }
        cycles
    }

    pub fn bit_abs(&mut self, memory: &Memory) -> (cycles: u32)
        ensures
            ({
                let t = bit_step(old(self)@, memory@, Mode::Abs);
                final(self)@ == t.s && cycles == t.cycles
            }),
    {
        let (value, cycles) = self.operand(memory, Mode::Abs);
        if self.reg_a & value == 0 {
            self.proc_status.set_zero();
        } else {
            self.proc_status.clear_zero();
        }
        if value & FLAG_N != 0 {
            self.proc_status.set_negative();
        } else {
            self.proc_status.clear_negative();
        }
        if value & FLAG_V != 0 {
            self.proc_status.set_overflow();
        } else {
            self.proc_status.clear_overflow();
        }
        cycles
    }
}

} // verus!
