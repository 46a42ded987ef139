//! The store group: STA, STX and STY.  Stores change one memory byte and
//! leave every register and every flag alone.

use vstd::prelude::*;

use crate::addressing::{store_target, Mode};
use crate::cpu::{reg_get, CpuState, Reg, Step, MOS6502};
use crate::memory::Memory;

verus! {

/// The effect of a store of register `r` through `mode`: the addressed
/// byte becomes the register value, the flags stay as they were.
pub open spec fn st_step(s: CpuState, m: Seq<u8>, mode: Mode, r: Reg) -> Step {
    let t = store_target(s, m, mode);
    Step {
        s: (CpuState { pc: t.pc, ..s }),
        m: m.update(t.addr as int, reg_get(s, r)),
        cycles: t.cycles,
    }
}

impl MOS6502 {
    /// Reads the register selected by `r`.
    pub(crate) fn reg(&self, r: Reg) -> (value: u8)
        ensures
            value == reg_get(self@, r),
    {
        match r {
            Reg::A => self.reg_a,
            Reg::X => self.reg_x,
            Reg::Y => self.reg_y,
        }
    }

    pub fn sta_zp(&mut self, memory: &mut Memory) -> (cycles: u32)
        ensures
            ({
                let t = st_step(old(self)@, old(memory)@, Mode::Zp, Reg::A);
                final(self)@ == t.s && final(memory)@ == t.m && cycles == t.cycles
            }),
    {
        let (addr, cycles) = self.target(memory, Mode::Zp);
        memory.write(addr, self.reg(Reg::A));
        cycles
    }

    pub fn sta_zpx(&mut self, memory: &mut Memory) -> (cycles: u32)
        ensures
            ({
                let t = st_step(old(self)@, old(memory)@, Mode::Zpx, Reg::A);
                final(self)@ == t.s && final(memory)@ == t.m && cycles == t.cycles
            }),
    {
        let (addr, cycles) = self.target(memory, Mode::Zpx);
        memory.write(addr, self.reg(Reg::A));
        cycles
    }

    pub fn sta_abs(&mut self, memory: &mut Memory) -> (cycles: u32)
        ensures
            ({
                let t = st_step(old(self)@, old(memory)@, Mode::Abs, Reg::A);
                final(self)@ == t.s && final(memory)@ == t.m && cycles == t.cycles
            }),
    {
        let (addr, cycles) = self.target(memory, Mode::Abs);
        memory.write(addr, self.reg(Reg::A));
        cycles
    }

    pub fn sta_absx(&mut self, memory: &mut Memory) -> (cycles: u32)
        ensures
            ({
                let t = st_step(old(self)@, old(memory)@, Mode::Absx, Reg::A);
                final(self)@ == t.s && final(memory)@ == t.m && cycles == t.cycles
            }),
    {
        let (addr, cycles) = self.target(memory, Mode::Absx);
        memory.write(addr, self.reg(Reg::A));
        cycles
    }

    pub fn sta_absy(&mut self, memory: &mut Memory) -> (cycles: u32)
        ensures
            ({
                let t = st_step(old(self)@, old(memory)@, Mode::Absy, Reg::A);
                final(self)@ == t.s && final(memory)@ == t.m && cycles == t.cycles
            }),
    {
        let (addr, cycles) = self.target(memory, Mode::Absy);
        memory.write(addr, self.reg(Reg::A));
        cycles
    }

    pub fn sta_indx(&mut self, memory: &mut Memory) -> (cycles: u32)
        ensures
            ({
                let t = st_step(old(self)@, old(memory)@, Mode::Indx, Reg::A);
                final(self)@ == t.s && final(memory)@ == t.m && cycles == t.cycles
            }),
    {
        let (addr, cycles) = self.target(memory, Mode::Indx);
        memory.write(addr, self.reg(Reg::A));
        cycles
    }

    pub fn sta_indy(&mut self, memory: &mut Memory) -> (cycles: u32)
        ensures
            ({
                let t = st_step(old(self)@, old(memory)@, Mode::Indy, Reg::A);
                final(self)@ == t.s && final(memory)@ == t.m && cycles == t.cycles
            }),
    {
        let (addr, cycles) = self.target(memory, Mode::Indy);
        memory.write(addr, self.reg(Reg::A));
        cycles
    }

    pub fn stx_zp(&mut self, memory: &mut Memory) -> (cycles: u32)
        ensures
            ({
                let t = st_step(old(self)@, old(memory)@, Mode::Zp, Reg::X);
                final(self)@ == t.s && final(memory)@ == t.m && cycles == t.cycles
            }),
    {
        let (addr, cycles) = self.target(memory, Mode::Zp);
        memory.write(addr, self.reg(Reg::X));
        cycles
    }

    pub fn stx_zpy(&mut self, memory: &mut Memory) -> (cycles: u32)
        ensures
            ({
                let t = st_step(old(self)@, old(memory)@, Mode::Zpy, Reg::X);
                final(self)@ == t.s && final(memory)@ == t.m && cycles == t.cycles
            }),
    {
        let (addr, cycles) = self.target(memory, Mode::Zpy);
        memory.write(addr, self.reg(Reg::X));
        cycles
    }

    pub fn stx_abs(&mut self, memory: &mut Memory) -> (cycles: u32)
        ensures
            ({
                let t = st_step(old(self)@, old(memory)@, Mode::Abs, Reg::X);
                final(self)@ == t.s && final(memory)@ == t.m && cycles == t.cycles
            }),
    {
        let (addr, cycles) = self.target(memory, Mode::Abs);
        memory.write(addr, self.reg(Reg::X));
        cycles
    }

    pub fn sty_zp(&mut self, memory: &mut Memory) -> (cycles: u32)
        ensures
            ({
                let t = st_step(old(self)@, old(memory)@, Mode::Zp, Reg::Y);
                final(self)@ == t.s && final(memory)@ == t.m && cycles == t.cycles
            }),
    {
        let (addr, cycles) = self.target(memory, Mode::Zp);
        memory.write(addr, self.reg(Reg::Y));
        cycles
    }

    pub fn sty_zpx(&mut self, memory: &mut Memory) -> (cycles: u32)
        ensures
            ({
                let t = st_step(old(self)@, old(memory)@, Mode::Zpx, Reg::Y);
                final(self)@ == t.s && final(memory)@ == t.m && cycles == t.cycles
            }),
    {
        let (addr, cycles) = self.target(memory, Mode::Zpx);
        memory.write(addr, self.reg(Reg::Y));
        cycles
    }

    pub fn sty_abs(&mut self, memory: &mut Memory) -> (cycles: u32)
        ensures
            ({
                let t = st_step(old(self)@, old(memory)@, Mode::Abs, Reg::Y);
                final(self)@ == t.s && final(memory)@ == t.m && cycles == t.cycles
            }),
    {
        let (addr, cycles) = self.target(memory, Mode::Abs);
        memory.write(addr, self.reg(Reg::Y));
        cycles
    }
}

} // verus!
