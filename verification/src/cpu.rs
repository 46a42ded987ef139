//! The architectural register file of the MOS 6502.

use vstd::prelude::*;

use crate::memory::Memory;
use crate::status::ProcessorStatus;

verus! {

/// The architectural state of the processor, as one specification value:
/// the program counter, the stack pointer, the three general registers and
/// the packed status byte.
pub ghost struct CpuState {
    pub pc: u16,
    pub sp: u8,
    pub a: u8,
    pub x: u8,
    pub y: u8,
    pub p: u8,
}

/// Selects one of the three general registers.
#[derive(Copy, Clone)]
pub enum Reg {
    A,
    X,
    Y,
}

/// The value of the selected register.
pub open spec fn reg_get(s: CpuState, r: Reg) -> u8 {
    match r {
        Reg::A => s.a,
        Reg::X => s.x,
        Reg::Y => s.y,
    }
}

/// The state with the selected register replaced by `v`.
pub open spec fn reg_with(s: CpuState, r: Reg, v: u8) -> CpuState {
    match r {
        Reg::A => CpuState { a: v, ..s },
        Reg::X => CpuState { x: v, ..s },
        Reg::Y => CpuState { y: v, ..s },
    }
}

/// The state a reset-equivalent constructor seeds: the program counter at
/// the reset vector, the stack pointer at the top of the stack page, the
/// general registers and every flag clear.
pub open spec fn reset_state() -> CpuState {
    CpuState { pc: 0xFFFC, sp: 0xFF, a: 0, x: 0, y: 0, p: 0 }
}

/// The MOS 6502 processor: program counter, stack pointer, the general
/// registers A, X and Y, and the processor status register.
pub struct MOS6502 {
    pub reg_pc: u16,
    pub reg_sp: u8,
    pub reg_a: u8,
    pub reg_x: u8,
    pub reg_y: u8,
    pub proc_status: ProcessorStatus,
}

/// The full effect of one instruction: the state it leaves, the memory it
/// leaves, and its non-fetch cycle count.
pub ghost struct Step {
    pub s: CpuState,
    pub m: Seq<u8>,
    pub cycles: u32,
}

impl View for MOS6502 {
    type V = CpuState;

    open spec fn view(&self) -> CpuState {
        CpuState {
            pc: self.reg_pc,
            sp: self.reg_sp,
            a: self.reg_a,
            x: self.reg_x,
            y: self.reg_y,
            p: self.proc_status@,
        }
    }
}

impl MOS6502 {
    /// A freshly reset processor.
    pub fn new() -> (r: Self)
        ensures
            r@ == reset_state(),
    {
        MOS6502 {
            reg_pc: 0xFFFC,
            reg_sp: 0xFF,
            reg_a: 0,
            reg_x: 0,
            reg_y: 0,
            proc_status: ProcessorStatus::new(),
        }
    }

    /// Fetches the byte the program counter points at and post-increments
    /// the program counter, wrapping modulo 2^16.
    pub fn fetch(&mut self, memory: &Memory) -> (r: u8)
        ensures
            r == memory@[old(self)@.pc as int],
            final(self)@ == (CpuState { pc: old(self)@.pc.wrapping_add(1), ..old(self)@ }),
    {
        let res = self.read(self.reg_pc, memory);
        self.reg_pc = self.reg_pc.wrapping_add(1);
        res
    }

    /// Reads the byte at `address`.
    pub fn read(&self, address: u16, memory: &Memory) -> (r: u8)
        ensures
            r == memory@[address as int],
    {
        memory.read(address)
    }

    /// The accumulator.
    pub fn a(&self) -> (r: u8)
        ensures
            r == self@.a,
    {
        self.reg_a
    }

    /// The X index register.
    pub fn x(&self) -> (r: u8)
        ensures
            r == self@.x,
    {
        self.reg_x
    }

    /// The Y index register.
    pub fn y(&self) -> (r: u8)
        ensures
            r == self@.y,
    {
        self.reg_y
    }

    /// The program counter.
    pub fn pc(&self) -> (r: u16)
        ensures
            r == self@.pc,
    {
        self.reg_pc
    }

    /// The stack pointer.
    pub fn sp(&self) -> (r: u8)
        ensures
            r == self@.sp,
    {
        self.reg_sp
    }

    /// A copy of the processor status register.
    pub fn status(&self) -> (r: ProcessorStatus)
        ensures
            r@ == self@.p,
    {
        self.proc_status
    }
}

} // verus!
