//! A verified model of the MOS 6502 microprocessor core.
//!
//! The crate models the architectural register file, the packed processor
//! status register, a flat 64 KiB memory, the nine addressing modes, and the
//! load/store/transfer/stack/logical/arithmetic instruction groups.  Every
//! instruction is specified as a pure state transition over the register
//! file and the memory view, and the decode-and-execute loop is proved to
//! refine a specification-level interpreter.

pub mod addressing;
pub mod arithmetic;
pub mod cpu;
pub mod dispatch;
pub mod laws;
pub mod logical;
pub mod load;
pub mod memory;
pub mod stack;
pub mod status;
pub mod store;
pub mod transfer;

pub use cpu::MOS6502;
pub use dispatch::CPU;
pub use memory::Memory;
pub use status::ProcessorStatus;
