//! An emulator core for the Art32 instruction set: a 32-bit CPU with 16/32-bit
//! encodings, two privilege levels, vectored interrupts with shadow register banks, and
//! a memory unit with load-reserve/store-conditional over two RAM regions plus a
//! memory-mapped device bus.

use vstd::prelude::*;

pub mod bits;
pub mod cpu;
pub mod interface;
pub mod memory;
pub mod register;
pub mod system;

pub use cpu::{Cpu, ExceptionKind, FatalError, InterruptState};
pub use interface::{FloatOp, IoError, IoInterface, MemoryError, MemoryInterface, PrivilegeLevel};
pub use memory::Memory;
pub use register::{Flags, RegisterFile};
pub use system::{Art32, EnvAction, IoBus, Mmu};

verus! {

} // verus!
