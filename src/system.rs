//! The machine around the CPU: the memory unit over kernel and system RAM with its
//! load-reserve slot, the device bus, and the system that steps them together.

use vstd::prelude::*;
use std::collections::VecDeque;

use crate::cpu::{
    accepts_all, is_config_address, read_io_spec, step_post, write_io_spec, Cpu, CpuView, FatalError,
};
use crate::interface::{FloatOp, IoError, IoInterface, MemoryError, MemoryInterface, PrivilegeLevel};
use crate::memory::{le_16, le_32, store_le, Memory};

verus! {

/// Size of kernel RAM in bytes (32 KiB).
pub const KERNEL_RAM_SIZE: u32 = 0x0000_8000;
/// First address of kernel RAM, reachable at System privilege only.
pub const KERNEL_RAM_START: u32 = 0x1000_0000;
/// Last address of kernel RAM.
pub const KERNEL_RAM_END: u32 = 0x1000_7FFF;
/// Size of system RAM in bytes (1 MiB).
pub const SYSTEM_RAM_SIZE: u32 = 0x0010_0000;
/// First address of system RAM, reachable at any privilege.
pub const SYSTEM_RAM_START: u32 = 0x2000_0000;
/// Last address of system RAM.
pub const SYSTEM_RAM_END: u32 = 0x200F_FFFF;

/// `addr` rounded down to a multiple of 4.
pub open spec fn word_align(addr: u32) -> u32 {
    (addr - addr % 4) as u32
}

/// Whether an access of `size` bytes at `addr` is naturally aligned.
pub open spec fn aligned(addr: u32, size: nat) -> bool {
    size == 1 || (addr as int) % (size as int) == 0
}

/// Whether `addr` lies in kernel RAM.
pub open spec fn in_kernel_ram(addr: u32) -> bool {
    KERNEL_RAM_START <= addr <= KERNEL_RAM_END
}

/// Whether `addr` lies in system RAM.
pub open spec fn in_system_ram(addr: u32) -> bool {
    SYSTEM_RAM_START <= addr <= SYSTEM_RAM_END
}

/// The value of `size` bytes at offset `off` of region content `m`, rounded down to the
/// access size as the region does.
pub open spec fn region_read(m: Seq<u8>, off: int, size: nat) -> u32 {
    if size == 4 {
        le_32(m, (off / 4) * 4)
    } else if size == 2 {
        le_16(m, (off / 2) * 2) as u32
    } else {
        m[off] as u32
    }
}

/// Region content `m` after writing the low `size` bytes of `value` at offset `off`.
pub open spec fn region_write(m: Seq<u8>, off: int, size: nat, value: u32) -> Seq<u8> {
    if size == 4 {
        store_le(m, (off / 4) * 4, 4, value)
    } else if size == 2 {
        store_le(m, (off / 2) * 2, 2, value)
    } else {
        store_le(m, off, 1, value)
    }
}

/// The single outstanding load-reserve address, word-aligned.
pub struct Reservation {
    addr: Option<u32>,
}

impl Reservation {
    /// The reserved word address, if any.
    pub closed spec fn held(&self) -> Option<u32> {
        self.addr
    }

    /// No reservation.
    pub fn new() -> (r: Reservation)
        ensures
            r.held() is None,
    {
        Reservation { addr: None }
    }

    /// Drops any reservation.
    pub fn reset(&mut self)
        ensures
            final(self).held() is None,
        no_unwind
    {
        self.addr = None;
    }

    /// Reserves the word that holds `read_addr`, displacing any earlier reservation.
    pub fn take(&mut self, read_addr: u32)
        ensures
            final(self).held() == Some(word_align(read_addr)),
        no_unwind
    {
        self.addr = Some(read_addr - read_addr % 4);
    }

    /// Whether the word that holds `write_addr` is reserved; a match consumes the
    /// reservation.
    pub fn check_write(&mut self, write_addr: u32) -> (r: bool)
        ensures
            r == (old(self).held() == Some(word_align(write_addr))),
            final(self).held() == (if r { None } else { old(self).held() }),
        no_unwind
    {
        if self.addr == Some(write_addr - write_addr % 4) {
            self.addr = None;
            true
        } else {
            false
        }
    }
}

/// The memory-management unit: kernel RAM, system RAM and the reservation.
pub struct Mmu {
    kernel_ram: Memory,
    system_ram: Memory,
    reservation: Reservation,
}

impl Mmu {
    /// Kernel RAM content.
    pub closed spec fn kernel(&self) -> Seq<u8> {
        self.kernel_ram@
    }

    /// System RAM content.
    pub closed spec fn system(&self) -> Seq<u8> {
        self.system_ram@
    }

    /// The reserved word address, if any.
    pub closed spec fn reserved(&self) -> Option<u32> {
        self.reservation.held()
    }

    /// Both regions have their sizes.
    #[verifier::type_invariant]
    closed spec fn wf(&self) -> bool {
        self.kernel_ram@.len() == KERNEL_RAM_SIZE && self.system_ram@.len() == SYSTEM_RAM_SIZE
    }

    /// Whether an access at `addr` with privilege `p` reaches kernel RAM.
    pub open spec fn hits_kernel(addr: u32, p: PrivilegeLevel) -> bool {
        in_kernel_ram(addr) && p == PrivilegeLevel::System
    }

    /// The sizes of kernel RAM and system RAM, which the regions always have.
    pub fn ram_sizes(&self) -> (r: (u32, u32))
        ensures
            r == (KERNEL_RAM_SIZE, SYSTEM_RAM_SIZE),
            self.kernel().len() == KERNEL_RAM_SIZE,
            self.system().len() == SYSTEM_RAM_SIZE,
    {
        proof {
            use_type_invariant(self);
        }
        (KERNEL_RAM_SIZE, SYSTEM_RAM_SIZE)
    }

    /// Zeroed regions and no reservation.
    pub fn new() -> (r: Mmu)
        ensures
            r.kernel() == Seq::new(KERNEL_RAM_SIZE as nat, |i: int| 0u8),
            r.system() == Seq::new(SYSTEM_RAM_SIZE as nat, |i: int| 0u8),
            r.reserved() is None,
    {
        Mmu {
            kernel_ram: Memory::new(KERNEL_RAM_SIZE),
            system_ram: Memory::new(SYSTEM_RAM_SIZE),
            reservation: Reservation::new(),
        }
    }

    /// Reloads kernel RAM with `image` and drops the reservation; system RAM is kept.
    pub fn reset(&mut self, image: &[u8])
        requires
            image@.len() == KERNEL_RAM_SIZE,
        ensures
            final(self).kernel() == image@,
            final(self).system() == old(self).system(),
            final(self).reserved() is None,
    {
        proof {
            use_type_invariant(&*self);
        }
        self.kernel_ram.reset(image);
        self.reservation.reset();
    }

    /// A read of `size` (1, 2 or 4) bytes.
    fn read(&mut self, addr: u32, size: u32, priv_level: PrivilegeLevel, reserve: bool) -> (r: Result<u32, MemoryError>)
        requires
            size == 1 || size == 2 || size == 4,
        ensures
            r == old(self).read_result(addr, size as nat, priv_level),
            old(self).read_post(addr, size as nat, priv_level, reserve, *final(self)),
            !reserve ==> *final(self) == *old(self),
    {
        proof {
            use_type_invariant(&*self);
        }
        if addr % size != 0 {
            return Err(MemoryError::UnalignedAccess);
        }
        if reserve {
            self.reservation.take(addr);
        }
        if KERNEL_RAM_START <= addr && addr <= KERNEL_RAM_END && priv_level == PrivilegeLevel::System {
            let off = addr - KERNEL_RAM_START;
            Ok(
                if size == 4 {
                    self.kernel_ram.read_32(off)
                } else if size == 2 {
                    self.kernel_ram.read_16(off) as u32
                } else {
                    self.kernel_ram.read_8(off) as u32
                },
            )
        } else if SYSTEM_RAM_START <= addr && addr <= SYSTEM_RAM_END {
            let off = addr - SYSTEM_RAM_START;
            Ok(
                if size == 4 {
                    self.system_ram.read_32(off)
                } else if size == 2 {
                    self.system_ram.read_16(off) as u32
                } else {
                    self.system_ram.read_8(off) as u32
                },
            )
        } else {
            Err(MemoryError::AccessViolation)
        }
    }

    /// A write of the low `size` (1, 2 or 4) bytes of `value`.
    fn write(&mut self, addr: u32, value: u32, size: u32, priv_level: PrivilegeLevel, conditional: bool) -> (r: Result<bool, MemoryError>)
        requires
            size == 1 || size == 2 || size == 4,
            size == 2 ==> value < 0x1_0000,
            size == 1 ==> value < 0x100,
        ensures
            r == old(self).write_result(addr, size as nat, priv_level, conditional),
            old(self).write_post(addr, size as nat, value, priv_level, conditional, *final(self)),
    {
        proof {
            use_type_invariant(&*self);
        }
        if addr % size != 0 {
            return Err(MemoryError::UnalignedAccess);
        }
        let is_reserved = self.reservation.check_write(addr);
        let do_write = is_reserved || !conditional;
        if KERNEL_RAM_START <= addr && addr <= KERNEL_RAM_END && priv_level == PrivilegeLevel::System {
            if do_write {
                let off = addr - KERNEL_RAM_START;
                if size == 4 {
                    self.kernel_ram.write_32(off, value);
                } else if size == 2 {
                    self.kernel_ram.write_16(off, value as u16);
                } else {
                    self.kernel_ram.write_8(off, value as u8);
                }
            }
            Ok(do_write)
        } else if SYSTEM_RAM_START <= addr && addr <= SYSTEM_RAM_END {
            if do_write {
                let off = addr - SYSTEM_RAM_START;
                if size == 4 {
                    self.system_ram.write_32(off, value);
                } else if size == 2 {
                    self.system_ram.write_16(off, value as u16);
                } else {
                    self.system_ram.write_8(off, value as u8);
                }
            }
            Ok(do_write)
        } else {
            Err(MemoryError::AccessViolation)
        }
    }
}

impl MemoryInterface for Mmu {
    open spec fn read_result(&self, addr: u32, size: nat, priv_level: PrivilegeLevel) -> Result<u32, MemoryError> {
        if !aligned(addr, size) {
            Err(MemoryError::UnalignedAccess)
        } else if Mmu::hits_kernel(addr, priv_level) {
            Ok(region_read(self.kernel(), addr - KERNEL_RAM_START, size))
        } else if in_system_ram(addr) {
            Ok(region_read(self.system(), addr - SYSTEM_RAM_START, size))
        } else {
            Err(MemoryError::AccessViolation)
        }
    }

    open spec fn read_post(&self, addr: u32, size: nat, priv_level: PrivilegeLevel, reserve: bool, next: Self) -> bool {
        &&& next.kernel() == self.kernel()
        &&& next.system() == self.system()
        &&& next.reserved() == if aligned(addr, size) && reserve {
            Some(word_align(addr))
        } else {
            self.reserved()
        }
    }

    open spec fn write_result(&self, addr: u32, size: nat, priv_level: PrivilegeLevel, conditional: bool) -> Result<bool, MemoryError> {
        if !aligned(addr, size) {
            Err(MemoryError::UnalignedAccess)
        } else if Mmu::hits_kernel(addr, priv_level) || in_system_ram(addr) {
            Ok(self.reserved() == Some(word_align(addr)) || !conditional)
        } else {
            Err(MemoryError::AccessViolation)
        }
    }

    open spec fn write_post(&self, addr: u32, size: nat, value: u32, priv_level: PrivilegeLevel, conditional: bool, next: Self) -> bool {
        if !aligned(addr, size) {
            &&& next.kernel() == self.kernel()
            &&& next.system() == self.system()
            &&& next.reserved() == self.reserved()
        } else {
            let matched = self.reserved() == Some(word_align(addr));
            let do_write = matched || !conditional;
            &&& next.reserved() == if matched {
                None
            } else {
                self.reserved()
            }
            &&& next.kernel() == if do_write && Mmu::hits_kernel(addr, priv_level) {
                region_write(self.kernel(), addr - KERNEL_RAM_START, size, value)
            } else {
                self.kernel()
            }
            &&& next.system() == if do_write && !Mmu::hits_kernel(addr, priv_level) && in_system_ram(addr) {
                region_write(self.system(), addr - SYSTEM_RAM_START, size, value)
            } else {
                self.system()
            }
        }
    }

    fn read_32(&mut self, addr: u32, priv_level: PrivilegeLevel, reserve: bool) -> (r: Result<u32, MemoryError>) {
        self.read(addr, 4, priv_level, reserve)
    }

    fn read_16(&mut self, addr: u32, priv_level: PrivilegeLevel, reserve: bool) -> (r: Result<u16, MemoryError>) {
        match self.read(addr, 2, priv_level, reserve) {
            Ok(v) => Ok(v as u16),
            Err(e) => Err(e),
        }
    }

    fn read_8(&mut self, addr: u32, priv_level: PrivilegeLevel, reserve: bool) -> (r: Result<u8, MemoryError>) {
        match self.read(addr, 1, priv_level, reserve) {
            Ok(v) => Ok(v as u8),
            Err(e) => Err(e),
        }
    }

    fn write_32(&mut self, addr: u32, value: u32, priv_level: PrivilegeLevel, conditional: bool) -> (r: Result<bool, MemoryError>) {
        self.write(addr, value, 4, priv_level, conditional)
    }

    fn write_16(&mut self, addr: u32, value: u16, priv_level: PrivilegeLevel, conditional: bool) -> (r: Result<bool, MemoryError>) {
        self.write(addr, value as u32, 2, priv_level, conditional)
    }

    fn write_8(&mut self, addr: u32, value: u8, priv_level: PrivilegeLevel, conditional: bool) -> (r: Result<bool, MemoryError>) {
        self.write(addr, value as u32, 1, priv_level, conditional)
    }
}

/// Timer, low 32 bits of the elapsed nanoseconds (read-only).
pub const TIMER_LOW_ADDR: u32 = 0x080;
/// Timer, high 32 bits of the elapsed nanoseconds (read-only).
pub const TIMER_HIGH_ADDR: u32 = 0x081;
/// Timer resolution in nanoseconds (read-only).
pub const TIMER_ACCURACY_ADDR: u32 = 0x082;
/// Serial output data (write-only).
pub const SERIAL_OUT_DATA_ADDR: u32 = 0x090;
/// Serial output free space (read-only, unbounded).
pub const SERIAL_OUT_COUNT_ADDR: u32 = 0x091;
/// Serial input data (read-only; 0 when no byte is waiting).
pub const SERIAL_IN_DATA_ADDR: u32 = 0x092;
/// Number of serial input bytes waiting (read-only).
pub const SERIAL_IN_COUNT_ADDR: u32 = 0x093;

/// The device bus: a timer and a serial port. The host sets the timer reading before
/// each step and drains the serial output after it.
pub struct IoBus {
    elapsed_nanos: u64,
    serial_in: VecDeque<u8>,
    serial_out: Vec<u8>,
}

impl IoBus {
    /// The timer reading, in nanoseconds since start.
    pub closed spec fn elapsed(&self) -> u64 {
        self.elapsed_nanos
    }

    /// Bytes waiting on the serial input.
    pub closed spec fn input(&self) -> Seq<u8> {
        self.serial_in@
    }

    /// Bytes written to the serial output and not yet taken by the host.
    pub closed spec fn output(&self) -> Seq<u8> {
        self.serial_out@
    }

    /// This bus with the timer reading `t`.
    pub closed spec fn at_time(self, t: u64) -> IoBus {
        IoBus { elapsed_nanos: t, ..self }
    }

    /// A bus at time zero with empty serial buffers.
    pub fn new() -> (r: IoBus)
        ensures
            r.elapsed() == 0,
            r.input() == Seq::<u8>::empty(),
            r.output() == Seq::<u8>::empty(),
    {
        IoBus { elapsed_nanos: 0, serial_in: VecDeque::new(), serial_out: Vec::new() }
    }

    /// Sets the timer reading.
    pub fn set_time(&mut self, elapsed_nanos: u64)
        ensures
            *final(self) == old(self).at_time(elapsed_nanos),
    {
        self.elapsed_nanos = elapsed_nanos;
    }

    /// Queues a byte on the serial input.
    pub fn push_input(&mut self, byte: u8)
        ensures
            final(self).input() == old(self).input().push(byte),
            final(self).output() == old(self).output(),
            final(self).elapsed() == old(self).elapsed(),
    {
        self.serial_in.push_back(byte);
    }

    /// Hands out the serial output written so far and empties it.
    pub fn take_output(&mut self) -> (r: Vec<u8>)
        ensures
            r@ == old(self).output(),
            final(self).output() == Seq::<u8>::empty(),
            final(self).input() == old(self).input(),
            final(self).elapsed() == old(self).elapsed(),
    {
        let mut out: Vec<u8> = Vec::new();
        core::mem::swap(&mut out, &mut self.serial_out);
        out
    }
}

impl IoInterface for IoBus {
    open spec fn read_result(&self, addr: u32, priv_level: PrivilegeLevel) -> Result<u32, IoError> {
        if addr == TIMER_LOW_ADDR {
            Ok((self.elapsed() % 0x1_0000_0000) as u32)
        } else if addr == TIMER_HIGH_ADDR {
            Ok(((self.elapsed() / 0x1_0000_0000) % 0x1_0000_0000) as u32)
        } else if addr == TIMER_ACCURACY_ADDR {
            Ok(1)
        } else if addr == SERIAL_OUT_COUNT_ADDR {
            Ok(0xFFFF_FFFF)
        } else if addr == SERIAL_IN_DATA_ADDR {
            Ok(
                if self.input().len() > 0 {
                    self.input()[0] as u32
                } else {
                    0
                },
            )
        } else if addr == SERIAL_IN_COUNT_ADDR {
            Ok(self.input().len() as u32)
        } else {
            Err(IoError::AccessViolation)
        }
    }

    open spec fn read_post(&self, addr: u32, priv_level: PrivilegeLevel, next: Self) -> bool {
        &&& next.elapsed() == self.elapsed()
        &&& next.output() == self.output()
        &&& next.input() == if addr == SERIAL_IN_DATA_ADDR && self.input().len() > 0 {
            self.input().drop_first()
        } else {
            self.input()
        }
    }

    open spec fn write_result(&self, addr: u32, value: u32, priv_level: PrivilegeLevel) -> Result<(), IoError> {
        if addr == SERIAL_OUT_DATA_ADDR {
            Ok(())
        } else {
            Err(IoError::AccessViolation)
        }
    }

    open spec fn write_post(&self, addr: u32, value: u32, priv_level: PrivilegeLevel, next: Self) -> bool {
        &&& next.elapsed() == self.elapsed()
        &&& next.input() == self.input()
        &&& next.output() == if addr == SERIAL_OUT_DATA_ADDR {
            self.output().push(value as u8)
        } else {
            self.output()
        }
    }

    fn read(&mut self, addr: u32, priv_level: PrivilegeLevel) -> (r: Result<u32, IoError>) {
        if addr == TIMER_LOW_ADDR {
            Ok((self.elapsed_nanos % 0x1_0000_0000) as u32)
        } else if addr == TIMER_HIGH_ADDR {
            Ok(((self.elapsed_nanos / 0x1_0000_0000) % 0x1_0000_0000) as u32)
        } else if addr == TIMER_ACCURACY_ADDR {
            Ok(1)
        } else if addr == SERIAL_OUT_COUNT_ADDR {
            Ok(0xFFFF_FFFF)
        } else if addr == SERIAL_IN_DATA_ADDR {
            match self.serial_in.pop_front() {
                Some(b) => Ok(b as u32),
                None => Ok(0),
            }
        } else if addr == SERIAL_IN_COUNT_ADDR {
            Ok(self.serial_in.len() as u32)
        } else {
            Err(IoError::AccessViolation)
        }
    }

    fn write(&mut self, addr: u32, value: u32, priv_level: PrivilegeLevel) -> (r: Result<(), IoError>) {
        if addr == SERIAL_OUT_DATA_ADDR {
            self.serial_out.push(value as u8);
            Ok(())
        } else {
            Err(IoError::AccessViolation)
        }
    }
}

/// A request from the running program to its host, made with `envcall`.
#[derive(Debug, Clone, Copy, PartialEq, Eq, Structural)]
pub enum EnvAction {
    /// Stop running and wait for single steps.
    Break,
    /// Reset the system.
    Reset,
    /// The program failed.
    Error,
}

/// The action an `envcall` code requests: 0 Break, 1 Reset, 2 Error, others none.
pub open spec fn env_action_of(code: u8) -> Option<EnvAction> {
    if code == 0 {
        Some(EnvAction::Break)
    } else if code == 1 {
        Some(EnvAction::Reset)
    } else if code == 2 {
        Some(EnvAction::Error)
    } else {
        None
    }
}

/// What the system reports for a CPU step that returned `r`.
pub open spec fn system_result(r: Result<Option<u8>, FatalError>) -> Result<Option<EnvAction>, FatalError> {
    match r {
        Ok(Some(code)) => Ok(env_action_of(code)),
        Ok(None) => Ok(None),
        Err(f) => Err(f),
    }
}

impl EnvAction {
    /// The action that `envcall` code `code` requests, if any.
    pub fn new(code: u8) -> (r: Option<EnvAction>)
        ensures
            r == env_action_of(code),
    {
        match code {
            0 => Some(EnvAction::Break),
            1 => Some(EnvAction::Reset),
            2 => Some(EnvAction::Error),
            _ => None,
        }
    }
}

/// The whole machine: CPU, memory unit, device bus and the kernel image loaded at reset.
pub struct Art32 {
    cpu: Cpu,
    mmu: Mmu,
    io_bus: IoBus,
    kernel: Vec<u8>,
}

impl Art32 {
    /// The CPU.
    pub closed spec fn cpu_state(&self) -> Cpu {
        self.cpu
    }

    /// The memory unit.
    pub closed spec fn memory(&self) -> Mmu {
        self.mmu
    }

    /// The device bus.
    pub closed spec fn bus(&self) -> IoBus {
        self.io_bus
    }

    /// The kernel image that a reset loads.
    pub closed spec fn kernel_image(&self) -> Seq<u8> {
        self.kernel@
    }

    /// The invariant: a well-formed CPU and a kernel image of kernel RAM's size.
    pub closed spec fn wf(&self) -> bool {
        self.cpu.wf() && self.kernel@.len() == KERNEL_RAM_SIZE
    }

    /// A machine in its reset state with `kernel` (exactly kernel RAM's size) loaded.
    pub fn new(kernel: &[u8]) -> (r: Art32)
        requires
            kernel@.len() == KERNEL_RAM_SIZE,
        ensures
            r.wf(),
            r.cpu_state()@ == Cpu::new_view(),
            r.memory().kernel() == kernel@,
            r.memory().system() == Seq::new(SYSTEM_RAM_SIZE as nat, |i: int| 0u8),
            r.memory().reserved() is None,
            r.bus().elapsed() == 0,
            r.bus().input() == Seq::<u8>::empty(),
            r.bus().output() == Seq::<u8>::empty(),
            r.kernel_image() == kernel@,
    {
        let mut image: Vec<u8> = Vec::new();
        let mut i: usize = 0;
        while i < kernel.len()
            invariant
                i <= kernel@.len(),
                image@ == kernel@.subrange(0, i as int),
            decreases kernel@.len() - i,
        {
            image.push(kernel[i]);
            i = i + 1;
            assert(image@ =~= kernel@.subrange(0, i as int));
        }
        assert(image@ =~= kernel@);
        let mut mmu = Mmu::new();
        mmu.reset(kernel);
        Art32 { cpu: Cpu::new(), mmu, io_bus: IoBus::new(), kernel: image }
    }

    /// Resets the CPU, reloads kernel RAM from the kernel image and drops the
    /// reservation; system RAM, register banks and vector tables are kept.
    pub fn reset(&mut self)
        requires
            old(self).wf(),
        ensures
            final(self).wf(),
            final(self).cpu_state()@ == Cpu::reset_view(old(self).cpu_state()@),
            final(self).memory().kernel() == old(self).kernel_image(),
            final(self).memory().system() == old(self).memory().system(),
            final(self).memory().reserved() is None,
            final(self).bus() == old(self).bus(),
            final(self).kernel_image() == old(self).kernel_image(),
    {
        self.cpu.reset();
        self.mmu.reset(self.kernel.as_slice());
    }

    /// Runs one step of the CPU with the timer reading `elapsed_nanos`, and reports the
    /// action an `envcall` requested, if any, or the fatal condition.
    pub fn step<F: Fn(FloatOp) -> u32>(&mut self, elapsed_nanos: u64, fpu: &F) -> (r: Result<Option<EnvAction>, FatalError>)
        requires
            old(self).wf(),
            accepts_all(fpu),
        ensures
            final(self).wf(),
            final(self).kernel_image() == old(self).kernel_image(),
            exists|fv: u32, inner: Result<Option<u8>, FatalError>|
                #[trigger] step_post(
                    old(self).cpu_state()@,
                    old(self).memory(),
                    old(self).bus().at_time(elapsed_nanos),
                    fpu,
                    fv,
                    final(self).cpu_state()@,
                    final(self).memory(),
                    final(self).bus(),
                    inner,
                ) && r == system_result(inner),
    {
        self.io_bus.set_time(elapsed_nanos);
        let ghost m0 = self.mmu;
        let ghost i0 = self.io_bus;
        let ghost s0 = self.cpu@;
        let inner = self.cpu.step(&mut self.mmu, &mut self.io_bus, fpu);
        let ghost fv = choose|fv: u32| #[trigger] step_post(s0, m0, i0, fpu, fv, self.cpu@, self.mmu, self.io_bus, inner);
        let r = match inner {
            Ok(Some(code)) => Ok(EnvAction::new(code)),
            Ok(None) => Ok(None),
            Err(f) => Err(f),
        };
        assert(step_post(
            old(self).cpu_state()@,
            old(self).memory(),
            old(self).bus().at_time(elapsed_nanos),
            fpu,
            fv,
            self.cpu_state()@,
            self.memory(),
            self.bus(),
            inner,
        ));
        r
    }

    /// The CPU, for inspection.
    pub fn cpu(&self) -> (r: &Cpu)
        ensures
            *r == self.cpu_state(),
    {
        &self.cpu
    }

    /// Hands out the serial output written so far and empties it.
    pub fn take_serial_output(&mut self) -> (r: Vec<u8>)
        requires
            old(self).wf(),
        ensures
            final(self).wf(),
            r@ == old(self).bus().output(),
            final(self).bus().output() == Seq::<u8>::empty(),
            final(self).bus().input() == old(self).bus().input(),
            final(self).cpu_state() == old(self).cpu_state(),
            final(self).memory() == old(self).memory(),
    {
        self.io_bus.take_output()
    }
}

/// A load-reserve of the word at `a` followed by a store-conditional of that word
/// succeeds and consumes the reservation, so that a second store-conditional there
/// fails.
pub proof fn lemma_reserve_then_store_conditional(
    m0: Mmu,
    m1: Mmu,
    m2: Mmu,
    a: u32,
    p: PrivilegeLevel,
    value: u32,
)
    requires
        m0.read_result(a, 4, p) is Ok,
        m0.read_post(a, 4, p, true, m1),
        m1.write_post(a, 4, value, p, true, m2),
    ensures
        m1.write_result(a, 4, p, true) == Ok::<bool, MemoryError>(true),
        m2.reserved() is None,
        m2.write_result(a, 4, p, true) == Ok::<bool, MemoryError>(false),
{
}

/// After a load-reserve at `a`, a store-conditional at a word other than `a`'s does not
/// succeed, writes nothing, and leaves the reservation standing.
pub proof fn lemma_store_conditional_elsewhere(
    m0: Mmu,
    m1: Mmu,
    m2: Mmu,
    a: u32,
    b: u32,
    size: nat,
    p: PrivilegeLevel,
    value: u32,
)
    requires
        aligned(a, 4),
        m0.read_post(a, 4, p, true, m1),
        word_align(a) != word_align(b),
        m1.write_post(b, size, value, p, true, m2),
    ensures
        m1.write_result(b, size, p, true) != Ok::<bool, MemoryError>(true),
        m2.kernel() == m1.kernel(),
        m2.system() == m1.system(),
        m2.reserved() == m1.reserved(),
{
}

/// A plain store at `a` always writes where it may write, and leaves no reservation on
/// `a`'s word.
pub proof fn lemma_plain_store_clears_reservation(
    m0: Mmu,
    m1: Mmu,
    a: u32,
    size: nat,
    p: PrivilegeLevel,
    value: u32,
)
    requires
        aligned(a, size),
        m0.write_post(a, size, value, p, false, m1),
    ensures
        m1.reserved() != Some(word_align(a)),
        (Mmu::hits_kernel(a, p) || in_system_ram(a)) ==> m0.write_result(a, size, p, false) == Ok::<
            bool,
            MemoryError,
        >(true),
{
}

/// At User privilege every aligned access to kernel RAM is an access violation.
pub proof fn lemma_user_cannot_reach_kernel_ram(m: Mmu, addr: u32, size: nat, conditional: bool)
    requires
        in_kernel_ram(addr),
        aligned(addr, size),
    ensures
        m.read_result(addr, size, PrivilegeLevel::User) == Err::<u32, MemoryError>(
            MemoryError::AccessViolation,
        ),
        m.write_result(addr, size, PrivilegeLevel::User, conditional) == Err::<bool, MemoryError>(
            MemoryError::AccessViolation,
        ),
{
}

/// At User privilege the CPU's configuration registers are not reachable: the access goes
/// to the bus, which answers with an access violation, and nothing changes.
pub proof fn lemma_user_cannot_reach_config(s: CpuView, bus: IoBus, addr: u32, value: u32)
    requires
        is_config_address(addr),
    ensures
        read_io_spec(s, bus, addr, PrivilegeLevel::User) == Err::<u32, IoError>(IoError::AccessViolation),
        write_io_spec(s, bus, addr, value, PrivilegeLevel::User) == (s, Err::<(), IoError>(IoError::AccessViolation)),
{
}

/// A 32-bit access at an address that is not a multiple of 4, or a 16-bit access at an
/// odd address, is an unaligned access whatever the region or privilege.
pub proof fn lemma_misaligned_access(m: Mmu, addr: u32, size: nat, p: PrivilegeLevel, conditional: bool)
    requires
        (size == 4 && addr % 4 != 0) || (size == 2 && addr % 2 != 0),
    ensures
        m.read_result(addr, size, p) == Err::<u32, MemoryError>(MemoryError::UnalignedAccess),
        m.write_result(addr, size, p, conditional) == Err::<bool, MemoryError>(MemoryError::UnalignedAccess),
{
}

} // verus!
