//! The CPU core: its abstract state, the interrupt and exception controller, the
//! arithmetic core, one executor per instruction form, and the decode tree of `step`.

use vstd::prelude::*;
use vstd::std_specs::bits::axiom_u16_leading_zeros;

use crate::bits::{
    ashr, clear_low, field, imm_branch_16, imm_branch_32, imm_jump_16, imm_jump_32, imm_ldi_16,
    imm_reg_32, imm_stack_16, imm_store_32, imm_upper_32, lemma_clear_low_even, lemma_field_bound,
    lemma_rs2_32_bound, reg4, reg5, rs2_32,
};
use crate::interface::{FloatOp, IoError, IoInterface, MemoryError, MemoryInterface, PrivilegeLevel};
use crate::register::{
    branch_condition_of, condition_of, regs_set, satisfies, satisfies_branch, BranchCondition,
    Condition, Flags, RegisterFile, REGISTER_COUNT, REG_RA,
    REG_SP, REG_ZERO,
};

verus! {

/// Number of hardware-interrupt vectors.
pub const HARD_INT_SLOTS: usize = 16;

/// Number of software-interrupt vectors.
pub const SOFT_INT_SLOTS: usize = 16;

/// Number of exception kinds, and so of exception vectors.
pub const EXCEPTION_SLOTS: usize = 3;

/// Where the program counter points after a reset: the start of kernel RAM.
pub const RESET_PROGRAM_COUNTER: u32 = 0x1000_0000;

/// A synchronous exception.
#[derive(Debug, Clone, Copy, PartialEq, Eq, Structural)]
pub enum ExceptionKind {
    IllegalInstruction,
    AccessViolation,
    UnalignedAccess,
}

/// The slot of an exception kind in the exception table.
pub open spec fn exception_slot(kind: ExceptionKind) -> int {
    match kind {
        ExceptionKind::IllegalInstruction => 0,
        ExceptionKind::AccessViolation => 1,
        ExceptionKind::UnalignedAccess => 2,
    }
}

/// The exception that a failed memory access raises.
pub open spec fn memory_exception(e: MemoryError) -> ExceptionKind {
    match e {
        MemoryError::AccessViolation => ExceptionKind::AccessViolation,
        MemoryError::UnalignedAccess => ExceptionKind::UnalignedAccess,
    }
}

/// The exception that a failed I/O access raises.
pub open spec fn io_exception(e: IoError) -> ExceptionKind {
    match e {
        IoError::AccessViolation => ExceptionKind::AccessViolation,
    }
}

impl ExceptionKind {
    /// The exception that a failed memory access raises.
    pub fn from_memory_error(e: MemoryError) -> (r: ExceptionKind)
        ensures
            r == memory_exception(e),
    {
        match e {
            MemoryError::AccessViolation => ExceptionKind::AccessViolation,
            MemoryError::UnalignedAccess => ExceptionKind::UnalignedAccess,
        }
    }

    /// The exception that a failed I/O access raises.
    pub fn from_io_error(e: IoError) -> (r: ExceptionKind)
        ensures
            r == io_exception(e),
    {
        match e {
            IoError::AccessViolation => ExceptionKind::AccessViolation,
        }
    }

    /// The slot of this kind in the exception table.
    pub fn slot(self) -> (r: usize)
        ensures
            r == exception_slot(self),
    {
        match self {
            ExceptionKind::IllegalInstruction => 0,
            ExceptionKind::AccessViolation => 1,
            ExceptionKind::UnalignedAccess => 2,
        }
    }
}

/// Condition that ends the emulation session: the non-reentrancy of handlers was
/// violated.
#[derive(Debug, Clone, Copy, PartialEq, Eq, Structural)]
pub enum FatalError {
    /// An exception was raised while an interrupt or exception was being serviced.
    NestedException(ExceptionKind),
    /// `syscall` was issued while an interrupt or exception was being serviced.
    NestedSoftwareInterrupt,
}

/// How an instruction left the normal path.
#[derive(Debug, Clone, Copy, PartialEq, Eq, Structural)]
pub enum Fault {
    Exception(ExceptionKind),
    Fatal(FatalError),
}

/// Whether the CPU is inside a handler (Servicing) or in normal execution (Listening).
#[derive(Debug, Clone, Copy, PartialEq, Eq, Structural)]
pub enum InterruptState {
    Servicing,
    Listening,
}

/// One register bank: a register file and its flags.
pub struct CpuState {
    pub regs: RegisterFile,
    pub flags: Flags,
}

impl CpuState {
    /// Cleared registers and flags.
    pub fn new() -> (r: CpuState)
        ensures
            r.regs.wf(),
            r.regs@ == Seq::new(REGISTER_COUNT as nat, |i: int| 0u32),
            r.flags == flags_clear(),
    {
        CpuState { regs: RegisterFile::new(), flags: Flags::empty() }
    }
}

/// No flag set.
pub open spec fn flags_clear() -> Flags {
    Flags { carry: false, zero: false, sign: false, overflow: false }
}

/// The abstract state of the CPU.
pub struct CpuView {
    pub pc: u32,
    pub interrupt_state: InterruptState,
    pub privilege_level: PrivilegeLevel,
    /// The live bank.
    pub regs: Seq<u32>,
    pub flags: Flags,
    /// The shadow bank.
    pub alt_regs: Seq<u32>,
    pub alt_flags: Flags,
    pub interrupt_mask: u16,
    pub pending_interrupts: u16,
    pub hardware_table: Seq<u32>,
    pub software_table: Seq<u32>,
    pub exception_table: Seq<u32>,
    pub interrupt_return_address: u32,
}

/// Whether `x` is even.
pub open spec fn even(x: u32) -> bool {
    x % 2 == 0
}

/// A well-formed CPU state: banks of 32 registers with register zero at zero, tables of
/// their fixed sizes holding even vectors, an even program counter and return address.
pub open spec fn view_wf(s: CpuView) -> bool {
    &&& s.regs.len() == REGISTER_COUNT && s.regs[REG_ZERO as int] == 0
    &&& s.alt_regs.len() == REGISTER_COUNT && s.alt_regs[REG_ZERO as int] == 0
    &&& s.hardware_table.len() == HARD_INT_SLOTS
    &&& s.software_table.len() == SOFT_INT_SLOTS
    &&& s.exception_table.len() == EXCEPTION_SLOTS
    &&& forall|i: int| 0 <= i < HARD_INT_SLOTS ==> even(#[trigger] s.hardware_table[i])
    &&& forall|i: int| 0 <= i < SOFT_INT_SLOTS ==> even(#[trigger] s.software_table[i])
    &&& forall|i: int| 0 <= i < EXCEPTION_SLOTS ==> even(#[trigger] s.exception_table[i])
    &&& even(s.pc)
    &&& even(s.interrupt_return_address)
}

/// The privilege in force: System while servicing, else the stored level.
pub open spec fn effective_privilege(s: CpuView) -> PrivilegeLevel {
    match s.interrupt_state {
        InterruptState::Servicing => PrivilegeLevel::System,
        InterruptState::Listening => s.privilege_level,
    }
}

/// `s` with register `r` of the live bank set to `v` (discarded for the zero register).
pub open spec fn with_reg(s: CpuView, r: int, v: u32) -> CpuView {
    CpuView { regs: regs_set(s.regs, r, v), ..s }
}

/// `s` with the live flags replaced.
pub open spec fn with_flags(s: CpuView, f: Flags) -> CpuView {
    CpuView { flags: f, ..s }
}

/// `s` with the program counter replaced.
pub open spec fn with_pc(s: CpuView, pc: u32) -> CpuView {
    CpuView { pc, ..s }
}

/// Entry into a handler at `vector`: the current PC is saved as the return address, the
/// banks are swapped, and the CPU is servicing.
pub open spec fn enter_interrupt_spec(s: CpuView, vector: u32) -> CpuView {
    CpuView {
        interrupt_return_address: s.pc,
        pc: vector,
        interrupt_state: InterruptState::Servicing,
        regs: s.alt_regs,
        flags: s.alt_flags,
        alt_regs: s.regs,
        alt_flags: s.flags,
        ..s
    }
}

/// Return from a handler: the PC is restored from the return address, the banks are
/// swapped back, and the CPU is listening.
pub open spec fn leave_interrupt_spec(s: CpuView) -> CpuView {
    CpuView {
        pc: s.interrupt_return_address,
        interrupt_state: InterruptState::Listening,
        regs: s.alt_regs,
        flags: s.alt_flags,
        alt_regs: s.regs,
        alt_flags: s.flags,
        ..s
    }
}

/// The hardware-interrupt slot that `pending` (already masked) selects: the highest set
/// bit.
pub open spec fn highest_slot(pending: u16) -> int {
    15 - pending.leading_zeros()
}

/// Whether bit `slot` of `x` is set and no higher bit is.
pub open spec fn is_highest_set_bit(x: u16, slot: int) -> bool {
    &&& 0 <= slot < 16
    &&& (x >> slot as u16) & 1 == 1
    &&& forall|j: int| slot < j < 16 ==> (#[trigger] (x >> j as u16)) & 1 == 0
}

/// The hardware interrupt that is taken before the next fetch, if any: only while
/// listening, among the pending and unmasked slots the highest.
pub open spec fn next_interrupt_spec(s: CpuView) -> Option<int> {
    if s.interrupt_state == InterruptState::Listening && s.pending_interrupts
        & s.interrupt_mask != 0 {
        Some(highest_slot(s.pending_interrupts & s.interrupt_mask))
    } else {
        None
    }
}

/// Taking a hardware interrupt: its pending bit is cleared and its handler entered.
pub open spec fn take_interrupt_spec(s: CpuView, slot: int) -> CpuView {
    enter_interrupt_spec(
        CpuView { pending_interrupts: s.pending_interrupts & !(1u16 << slot as u16), ..s },
        s.hardware_table[slot],
    )
}

/// Raising exception `kind`: from Listening, entry into its vector; from Servicing, fatal.
pub open spec fn exception_spec(s: CpuView, kind: ExceptionKind) -> Result<CpuView, FatalError> {
    match s.interrupt_state {
        InterruptState::Servicing => Err(FatalError::NestedException(kind)),
        InterruptState::Listening => Ok(
            enter_interrupt_spec(s, s.exception_table[exception_slot(kind)]),
        ),
    }
}

/// A CPU core: program counter, interrupt controller and two register banks.
pub struct Cpu {
    program_counter: u32,
    interrupt_state: InterruptState,
    privilege_level: PrivilegeLevel,
    state: CpuState,
    alt_state: CpuState,
    interrupt_mask: u16,
    pending_interrupts: u16,
    hardware_interrupt_table: Vec<u32>,
    software_interrupt_table: Vec<u32>,
    exception_table: Vec<u32>,
    interrupt_return_address: u32,
}

impl View for Cpu {
    type V = CpuView;

    closed spec fn view(&self) -> CpuView {
        CpuView {
            pc: self.program_counter,
            interrupt_state: self.interrupt_state,
            privilege_level: self.privilege_level,
            regs: self.state.regs@,
            flags: self.state.flags,
            alt_regs: self.alt_state.regs@,
            alt_flags: self.alt_state.flags,
            interrupt_mask: self.interrupt_mask,
            pending_interrupts: self.pending_interrupts,
            hardware_table: self.hardware_interrupt_table@,
            software_table: self.software_interrupt_table@,
            exception_table: self.exception_table@,
            interrupt_return_address: self.interrupt_return_address,
        }
    }
}

/// A table of `n` zero vectors.
fn zero_table(n: usize) -> (r: Vec<u32>)
    ensures
        r@ == Seq::new(n as nat, |i: int| 0u32),
{
    let mut v: Vec<u32> = Vec::new();
    let mut i: usize = 0;
    while i < n
        invariant
            i <= n,
            v@ == Seq::new(i as nat, |j: int| 0u32),
        decreases n - i,
    {
        v.push(0);
        i = i + 1;
        assert(v@ =~= Seq::new(i as nat, |j: int| 0u32));
    }
    v
}

impl Cpu {
    /// The invariant that every operation keeps.
    pub closed spec fn wf(&self) -> bool {
        &&& view_wf(self@)
        &&& self.state.regs.wf()
        &&& self.alt_state.regs.wf()
    }

    /// The state of a new CPU: reset values, cleared banks and tables.
    pub open spec fn new_view() -> CpuView {
        CpuView {
            pc: RESET_PROGRAM_COUNTER,
            interrupt_state: InterruptState::Servicing,
            privilege_level: PrivilegeLevel::System,
            regs: Seq::new(REGISTER_COUNT as nat, |i: int| 0u32),
            flags: flags_clear(),
            alt_regs: Seq::new(REGISTER_COUNT as nat, |i: int| 0u32),
            alt_flags: flags_clear(),
            interrupt_mask: 0,
            pending_interrupts: 0,
            hardware_table: Seq::new(HARD_INT_SLOTS as nat, |i: int| 0u32),
            software_table: Seq::new(SOFT_INT_SLOTS as nat, |i: int| 0u32),
            exception_table: Seq::new(EXCEPTION_SLOTS as nat, |i: int| 0u32),
            interrupt_return_address: 0,
        }
    }

    /// The state after a reset of `s`: PC, interrupt state, privilege level, mask and
    /// pending bitmap take their reset values; banks, tables and return address stay.
    pub open spec fn reset_view(s: CpuView) -> CpuView {
        CpuView {
            pc: RESET_PROGRAM_COUNTER,
            interrupt_state: InterruptState::Servicing,
            privilege_level: PrivilegeLevel::System,
            interrupt_mask: 0,
            pending_interrupts: 0,
            ..s
        }
    }

    /// A well-formed CPU has a well-formed state: banks of 32 registers with register
    /// zero at zero, tables of their sizes holding even vectors, an even PC and return
    /// address.
    pub proof fn lemma_wf_view(&self)
        requires
            self.wf(),
        ensures
            view_wf(self@),
    {
    }

    /// A CPU in its reset state with cleared banks and tables.
    pub fn new() -> (r: Cpu)
        ensures
            r.wf(),
            r@ == Cpu::new_view(),
    {
        Cpu {
            program_counter: RESET_PROGRAM_COUNTER,
            interrupt_state: InterruptState::Servicing,
            privilege_level: PrivilegeLevel::System,
            state: CpuState::new(),
            alt_state: CpuState::new(),
            interrupt_mask: 0,
            pending_interrupts: 0,
            hardware_interrupt_table: zero_table(HARD_INT_SLOTS),
            software_interrupt_table: zero_table(SOFT_INT_SLOTS),
            exception_table: zero_table(EXCEPTION_SLOTS),
            interrupt_return_address: 0,
        }
    }

    /// Restores PC, interrupt state, privilege level, mask and pending bitmap to their
    /// reset values; banks, tables and return address are kept.
    pub fn reset(&mut self)
        requires
            old(self).wf(),
        ensures
            final(self).wf(),
            final(self)@ == Cpu::reset_view(old(self)@),
    {
        self.program_counter = RESET_PROGRAM_COUNTER;
        self.interrupt_state = InterruptState::Servicing;
        self.privilege_level = PrivilegeLevel::System;
        self.interrupt_mask = 0;
        self.pending_interrupts = 0;
    }

    /// Marks hardware interrupt `slot` as pending.
    pub fn signal_interrupt(&mut self, slot: usize)
        requires
            old(self).wf(),
            slot < HARD_INT_SLOTS,
        ensures
            final(self).wf(),
            final(self)@ == (CpuView {
                pending_interrupts: old(self)@.pending_interrupts | (1u16 << slot as u16),
                ..old(self)@
            }),
    {
        self.pending_interrupts = self.pending_interrupts | (1u16 << slot as u16);
    }

    /// The program counter.
    pub fn program_counter(&self) -> (r: u32)
        ensures
            r == self@.pc,
    {
        self.program_counter
    }

    /// Register `reg` of the live bank.
    pub fn get_reg(&self, reg: usize) -> (r: u32)
        requires
            self.wf(),
            reg < REGISTER_COUNT,
        ensures
            r == self@.regs[reg as int],
            reg == REG_ZERO ==> r == 0,
    {
        self.state.regs.get(reg)
    }

    /// Writes register `reg` of the live bank (discarded for the zero register).
    pub fn set_reg(&mut self, reg: usize, value: u32)
        requires
            old(self).wf(),
            reg < REGISTER_COUNT,
        ensures
            final(self).wf(),
            final(self)@ == with_reg(old(self)@, reg as int, value),
    {
        self.state.regs.set(reg, value);
    }

    /// The live flags.
    pub fn flags(&self) -> (r: Flags)
        ensures
            r == self@.flags,
    {
        self.state.flags
    }

    /// Whether the CPU is inside a handler.
    pub fn interrupt_state(&self) -> (r: InterruptState)
        ensures
            r == self@.interrupt_state,
    {
        self.interrupt_state
    }

    /// The privilege in force: System while servicing, else the stored level.
    pub fn effective_privilege_level(&self) -> (r: PrivilegeLevel)
        ensures
            r == effective_privilege(self@),
    {
        match self.interrupt_state {
            InterruptState::Servicing => PrivilegeLevel::System,
            InterruptState::Listening => self.privilege_level,
        }
    }

    /// Picks the hardware interrupt to take, if any, and clears its pending bit.
    pub fn next_interrupt(&mut self) -> (r: Option<usize>)
        requires
            old(self).wf(),
        ensures
            final(self).wf(),
            match next_interrupt_spec(old(self)@) {
                Some(slot) => r == Some(slot as usize) && final(self)@ == (CpuView {
                    pending_interrupts: old(self)@.pending_interrupts & !(1u16 << slot as u16),
                    ..old(self)@
                }) && is_highest_set_bit(
                    old(self)@.pending_interrupts & old(self)@.interrupt_mask,
                    slot,
                ),
                None => r is None && final(self)@ == old(self)@,
            },
    {
        if self.interrupt_state == InterruptState::Listening {
            let pending = self.pending_interrupts & self.interrupt_mask;
            if pending != 0 {
                proof {
                    broadcast use axiom_u16_leading_zeros;
                    lemma_highest_slot(pending);
                }
                let slot = HARD_INT_SLOTS - (pending.leading_zeros() as usize) - 1;
                self.pending_interrupts = self.pending_interrupts & !(1u16 << slot as u16);
                return Some(slot);
            }
        }
        None
    }

    /// Enters the handler at `new_program_counter`.
    pub fn enter_interrupt(&mut self, new_program_counter: u32)
        requires
            old(self).wf(),
            old(self)@.interrupt_state == InterruptState::Listening,
            even(new_program_counter),
        ensures
            final(self).wf(),
            final(self)@ == enter_interrupt_spec(old(self)@, new_program_counter),
    {
        self.interrupt_return_address = self.program_counter;
        self.program_counter = new_program_counter;
        self.interrupt_state = InterruptState::Servicing;
        core::mem::swap(&mut self.state, &mut self.alt_state);
    }

    /// Returns from the handler being serviced.
    pub fn leave_interrupt(&mut self)
        requires
            old(self).wf(),
            old(self)@.interrupt_state == InterruptState::Servicing,
        ensures
            final(self).wf(),
            final(self)@ == leave_interrupt_spec(old(self)@),
    {
        self.program_counter = self.interrupt_return_address;
        self.interrupt_state = InterruptState::Listening;
        core::mem::swap(&mut self.state, &mut self.alt_state);
    }

    /// Raises exception `kind`: enters its handler, or reports a fatal nesting.
    pub fn exception(&mut self, kind: ExceptionKind) -> (r: Result<(), FatalError>)
        requires
            old(self).wf(),
        ensures
            final(self).wf(),
            match exception_spec(old(self)@, kind) {
                Ok(s) => r is Ok && final(self)@ == s,
                Err(f) => r == Err::<(), FatalError>(f) && final(self)@ == old(self)@,
            },
    {
        match self.interrupt_state {
            InterruptState::Servicing => Err(FatalError::NestedException(kind)),
            InterruptState::Listening => {
                let vector = self.exception_table[kind.slot()];
                self.enter_interrupt(vector);
                Ok(())
            },
        }
    }
}

/// `15 - leading_zeros(x)` is the highest set bit of a nonzero `x`.
pub proof fn lemma_highest_slot(x: u16)
    requires
        x != 0,
    ensures
        is_highest_set_bit(x, highest_slot(x)),
        0 <= highest_slot(x) < 16,
{
    broadcast use axiom_u16_leading_zeros;

    let lz = x.leading_zeros();
    assert(0 <= lz < 16);
    let s = (15 - lz) as u16;
    let y = x >> s;
    assert(y & 1 != 0);
    assert(y & 1 == 1) by (bit_vector)
        requires
            y & 1 != 0,
    ;
    assert(highest_slot(x) as u16 == s);
    assert forall|j: int| s < j < 16 implies (#[trigger] (x >> j as u16)) & 1 == 0 by {
        let jj = j as u16;
        assert(16 - lz <= jj < 16);
    }
}


/// Whether `x`, read as a two's-complement number, is negative.
pub open spec fn is_negative(x: u32) -> bool {
    x >= 0x8000_0000
}

/// The carry-in as a number.
pub open spec fn carry_value(c: bool) -> int {
    if c {
        1
    } else {
        0
    }
}

/// The 32-bit result of `l + r + c`.
pub open spec fn add_result(l: u32, r: u32, c: bool) -> u32 {
    ((l + r + carry_value(c)) % 0x1_0000_0000) as u32
}

/// Whether `l + r + c` carries out of 32 bits.
pub open spec fn add_carry(l: u32, r: u32, c: bool) -> bool {
    l + r + carry_value(c) > 0xFFFF_FFFF
}

/// Two's-complement overflow of `l + r + c`: the operands' signs agree and the result's
/// differs.
pub open spec fn add_overflow(l: u32, r: u32, c: bool) -> bool {
    is_negative(l) == is_negative(r) && is_negative(l) != is_negative(add_result(l, r, c))
}

/// The flags after an add-with-carry: carry, sign and overflow from the sum, zero kept.
pub open spec fn add_flags(f: Flags, l: u32, r: u32, c: bool) -> Flags {
    Flags {
        carry: add_carry(l, r, c),
        zero: f.zero,
        sign: is_negative(add_result(l, r, c)),
        overflow: add_overflow(l, r, c),
    }
}

/// Add with carry: the 32-bit sum and the carry out.
pub fn carry_add(lhs: u32, rhs: u32, c_in: bool) -> (r: (u32, bool))
    ensures
        r.0 == add_result(lhs, rhs, c_in),
        r.1 == add_carry(lhs, rhs, c_in),
{
    let c: u64 = if c_in {
        1
    } else {
        0
    };
    let sum: u64 = lhs as u64 + rhs as u64 + c;
    if sum > 0xFFFF_FFFF {
        ((sum - 0x1_0000_0000) as u32, true)
    } else {
        (sum as u32, false)
    }
}

/// The result of ALU operation `op` (add, sub, and, or, xor, shl, lsr, asr) on `l` and
/// `r`; shifts use the low five bits of `r`.
pub open spec fn alu_result(op: u32, l: u32, r: u32) -> u32 {
    if op == 0 {
        add_result(l, r, false)
    } else if op == 1 {
        add_result(l, !r, true)
    } else if op == 2 {
        l & r
    } else if op == 3 {
        l | r
    } else if op == 4 {
        l ^ r
    } else if op == 5 {
        l << field(r, 0, 0x1F)
    } else if op == 6 {
        l >> field(r, 0, 0x1F)
    } else {
        ashr(l, field(r, 0, 0x1F))
    }
}

/// The flags after ALU operation `op`: add and sub set carry, sign and overflow as an
/// add-with-carry does; every operation sets zero from its result.
pub open spec fn alu_flags(op: u32, l: u32, r: u32, f: Flags) -> Flags {
    let f1 = if op == 0 {
        add_flags(f, l, r, false)
    } else if op == 1 {
        add_flags(f, l, !r, true)
    } else {
        f
    };
    Flags { zero: alu_result(op, l, r) == 0, ..f1 }
}

/// Effect of the 16-bit load-immediate (`ldi`) / add-immediate (`addi`) form.
pub open spec fn ldi_addi_16_spec(s: CpuView, i: u32) -> CpuView {
    let rd = field(i, 12, 0xF) as int;
    let imm = imm_ldi_16(i);
    if field(i, 1, 1) == 0 {
        with_reg(s, rd, imm)
    } else {
        let sum = add_result(s.regs[rd], imm, false);
        with_reg(
            with_flags(s, Flags { zero: sum == 0, ..add_flags(s.flags, s.regs[rd], imm, false) }),
            rd,
            sum,
        )
    }
}

/// Effect of the 16-bit jump form: to base register plus offset, bit 0 cleared; with bit
/// 2 set the return address is saved in `ra` first.
pub open spec fn jump_16_spec(s: CpuView, i: u32) -> CpuView {
    let target = clear_low(s.regs[field(i, 12, 0xF) as int].wrapping_add(imm_jump_16(i)));
    let s1 = if field(i, 2, 1) == 1 {
        with_reg(s, REG_RA as int, s.pc)
    } else {
        s
    };
    with_pc(s1, target)
}

/// Effect of a PC-relative branch on condition `cond` with offset `imm`.
pub open spec fn branch_spec(s: CpuView, cond: BranchCondition, imm: u32) -> CpuView {
    let s1 = if cond == BranchCondition::Link {
        with_reg(s, REG_RA as int, s.pc)
    } else {
        s
    };
    if satisfies_branch(s.flags, cond) {
        with_pc(s1, clear_low(s.pc.wrapping_add(imm)))
    } else {
        s1
    }
}

/// Effect of the 16-bit branch form.
pub open spec fn branch_16_spec(s: CpuView, i: u32) -> CpuView {
    branch_spec(s, branch_condition_of(field(i, 12, 0x7)), imm_branch_16(i))
}

/// Effect of the upper-immediate form: load the immediate, or with bit 3 set add it to
/// the PC.
pub open spec fn uimm_32_spec(s: CpuView, i: u32) -> CpuView {
    let rd = field(i, 12, 0x1F) as int;
    if field(i, 3, 1) == 0 {
        with_reg(s, rd, imm_upper_32(i))
    } else {
        with_reg(s, rd, s.pc.wrapping_add(imm_upper_32(i)))
    }
}

/// Effect of ALU operation `op` on `l` and `r` written to register `rd`.
pub open spec fn alu_spec(s: CpuView, rd: int, op: u32, l: u32, r: u32) -> CpuView {
    with_flags(with_reg(s, rd, alu_result(op, l, r)), alu_flags(op, l, r, s.flags))
}

/// Effect of the 16-bit two-register ALU form.
pub open spec fn alu_16_spec(s: CpuView, i: u32) -> CpuView {
    let rd = field(i, 12, 0xF) as int;
    alu_spec(s, rd, field(i, 5, 0x7), s.regs[rd], s.regs[field(i, 8, 0xF) as int])
}

/// Effect of the 16-bit conditional move.
pub open spec fn mov_16_spec(s: CpuView, i: u32) -> CpuView {
    if satisfies(s.flags, condition_of(field(i, 5, 0x7))) {
        with_reg(s, field(i, 12, 0xF) as int, s.regs[field(i, 8, 0xF) as int])
    } else {
        s
    }
}

/// Effect of the 16-bit compare: the flags of `rs1 - rs2`, zero included; no register
/// changes.
pub open spec fn cmp_16_spec(s: CpuView, i: u32) -> CpuView {
    let l = s.regs[field(i, 12, 0xF) as int];
    let r = s.regs[field(i, 8, 0xF) as int];
    with_flags(
        s,
        Flags { zero: add_result(l, !r, true) == 0, ..add_flags(s.flags, l, !r, true) },
    )
}

/// Effect of the 16-bit shift-immediate form (`op` 1: shl, 2: lsr, 3: asr).
pub open spec fn alui_16_spec(s: CpuView, i: u32) -> CpuView {
    let rd = field(i, 12, 0xF) as int;
    alu_spec(s, rd, (field(i, 5, 0x3) + 4) as u32, s.regs[rd], field(i, 7, 0x1F))
}

/// Effect of the 32-bit jump-and-link form: the return address goes to `rd`.
pub open spec fn jump_32_spec(s: CpuView, i: u32) -> CpuView {
    let target = clear_low(s.regs[field(i, 17, 0x1F) as int].wrapping_add(imm_jump_32(i)));
    with_pc(with_reg(s, field(i, 12, 0x1F) as int, s.pc), target)
}

/// Effect of the 32-bit branch form.
pub open spec fn branch_32_spec(s: CpuView, i: u32) -> CpuView {
    branch_spec(s, branch_condition_of(field(i, 12, 0x7)), imm_branch_32(i))
}

/// Effect of the 32-bit register-immediate ALU form.
pub open spec fn alui_32_spec(s: CpuView, i: u32) -> CpuView {
    alu_spec(
        s,
        field(i, 12, 0x1F) as int,
        field(i, 24, 0x7),
        s.regs[field(i, 17, 0x1F) as int],
        imm_reg_32(i),
    )
}

/// Effect of the 32-bit conditional move-immediate: the immediate when the condition
/// holds, else `rs1`.
pub open spec fn movi_32_spec(s: CpuView, i: u32) -> CpuView {
    let v = if satisfies(s.flags, condition_of(field(i, 24, 0x7))) {
        imm_reg_32(i)
    } else {
        s.regs[field(i, 17, 0x1F) as int]
    };
    with_reg(s, field(i, 12, 0x1F) as int, v)
}

/// Effect of the 32-bit three-register ALU form.
pub open spec fn alu_32_spec(s: CpuView, i: u32) -> CpuView {
    alu_spec(
        s,
        field(i, 12, 0x1F) as int,
        field(i, 24, 0x7),
        s.regs[field(i, 17, 0x1F) as int],
        s.regs[rs2_32(i) as int],
    )
}

/// Effect of the 32-bit conditional move: `rs2` when the condition holds, else `rs1`.
pub open spec fn mov_32_spec(s: CpuView, i: u32) -> CpuView {
    let v = if satisfies(s.flags, condition_of(field(i, 24, 0x7))) {
        s.regs[rs2_32(i) as int]
    } else {
        s.regs[field(i, 17, 0x1F) as int]
    };
    with_reg(s, field(i, 12, 0x1F) as int, v)
}

/// Effect of the carry-chained add/sub form (`op` 0: addc, 1: subc, others illegal): the
/// stored carry is the carry-in, and zero is only ever cleared, so that it stays set
/// only while every word of a chain is zero.
pub open spec fn aluc_32_spec(s: CpuView, i: u32) -> Result<CpuView, ExceptionKind> {
    let op = field(i, 24, 0x7);
    let l = s.regs[field(i, 17, 0x1F) as int];
    let r0 = s.regs[rs2_32(i) as int];
    let r = if op == 0 {
        r0
    } else {
        !r0
    };
    let res = add_result(l, r, s.flags.carry);
    if op >= 2 {
        Err(ExceptionKind::IllegalInstruction)
    } else {
        Ok(
            with_flags(
                with_reg(s, field(i, 12, 0x1F) as int, res),
                Flags { zero: s.flags.zero && res == 0, ..add_flags(s.flags, l, r, s.flags.carry) },
            ),
        )
    }
}

impl Cpu {
    /// Add with carry on the live flags: sets carry, sign and overflow (not zero) and
    /// returns the 32-bit sum.
    pub fn execute_add(&mut self, lhs: u32, rhs: u32, c_in: bool) -> (r: u32)
        requires
            old(self).wf(),
        ensures
            final(self).wf(),
            r == add_result(lhs, rhs, c_in),
            final(self)@ == with_flags(old(self)@, add_flags(old(self)@.flags, lhs, rhs, c_in)),
    {
        let lhs_sign = lhs >= 0x8000_0000;
        let rhs_sign = rhs >= 0x8000_0000;
        let (result, c_out) = carry_add(lhs, rhs, c_in);
        let result_sign = result >= 0x8000_0000;
        self.state.flags.carry = c_out;
        self.state.flags.sign = result_sign;
        self.state.flags.overflow = (lhs_sign == rhs_sign) && (lhs_sign != result_sign);
        result
    }

    /// ALU operation `op` on `lhs` and `rhs`, setting the flags as the operation does.
    fn execute_alu(&mut self, op: u32, lhs: u32, rhs: u32) -> (r: u32)
        requires
            old(self).wf(),
            op < 8,
        ensures
            final(self).wf(),
            r == alu_result(op, lhs, rhs),
            final(self)@ == with_flags(old(self)@, alu_flags(op, lhs, rhs, old(self)@.flags)),
    {
        proof {
            lemma_field_bound(rhs, 0, 0x1F);
        }
        let result = match op {
            0 => self.execute_add(lhs, rhs, false),
            1 => self.execute_add(lhs, !rhs, true),
            2 => lhs & rhs,
            3 => lhs | rhs,
            4 => lhs ^ rhs,
            5 => lhs << field(rhs, 0, 0x1F),
            6 => lhs >> field(rhs, 0, 0x1F),
            _ => ashr(lhs, field(rhs, 0, 0x1F)),
        };
        self.state.flags.zero = result == 0;
        result
    }

    /// Executes the 16-bit load-immediate / add-immediate form.
    pub fn ldi_addi_16(&mut self, instruction: u32)
        requires
            old(self).wf(),
        ensures
            final(self).wf(),
            final(self)@ == ldi_addi_16_spec(old(self)@, instruction),
    {
        let rd = reg4(instruction, 12);
        let imm = imm_ldi_16(instruction);
        if field(instruction, 1, 1) == 0 {
            self.set_reg(rd, imm);
        } else {
            let sum = self.execute_add(self.get_reg(rd), imm, false);
            self.state.flags.zero = sum == 0;
            self.set_reg(rd, sum);
        }
    }

    /// Executes the 16-bit jump form.
    pub fn jump_16(&mut self, instruction: u32)
        requires
            old(self).wf(),
        ensures
            final(self).wf(),
            final(self)@ == jump_16_spec(old(self)@, instruction),
    {
        let rb = reg4(instruction, 12);
        let imm = imm_jump_16(instruction);
        let base = self.get_reg(rb);
        let jump_addr = clear_low(base.wrapping_add(imm));
        if field(instruction, 2, 1) != 0 {
            proof {
                lemma_field_bound(instruction, 2, 1);
            }
            self.set_reg(REG_RA, self.program_counter);
        }
        proof {
            lemma_clear_low_even(base.wrapping_add(imm));
        }
        self.program_counter = jump_addr;
    }

    /// A branch on `cond` by `imm` relative to the PC.
    fn branch(&mut self, cond: BranchCondition, imm: u32)
        requires
            old(self).wf(),
        ensures
            final(self).wf(),
            final(self)@ == branch_spec(old(self)@, cond, imm),
    {
        if cond == BranchCondition::Link {
            self.set_reg(REG_RA, self.program_counter);
        }
        if self.state.flags.satisfy_branch(cond) {
            proof {
                lemma_clear_low_even(self.program_counter.wrapping_add(imm));
            }
            self.program_counter = clear_low(self.program_counter.wrapping_add(imm));
        }
    }

    /// Executes the 16-bit branch form.
    pub fn branch_16(&mut self, instruction: u32)
        requires
            old(self).wf(),
        ensures
            final(self).wf(),
            final(self)@ == branch_16_spec(old(self)@, instruction),
    {
        proof {
            lemma_field_bound(instruction, 12, 0x7);
        }
        let cond = BranchCondition::from_code(field(instruction, 12, 0x7));
        self.branch(cond, imm_branch_16(instruction));
    }

    /// Executes the upper-immediate / add-PC-upper form.
    pub fn uimm_32(&mut self, instruction: u32)
        requires
            old(self).wf(),
        ensures
            final(self).wf(),
            final(self)@ == uimm_32_spec(old(self)@, instruction),
    {
        let rd = reg5(instruction, 12);
        let imm = imm_upper_32(instruction);
        if field(instruction, 3, 1) == 0 {
            self.set_reg(rd, imm);
        } else {
            self.set_reg(rd, self.program_counter.wrapping_add(imm));
        }
    }

    /// Executes the 16-bit two-register ALU form.
    pub fn alu_16(&mut self, instruction: u32)
        requires
            old(self).wf(),
        ensures
            final(self).wf(),
            final(self)@ == alu_16_spec(old(self)@, instruction),
    {
        let rd_rs1 = reg4(instruction, 12);
        let rs2 = reg4(instruction, 8);
        proof {
            lemma_field_bound(instruction, 5, 0x7);
        }
        let lhs = self.get_reg(rd_rs1);
        let rhs = self.get_reg(rs2);
        let result = self.execute_alu(field(instruction, 5, 0x7), lhs, rhs);
        self.set_reg(rd_rs1, result);
    }

    /// Executes the 16-bit conditional move.
    pub fn mov_16(&mut self, instruction: u32)
        requires
            old(self).wf(),
        ensures
            final(self).wf(),
            final(self)@ == mov_16_spec(old(self)@, instruction),
    {
        let rd_rs1 = reg4(instruction, 12);
        let rs2 = reg4(instruction, 8);
        proof {
            lemma_field_bound(instruction, 5, 0x7);
        }
        let cond = Condition::from_code(field(instruction, 5, 0x7));
        if self.state.flags.satisfy(cond) {
            let value = self.get_reg(rs2);
            self.set_reg(rd_rs1, value);
        }
    }

    /// Executes the 16-bit compare.
    pub fn cmp_16(&mut self, instruction: u32)
        requires
            old(self).wf(),
        ensures
            final(self).wf(),
            final(self)@ == cmp_16_spec(old(self)@, instruction),
    {
        let rs1 = reg4(instruction, 12);
        let rs2 = reg4(instruction, 8);
        let lhs = self.get_reg(rs1);
        let rhs = self.get_reg(rs2);
        let result = self.execute_add(lhs, !rhs, true);
        self.state.flags.zero = result == 0;
    }

    /// Executes the 16-bit shift-immediate form.
    pub fn alui_16(&mut self, instruction: u32)
        requires
            old(self).wf(),
        ensures
            final(self).wf(),
            final(self)@ == alui_16_spec(old(self)@, instruction),
    {
        let rd_rs1 = reg4(instruction, 12);
        proof {
            lemma_field_bound(instruction, 5, 0x3);
            lemma_field_bound(instruction, 7, 0x1F);
        }
        let lhs = self.get_reg(rd_rs1);
        let result = self.execute_alu(field(instruction, 5, 0x3) + 4, lhs, field(instruction, 7, 0x1F));
        self.set_reg(rd_rs1, result);
    }

    /// Executes the 32-bit jump-and-link form.
    pub fn jump_32(&mut self, instruction: u32)
        requires
            old(self).wf(),
        ensures
            final(self).wf(),
            final(self)@ == jump_32_spec(old(self)@, instruction),
    {
        let rd = reg5(instruction, 12);
        let rb = reg5(instruction, 17);
        let imm = imm_jump_32(instruction);
        let base = self.get_reg(rb);
        let jump_addr = clear_low(base.wrapping_add(imm));
        proof {
            lemma_clear_low_even(base.wrapping_add(imm));
        }
        self.set_reg(rd, self.program_counter);
        self.program_counter = jump_addr;
    }

    /// Executes the 32-bit branch form.
    pub fn branch_32(&mut self, instruction: u32)
        requires
            old(self).wf(),
        ensures
            final(self).wf(),
            final(self)@ == branch_32_spec(old(self)@, instruction),
    {
        proof {
            lemma_field_bound(instruction, 12, 0x7);
        }
        let cond = BranchCondition::from_code(field(instruction, 12, 0x7));
        self.branch(cond, imm_branch_32(instruction));
    }

    /// Executes the 32-bit register-immediate ALU form.
    pub fn alui_32(&mut self, instruction: u32)
        requires
            old(self).wf(),
        ensures
            final(self).wf(),
            final(self)@ == alui_32_spec(old(self)@, instruction),
    {
        let rd = reg5(instruction, 12);
        let rs1 = reg5(instruction, 17);
        proof {
            lemma_field_bound(instruction, 24, 0x7);
        }
        let lhs = self.get_reg(rs1);
        let result = self.execute_alu(field(instruction, 24, 0x7), lhs, imm_reg_32(instruction));
        self.set_reg(rd, result);
    }

    /// Executes the 32-bit conditional move-immediate.
    pub fn movi_32(&mut self, instruction: u32)
        requires
            old(self).wf(),
        ensures
            final(self).wf(),
            final(self)@ == movi_32_spec(old(self)@, instruction),
    {
        let rd = reg5(instruction, 12);
        let rs1 = reg5(instruction, 17);
        proof {
            lemma_field_bound(instruction, 24, 0x7);
        }
        let cond = Condition::from_code(field(instruction, 24, 0x7));
        let value = if self.state.flags.satisfy(cond) {
            imm_reg_32(instruction)
        } else {
            self.get_reg(rs1)
        };
        self.set_reg(rd, value);
    }

    /// Executes the 32-bit three-register ALU form.
    pub fn alu_32(&mut self, instruction: u32)
        requires
            old(self).wf(),
        ensures
            final(self).wf(),
            final(self)@ == alu_32_spec(old(self)@, instruction),
    {
        let rs1 = reg5(instruction, 17);
        let rd = reg5(instruction, 12);
        proof {
            lemma_rs2_32_bound(instruction);
            lemma_field_bound(instruction, 24, 0x7);
        }
        let rs2 = rs2_32(instruction) as usize;
        let lhs = self.get_reg(rs1);
        let rhs = self.get_reg(rs2);
        let result = self.execute_alu(field(instruction, 24, 0x7), lhs, rhs);
        self.set_reg(rd, result);
    }

    /// Executes the 32-bit conditional move.
    pub fn mov_32(&mut self, instruction: u32)
        requires
            old(self).wf(),
        ensures
            final(self).wf(),
            final(self)@ == mov_32_spec(old(self)@, instruction),
    {
        let rs1 = reg5(instruction, 17);
        let rd = reg5(instruction, 12);
        proof {
            lemma_rs2_32_bound(instruction);
            lemma_field_bound(instruction, 24, 0x7);
        }
        let rs2 = rs2_32(instruction) as usize;
        let cond = Condition::from_code(field(instruction, 24, 0x7));
        let value = if self.state.flags.satisfy(cond) {
            self.get_reg(rs2)
        } else {
            self.get_reg(rs1)
        };
        self.set_reg(rd, value);
    }

    /// Executes the carry-chained add/sub form.
    pub fn aluc_32(&mut self, instruction: u32) -> (r: Result<(), ExceptionKind>)
        requires
            old(self).wf(),
        ensures
            final(self).wf(),
            match aluc_32_spec(old(self)@, instruction) {
                Ok(s) => r == Ok::<(), ExceptionKind>(()) && final(self)@ == s,
                Err(e) => r == Err::<(), ExceptionKind>(e) && final(self)@ == old(self)@,
            },
    {
        let rs1 = reg5(instruction, 17);
        let rd = reg5(instruction, 12);
        proof {
            lemma_rs2_32_bound(instruction);
        }
        let rs2 = rs2_32(instruction) as usize;
        let lhs = self.get_reg(rs1);
        let rhs = self.get_reg(rs2);
        let c_in = self.state.flags.carry;
        let op = field(instruction, 24, 0x7);
        if op >= 2 {
            return Err(ExceptionKind::IllegalInstruction);
        }
        let operand = if op == 0 {
            rhs
        } else {
            !rhs
        };
        let ghost s0 = self@;
        let result = self.execute_add(lhs, operand, c_in);
        self.set_reg(rd, result);
        if result != 0 {
            self.state.flags.zero = false;
        }
        assert(self@ == with_flags(
            with_reg(s0, rd as int, result),
            Flags { zero: s0.flags.zero && result == 0, ..add_flags(s0.flags, lhs, operand, c_in) },
        ));
        Ok(())
    }
}

/// `x` read as a two's-complement 32-bit number.
pub open spec fn signed(x: u32) -> int {
    if x >= 0x8000_0000 {
        x - 0x1_0000_0000
    } else {
        x as int
    }
}

/// The absolute value of `x`.
pub open spec fn abs(x: int) -> int {
    if x < 0 {
        -x
    } else {
        x
    }
}

/// `x` modulo 2^32.
pub open spec fn to_u32(x: int) -> u32 {
    (x % 0x1_0000_0000) as u32
}

/// The high 32 bits of the 64-bit two's-complement product `p`.
pub open spec fn mul_high(p: int) -> u32 {
    to_u32(p / 0x1_0000_0000)
}

/// Division truncated toward zero.
pub open spec fn div_trunc(x: int, d: int) -> int {
    if (x < 0) != (d < 0) {
        -(abs(x) / abs(d))
    } else {
        abs(x) / abs(d)
    }
}

/// The remainder of division truncated toward zero; it takes the dividend's sign.
pub open spec fn rem_trunc(x: int, d: int) -> int {
    if x < 0 {
        -(abs(x) % abs(d))
    } else {
        abs(x) % abs(d)
    }
}

/// The result of multiply/divide operation `op` (mul, mulhuu, mulhss, mulhus, divu, divs,
/// remu, rems). Division by zero gives all ones (divu), `i32::MIN` or `i32::MAX` by the
/// dividend's sign (divs), and zero (remu, rems).
pub open spec fn mul_result(op: u32, l: u32, r: u32) -> u32 {
    if op == 0 {
        l.wrapping_mul(r)
    } else if op == 1 {
        mul_high(l * r)
    } else if op == 2 {
        mul_high(signed(l) * signed(r))
    } else if op == 3 {
        mul_high(l * signed(r))
    } else if op == 4 {
        if r == 0 {
            0xFFFF_FFFF
        } else {
            (l / r) as u32
        }
    } else if op == 5 {
        if r == 0 {
            if signed(l) < 0 {
                0x8000_0000
            } else {
                0x7FFF_FFFF
            }
        } else {
            to_u32(div_trunc(signed(l), signed(r)))
        }
    } else if op == 6 {
        if r == 0 {
            0
        } else {
            (l % r) as u32
        }
    } else {
        if r == 0 {
            0
        } else {
            to_u32(rem_trunc(signed(l), signed(r)))
        }
    }
}

/// The flags after multiply/divide operation `op`: `mul` sets zero from its result, the
/// high-half forms only clear it on a nonzero result, division leaves the flags alone.
pub open spec fn mul_flags(op: u32, l: u32, r: u32, f: Flags) -> Flags {
    if op == 0 {
        Flags { zero: mul_result(op, l, r) == 0, ..f }
    } else if op <= 3 {
        Flags { zero: f.zero && mul_result(op, l, r) == 0, ..f }
    } else {
        f
    }
}

/// Effect of the 32-bit multiply/divide form.
pub open spec fn mul_32_spec(s: CpuView, i: u32) -> CpuView {
    let op = field(i, 24, 0x7);
    let l = s.regs[field(i, 17, 0x1F) as int];
    let r = s.regs[rs2_32(i) as int];
    with_flags(with_reg(s, field(i, 12, 0x1F) as int, mul_result(op, l, r)), mul_flags(op, l, r, s.flags))
}

/// `-q` modulo 2^32.
fn negate(q: u32) -> (r: u32)
    ensures
        r == to_u32(-(q as int)),
{
    0u32.wrapping_sub(q)
}

/// The magnitude of `x` read as a two's-complement number.
fn magnitude(x: u32) -> (r: u32)
    ensures
        r == abs(signed(x)),
{
    if x >= 0x8000_0000 {
        0u32.wrapping_sub(x)
    } else {
        x
    }
}

/// The high half of the product of magnitudes `ml` and `mr`, negated when `neg`.
fn signed_mul_high(neg: bool, ml: u32, mr: u32) -> (r: u32)
    requires
        neg ==> mr <= 0x8000_0000,
    ensures
        r == mul_high(
            if neg {
                -(ml * mr)
            } else {
                ml * mr
            },
        ),
{
    assert(ml * mr <= 0xFFFF_FFFF * 0xFFFF_FFFF) by (nonlinear_arith)
        requires
            ml <= 0xFFFF_FFFF,
            mr <= 0xFFFF_FFFF,
    ;
    let p: u64 = ml as u64 * mr as u64;
    if neg {
        assert(ml * mr <= 0xFFFF_FFFF * 0x8000_0000) by (nonlinear_arith)
            requires
                ml <= 0xFFFF_FFFF,
                mr <= 0x8000_0000,
        ;
        let k: u64 = (p + 0xFFFF_FFFF) / 0x1_0000_0000;
        assert(-(p as int) / 0x1_0000_0000 == -(k as int));
        negate(k as u32)
    } else {
        (p / 0x1_0000_0000) as u32
    }
}

impl Cpu {
    /// Executes the 32-bit multiply/divide form.
    pub fn mul_32(&mut self, instruction: u32)
        requires
            old(self).wf(),
        ensures
            final(self).wf(),
            final(self)@ == mul_32_spec(old(self)@, instruction),
    {
        let rs1 = reg5(instruction, 17);
        let rd = reg5(instruction, 12);
        proof {
            lemma_rs2_32_bound(instruction);
        }
        let rs2 = rs2_32(instruction) as usize;
        let lhs = self.get_reg(rs1);
        let rhs = self.get_reg(rs2);
        let op = field(instruction, 24, 0x7);
        let ghost s0 = self@;
        let result: u32 = if op == 0 {
            let result = lhs.wrapping_mul(rhs);
            self.state.flags.zero = result == 0;
            result
        } else if op <= 3 {
            let neg_l = op == 2 && lhs >= 0x8000_0000;
            let neg_r = rhs >= 0x8000_0000 && op >= 2;
            let ml = if op == 2 { magnitude(lhs) } else { lhs };
            let mr = if op >= 2 { magnitude(rhs) } else { rhs };
            proof {
                lemma_signed_product(op, lhs, rhs, ml, mr, neg_l != neg_r);
            }
            let result = signed_mul_high(neg_l != neg_r, ml, mr);
            if result != 0 {
                self.state.flags.zero = false;
            }
            result
        } else if op == 4 {
            if rhs == 0 {
                0xFFFF_FFFF
            } else {
                lhs / rhs
            }
        } else if op == 5 {
            if rhs == 0 {
                if lhs >= 0x8000_0000 {
                    0x8000_0000
                } else {
                    0x7FFF_FFFF
                }
            } else {
                let q = magnitude(lhs) / magnitude(rhs);
                if (lhs >= 0x8000_0000) != (rhs >= 0x8000_0000) {
                    negate(q)
                } else {
                    q
                }
            }
        } else if op == 6 {
            if rhs == 0 {
                0
            } else {
                lhs % rhs
            }
        } else {
            if rhs == 0 {
                0
            } else {
                let m = magnitude(lhs) % magnitude(rhs);
                if lhs >= 0x8000_0000 {
                    negate(m)
                } else {
                    m
                }
            }
        };
        assert(result == mul_result(op, lhs, rhs));
        assert(self@.flags == mul_flags(op, lhs, rhs, s0.flags));
        self.set_reg(rd, result);
    }
}

/// The product the high-half forms take, written as a sign and a product of magnitudes.
proof fn lemma_signed_product(op: u32, l: u32, r: u32, ml: u32, mr: u32, neg: bool)
    requires
        1 <= op <= 3,
        ml == (if op == 2 { abs(signed(l)) } else { l as int }),
        mr == (if op >= 2 { abs(signed(r)) } else { r as int }),
        neg == ((op == 2 && l >= 0x8000_0000) != (r >= 0x8000_0000 && op >= 2)),
    ensures
        neg ==> mr <= 0x8000_0000,
        (if neg { -(ml * mr) } else { ml * mr }) == (if op == 1 {
            l * r
        } else if op == 2 {
            signed(l) * signed(r)
        } else {
            l * signed(r)
        }),
{
    let sl = signed(l);
    let sr = signed(r);
    if op == 2 {
        assert(sl * sr == (if neg { -(ml * mr) } else { ml * mr })) by (nonlinear_arith)
            requires
                ml == abs(sl),
                mr == abs(sr),
                neg == ((sl < 0) != (sr < 0)),
        ;
    } else if op == 3 {
        assert(l * sr == (if neg { -(ml * mr) } else { ml * mr })) by (nonlinear_arith)
            requires
                ml == l,
                l >= 0,
                mr == abs(sr),
                neg == (sr < 0),
        ;
    }
}

/// Effect of the 16-bit system form (`ret`, `sysret`, `fence`, `ifence`, `envcall`,
/// `syscall`) and what it reports: an environment code, or a fault.
pub open spec fn sys_16_spec(s: CpuView, i: u32) -> (CpuView, Result<Option<u8>, Fault>) {
    let op = field(i, 8, 0xF);
    let slot = field(i, 12, 0xF);
    if op == 0 {
        (with_pc(s, clear_low(s.regs[REG_RA as int])), Ok(None))
    } else if op == 1 {
        if s.interrupt_state == InterruptState::Servicing {
            (leave_interrupt_spec(s), Ok(None))
        } else {
            (s, Err(Fault::Exception(ExceptionKind::IllegalInstruction)))
        }
    } else if op <= 3 {
        (s, Ok(None))
    } else if op <= 13 {
        (s, Err(Fault::Exception(ExceptionKind::IllegalInstruction)))
    } else if op == 14 {
        (s, Ok(Some(slot as u8)))
    } else if s.interrupt_state == InterruptState::Servicing {
        (s, Err(Fault::Fatal(FatalError::NestedSoftwareInterrupt)))
    } else {
        (enter_interrupt_spec(s, s.software_table[slot as int]), Ok(None))
    }
}

/// First address of the hardware vector table in the I/O space.
pub const HARD_INT_TABLE_START: u32 = 0x000;
/// First address of the software vector table.
pub const SOFT_INT_TABLE_START: u32 = 0x010;
/// First address of the exception vector table.
pub const EXCEPTION_TABLE_START: u32 = 0x020;
/// Address of the interrupt mask.
pub const INT_MASK_ADDR: u32 = 0x030;
/// Address of the pending-interrupt bitmap.
pub const INT_PENDING_ADDR: u32 = 0x031;
/// Address of the stored privilege level.
pub const PRIV_LEVEL_ADDR: u32 = 0x032;
/// Address of the interrupt return address.
pub const INT_RET_ADDR: u32 = 0x033;
/// Address of the shadow bank's flags.
pub const ALT_FLAGS_REG_ADDR: u32 = 0x03F;
/// First address of the shadow bank's registers.
pub const ALT_REGS_START: u32 = 0x040;

/// Whether `addr` is one of the CPU's own configuration registers, which System code
/// reaches through the I/O space instead of the bus.
pub open spec fn is_config_address(addr: u32) -> bool {
    ||| addr < 0x23
    ||| INT_MASK_ADDR <= addr <= INT_RET_ADDR
    ||| addr == ALT_FLAGS_REG_ADDR
    ||| ALT_REGS_START <= addr < ALT_REGS_START + 32
}

/// The value of configuration register `addr`.
pub open spec fn config_read(s: CpuView, addr: u32) -> u32 {
    if addr < SOFT_INT_TABLE_START {
        s.hardware_table[addr as int]
    } else if addr < EXCEPTION_TABLE_START {
        s.software_table[addr - SOFT_INT_TABLE_START]
    } else if addr < INT_MASK_ADDR {
        s.exception_table[addr - EXCEPTION_TABLE_START]
    } else if addr == INT_MASK_ADDR {
        s.interrupt_mask as u32
    } else if addr == INT_PENDING_ADDR {
        s.pending_interrupts as u32
    } else if addr == PRIV_LEVEL_ADDR {
        crate::interface::privilege_code(s.privilege_level)
    } else if addr == INT_RET_ADDR {
        s.interrupt_return_address
    } else if addr == ALT_FLAGS_REG_ADDR {
        crate::register::flags_bits(s.alt_flags) as u32
    } else {
        s.alt_regs[addr - ALT_REGS_START]
    }
}

/// The state after writing `value` to configuration register `addr`: vectors and the
/// return address lose bit 0, mask and pending keep 16 bits, the privilege level takes
/// bit 0, the shadow flags the low four bits.
pub open spec fn config_write(s: CpuView, addr: u32, value: u32) -> CpuView {
    if addr < SOFT_INT_TABLE_START {
        CpuView { hardware_table: s.hardware_table.update(addr as int, clear_low(value)), ..s }
    } else if addr < EXCEPTION_TABLE_START {
        CpuView {
            software_table: s.software_table.update(addr - SOFT_INT_TABLE_START, clear_low(value)),
            ..s
        }
    } else if addr < INT_MASK_ADDR {
        CpuView {
            exception_table: s.exception_table.update(
                addr - EXCEPTION_TABLE_START,
                clear_low(value),
            ),
            ..s
        }
    } else if addr == INT_MASK_ADDR {
        CpuView { interrupt_mask: value as u16, ..s }
    } else if addr == INT_PENDING_ADDR {
        CpuView { pending_interrupts: value as u16, ..s }
    } else if addr == PRIV_LEVEL_ADDR {
        CpuView {
            privilege_level: if value % 2 == 0 {
                PrivilegeLevel::System
            } else {
                PrivilegeLevel::User
            },
            ..s
        }
    } else if addr == INT_RET_ADDR {
        CpuView { interrupt_return_address: clear_low(value), ..s }
    } else if addr == ALT_FLAGS_REG_ADDR {
        CpuView { alt_flags: crate::register::flags_of_bits(value as u8), ..s }
    } else {
        CpuView { alt_regs: regs_set(s.alt_regs, addr - ALT_REGS_START, value), ..s }
    }
}

/// Whether an I/O access at `addr` with privilege `p` is served by the CPU itself.
pub open spec fn intercepted(addr: u32, p: PrivilegeLevel) -> bool {
    p == PrivilegeLevel::System && is_config_address(addr)
}

/// What an `in` at `addr` returns.
pub open spec fn read_io_spec<I: IoInterface>(s: CpuView, io: I, addr: u32, p: PrivilegeLevel) -> Result<
    u32,
    IoError,
> {
    if intercepted(addr, p) {
        Ok(config_read(s, addr))
    } else {
        io.read_result(addr, p)
    }
}

/// The state after an `out` of `value` at `addr`, and what it returns.
pub open spec fn write_io_spec<I: IoInterface>(
    s: CpuView,
    io: I,
    addr: u32,
    value: u32,
    p: PrivilegeLevel,
) -> (CpuView, Result<(), IoError>) {
    if intercepted(addr, p) {
        (config_write(s, addr, value), Ok(()))
    } else {
        (s, io.write_result(addr, value, p))
    }
}

impl Cpu {
    /// Executes the 16-bit system form.
    pub fn sys_16(&mut self, instruction: u32) -> (r: Result<Option<u8>, Fault>)
        requires
            old(self).wf(),
        ensures
            final(self).wf(),
            (final(self)@, r) == sys_16_spec(old(self)@, instruction),
    {
        proof {
            lemma_field_bound(instruction, 8, 0xF);
            lemma_field_bound(instruction, 12, 0xF);
        }
        let op = field(instruction, 8, 0xF);
        let slot = field(instruction, 12, 0xF);
        if op == 0 {
            let ra = self.get_reg(REG_RA);
            proof {
                lemma_clear_low_even(ra);
            }
            self.program_counter = clear_low(ra);
        } else if op == 1 {
            match self.interrupt_state {
                InterruptState::Servicing => {
                    self.leave_interrupt();
                },
                InterruptState::Listening => {
                    return Err(Fault::Exception(ExceptionKind::IllegalInstruction));
                },
            }
        } else if op <= 3 {
        } else if op <= 13 {
            return Err(Fault::Exception(ExceptionKind::IllegalInstruction));
        } else if op == 14 {
            return Ok(Some(slot as u8));
        } else {
            match self.interrupt_state {
                InterruptState::Servicing => {
                    return Err(Fault::Fatal(FatalError::NestedSoftwareInterrupt));
                },
                InterruptState::Listening => {
                    let vector = self.software_interrupt_table[slot as usize];
                    self.enter_interrupt(vector);
                },
            }
        }
        Ok(None)
    }

    /// An `in` at `addr`: System code reads the CPU's configuration registers, anything
    /// else goes to the bus.
    pub fn read_io<Io: IoInterface>(&mut self, io: &mut Io, addr: u32, priv_level: PrivilegeLevel) -> (r:
        Result<u32, IoError>)
        requires
            old(self).wf(),
        ensures
            final(self).wf(),
            final(self)@ == old(self)@,
            r == read_io_spec(old(self)@, *old(io), addr, priv_level),
            if intercepted(addr, priv_level) {
                *final(io) == *old(io)
            } else {
                old(io).read_post(addr, priv_level, *final(io))
            },
    {
        if priv_level == PrivilegeLevel::System {
            if addr < SOFT_INT_TABLE_START {
                return Ok(self.hardware_interrupt_table[addr as usize]);
            } else if addr < EXCEPTION_TABLE_START {
                return Ok(self.software_interrupt_table[(addr - SOFT_INT_TABLE_START) as usize]);
            } else if addr < EXCEPTION_TABLE_START + 3 {
                return Ok(self.exception_table[(addr - EXCEPTION_TABLE_START) as usize]);
            } else if addr == INT_MASK_ADDR {
                return Ok(self.interrupt_mask as u32);
            } else if addr == INT_PENDING_ADDR {
                return Ok(self.pending_interrupts as u32);
            } else if addr == PRIV_LEVEL_ADDR {
                return Ok(self.privilege_level.code());
            } else if addr == INT_RET_ADDR {
                return Ok(self.interrupt_return_address);
            } else if addr == ALT_FLAGS_REG_ADDR {
                return Ok(self.alt_state.flags.bits() as u32);
            } else if ALT_REGS_START <= addr && addr < ALT_REGS_START + 32 {
                return Ok(self.alt_state.regs.get((addr - ALT_REGS_START) as usize));
            }
        }
        io.read(addr, priv_level)
    }

    /// An `out` of `value` at `addr`: System code writes the CPU's configuration
    /// registers, anything else goes to the bus.
    pub fn write_io<Io: IoInterface>(
        &mut self,
        io: &mut Io,
        addr: u32,
        value: u32,
        priv_level: PrivilegeLevel,
    ) -> (r: Result<(), IoError>)
        requires
            old(self).wf(),
        ensures
            final(self).wf(),
            (final(self)@, r) == write_io_spec(old(self)@, *old(io), addr, value, priv_level),
            if intercepted(addr, priv_level) {
                *final(io) == *old(io)
            } else {
                old(io).write_post(addr, value, priv_level, *final(io))
            },
    {
        if priv_level == PrivilegeLevel::System {
            if addr < EXCEPTION_TABLE_START + 3 {
                proof {
                    lemma_clear_low_even(value);
                }
                if addr < SOFT_INT_TABLE_START {
                    self.hardware_interrupt_table.set(addr as usize, clear_low(value));
                } else if addr < EXCEPTION_TABLE_START {
                    self.software_interrupt_table.set(
                        (addr - SOFT_INT_TABLE_START) as usize,
                        clear_low(value),
                    );
                } else {
                    self.exception_table.set((addr - EXCEPTION_TABLE_START) as usize, clear_low(value));
                }
                return Ok(());
            } else if addr == INT_MASK_ADDR {
                self.interrupt_mask = value as u16;
                return Ok(());
            } else if addr == INT_PENDING_ADDR {
                self.pending_interrupts = value as u16;
                return Ok(());
            } else if addr == PRIV_LEVEL_ADDR {
                self.privilege_level = if value % 2 == 0 {
                    PrivilegeLevel::System
                } else {
                    PrivilegeLevel::User
                };
                return Ok(());
            } else if addr == INT_RET_ADDR {
                proof {
                    lemma_clear_low_even(value);
                }
                self.interrupt_return_address = clear_low(value);
                return Ok(());
            } else if addr == ALT_FLAGS_REG_ADDR {
                self.alt_state.flags = Flags::from_bits_truncate(value as u8);
                return Ok(());
            } else if ALT_REGS_START <= addr && addr < ALT_REGS_START + 32 {
                self.alt_state.regs.set((addr - ALT_REGS_START) as usize, value);
                return Ok(());
            }
        }
        io.write(addr, value, priv_level)
    }
}

/// The one state-changing access to memory or the bus that an instruction makes after
/// its fetch, if any.
pub enum Access {
    Nothing,
    MemRead { addr: u32, size: nat, reserve: bool },
    MemWrite { addr: u32, size: nat, value: u32, conditional: bool },
    IoRead { addr: u32 },
    IoWrite { addr: u32, value: u32 },
}

/// Whether memory went from `m0` to `m1` as access `a` at privilege `p` allows.
pub open spec fn mem_access_done<M: MemoryInterface>(a: Access, p: PrivilegeLevel, m0: M, m1: M) -> bool {
    match a {
        Access::MemRead { addr, size, reserve } => m0.read_post(addr, size, p, reserve, m1) && (
        !reserve ==> m1 == m0),
        Access::MemWrite { addr, size, value, conditional } => m0.write_post(
            addr,
            size,
            value,
            p,
            conditional,
            m1,
        ),
        _ => m1 == m0,
    }
}

/// Whether the bus went from `i0` to `i1` as access `a` at privilege `p` allows.
pub open spec fn io_access_done<I: IoInterface>(a: Access, p: PrivilegeLevel, i0: I, i1: I) -> bool {
    match a {
        Access::IoRead { addr } => i0.read_post(addr, p, i1),
        Access::IoWrite { addr, value } => i0.write_post(addr, value, p, i1),
        _ => i1 == i0,
    }
}

/// `v` (< 2^8) sign-extended from bit 7.
pub open spec fn sext_8(v: u32) -> u32 {
    if v >= 0x80 {
        (v + 0xFFFF_FF00) as u32
    } else {
        v
    }
}

/// `v` (< 2^16) sign-extended from bit 15.
pub open spec fn sext_16(v: u32) -> u32 {
    if v >= 0x8000 {
        (v + 0xFFFF_0000) as u32
    } else {
        v
    }
}

/// The register value of a loaded `size`-byte value `v`, zero- or sign-extended.
pub open spec fn extend(v: u32, size: nat, sign: bool) -> u32 {
    if !sign {
        v
    } else if size == 1 {
        sext_8(v)
    } else {
        sext_16(v)
    }
}

/// A load of `size` bytes at `addr` into `rd`: the loaded value, or the exception.
pub open spec fn load_spec<M: MemoryInterface>(
    s: CpuView,
    mem: M,
    rd: int,
    addr: u32,
    size: nat,
    sign: bool,
    p: PrivilegeLevel,
) -> (CpuView, Result<(), ExceptionKind>) {
    match mem.read_result(addr, size, p) {
        Ok(v) => (with_reg(s, rd, extend(v, size, sign)), Ok(())),
        Err(e) => (s, Err(memory_exception(e))),
    }
}

/// A store of `size` bytes at `addr`: whether it wrote, or the exception.
pub open spec fn store_spec<M: MemoryInterface>(
    mem: M,
    addr: u32,
    size: nat,
    p: PrivilegeLevel,
    conditional: bool,
) -> Result<bool, ExceptionKind> {
    match mem.write_result(addr, size, p, conditional) {
        Ok(b) => Ok(b),
        Err(e) => Err(memory_exception(e)),
    }
}

/// The low `size` bytes of `v`, as handed to the memory.
pub open spec fn truncate_to(v: u32, size: nat) -> u32 {
    if size == 1 {
        (v as u8) as u32
    } else if size == 2 {
        (v as u16) as u32
    } else {
        v
    }
}

/// Effect of the 16-bit stack-relative load/store form: a word at `sp` plus offset.
pub open spec fn mem_16_spec<M: MemoryInterface>(s: CpuView, i: u32, p: PrivilegeLevel, mem: M) -> (
    CpuView,
    Result<(), ExceptionKind>,
    Access,
) {
    let rd = field(i, 12, 0xF) as int;
    let addr = s.regs[REG_SP as int].wrapping_add(imm_stack_16(i));
    if field(i, 6, 1) == 0 {
        let (s1, r) = load_spec(s, mem, rd, addr, 4, false, p);
        (s1, r, Access::MemRead { addr, size: 4, reserve: false })
    } else {
        let r = match store_spec(mem, addr, 4, p, false) {
            Ok(_) => Ok(()),
            Err(e) => Err(e),
        };
        (s, r, Access::MemWrite { addr, size: 4, value: s.regs[rd], conditional: false })
    }
}

/// Effect of the 32-bit base-plus-offset load/store form, including `in` and `out`.
pub open spec fn mem_32_spec<M: MemoryInterface, I: IoInterface>(
    s: CpuView,
    i: u32,
    p: PrivilegeLevel,
    mem: M,
    io: I,
) -> (CpuView, Result<(), ExceptionKind>, Access) {
    let base = s.regs[field(i, 17, 0x1F) as int];
    if field(i, 6, 1) == 0 {
        let rd = field(i, 12, 0x1F) as int;
        let addr = base.wrapping_add(imm_reg_32(i));
        let op = field(i, 24, 0x7);
        if op >= 6 {
            match read_io_spec(s, io, addr, p) {
                Ok(v) => (
                    with_reg(s, rd, v),
                    Ok(()),
                    if intercepted(addr, p) {
                        Access::Nothing
                    } else {
                        Access::IoRead { addr }
                    },
                ),
                Err(e) => (
                    s,
                    Err(io_exception(e)),
                    if intercepted(addr, p) {
                        Access::Nothing
                    } else {
                        Access::IoRead { addr }
                    },
                ),
            }
        } else {
            let size: nat = if op <= 1 {
                4
            } else if op <= 3 {
                1
            } else {
                2
            };
            let sign = op == 3 || op == 5;
            let (s1, r) = load_spec(s, mem, rd, addr, size, sign, p);
            (s1, r, Access::MemRead { addr, size, reserve: false })
        }
    } else {
        let addr = base.wrapping_add(imm_store_32(i));
        let value = s.regs[rs2_32(i) as int];
        let op = field(i, 25, 0x3);
        if op == 3 {
            let (s1, r) = write_io_spec(s, io, addr, value, p);
            (
                s1,
                match r {
                    Ok(_) => Ok(()),
                    Err(e) => Err(io_exception(e)),
                },
                if intercepted(addr, p) {
                    Access::Nothing
                } else {
                    Access::IoWrite { addr, value }
                },
            )
        } else {
            let size: nat = if op == 0 {
                4
            } else if op == 1 {
                1
            } else {
                2
            };
            let r = match store_spec(mem, addr, size, p, false) {
                Ok(_) => Ok(()),
                Err(e) => Err(e),
            };
            (
                s,
                r,
                Access::MemWrite { addr, size, value: truncate_to(value, size), conditional: false },
            )
        }
    }
}

/// Effect of the load-reserve form: a load from the address in `rb` that also reserves
/// it; codes 6 and 7 are illegal.
pub open spec fn ldr_32_spec<M: MemoryInterface>(s: CpuView, i: u32, p: PrivilegeLevel, mem: M) -> (
    CpuView,
    Result<(), ExceptionKind>,
    Access,
) {
    let addr = s.regs[field(i, 17, 0x1F) as int];
    let rd = field(i, 12, 0x1F) as int;
    let op = field(i, 24, 0x7);
    if op >= 6 {
        (s, Err(ExceptionKind::IllegalInstruction), Access::Nothing)
    } else {
        let size: nat = if op <= 1 {
            4
        } else if op <= 3 {
            1
        } else {
            2
        };
        let sign = op == 3 || op == 5;
        let (s1, r) = load_spec(s, mem, rd, addr, size, sign, p);
        (s1, r, Access::MemRead { addr, size, reserve: true })
    }
}

/// Effect of the store-conditional form: a conditional store to the address in `rb`;
/// `rd` receives 1 when it wrote and 0 when not. Code 3 is illegal.
pub open spec fn stc_32_spec<M: MemoryInterface>(s: CpuView, i: u32, p: PrivilegeLevel, mem: M) -> (
    CpuView,
    Result<(), ExceptionKind>,
    Access,
) {
    let addr = s.regs[field(i, 17, 0x1F) as int];
    let rd = field(i, 12, 0x1F) as int;
    let value = s.regs[rs2_32(i) as int];
    let op = field(i, 25, 0x3);
    if op == 3 {
        (s, Err(ExceptionKind::IllegalInstruction), Access::Nothing)
    } else {
        let size: nat = if op == 0 {
            4
        } else if op == 1 {
            1
        } else {
            2
        };
        let a = Access::MemWrite { addr, size, value: truncate_to(value, size), conditional: true };
        match store_spec(mem, addr, size, p, true) {
            Ok(b) => (with_reg(s, rd, if b { 1 } else { 0 }), Ok(()), a),
            Err(e) => (s, Err(e), a),
        }
    }
}

impl Cpu {
    /// Loads `size` (1, 2 or 4) bytes at `addr` into `rd`, zero- or sign-extended.
    fn load<Mem: MemoryInterface>(
        &mut self,
        mem: &mut Mem,
        rd: usize,
        addr: u32,
        size: u32,
        sign: bool,
        priv_level: PrivilegeLevel,
        reserve: bool,
    ) -> (r: Result<(), ExceptionKind>)
        requires
            old(self).wf(),
            rd < REGISTER_COUNT,
            size == 1 || size == 2 || size == 4,
            size == 4 ==> !sign,
        ensures
            final(self).wf(),
            (final(self)@, r) == load_spec(old(self)@, *old(mem), rd as int, addr, size as nat, sign, priv_level),
            mem_access_done(
                Access::MemRead { addr, size: size as nat, reserve },
                priv_level,
                *old(mem),
                *final(mem),
            ),
    {
        let ghost rr = mem.read_result(addr, size as nat, priv_level);
        let value: u32 = if size == 4 {
            match mem.read_32(addr, priv_level, reserve) {
                Ok(v) => v,
                Err(e) => {
                    return Err(ExceptionKind::from_memory_error(e));
                },
            }
        } else if size == 2 {
            match mem.read_16(addr, priv_level, reserve) {
                Ok(v) => {
                    assert(rr == Ok::<u32, MemoryError>(v as u32));
                    if sign && v >= 0x8000 {
                    v as u32 + 0xFFFF_0000
                } else {
                    v as u32
                }
                },
                Err(e) => {
                    return Err(ExceptionKind::from_memory_error(e));
                },
            }
        } else {
            match mem.read_8(addr, priv_level, reserve) {
                Ok(v) => {
                    assert(rr == Ok::<u32, MemoryError>(v as u32));
                    if sign && v >= 0x80 {
                    v as u32 + 0xFFFF_FF00
                } else {
                    v as u32
                }
                },
                Err(e) => {
                    return Err(ExceptionKind::from_memory_error(e));
                },
            }
        };
        self.set_reg(rd, value);
        Ok(())
    }

    /// Stores the low `size` (1, 2 or 4) bytes of `value` at `addr`; returns whether it
    /// wrote.
    fn store<Mem: MemoryInterface>(
        &self,
        mem: &mut Mem,
        addr: u32,
        value: u32,
        size: u32,
        priv_level: PrivilegeLevel,
        conditional: bool,
    ) -> (r: Result<bool, ExceptionKind>)
        requires
            size == 1 || size == 2 || size == 4,
        ensures
            r == store_spec(*old(mem), addr, size as nat, priv_level, conditional),
            mem_access_done(
                Access::MemWrite { addr, size: size as nat, value: truncate_to(value, size as nat), conditional },
                priv_level,
                *old(mem),
                *final(mem),
            ),
    {
        let r = if size == 4 {
            mem.write_32(addr, value, priv_level, conditional)
        } else if size == 2 {
            mem.write_16(addr, value as u16, priv_level, conditional)
        } else {
            mem.write_8(addr, value as u8, priv_level, conditional)
        };
        match r {
            Ok(b) => Ok(b),
            Err(e) => Err(ExceptionKind::from_memory_error(e)),
        }
    }

    /// Executes the 16-bit stack-relative load/store form.
    pub fn mem_16<Mem: MemoryInterface>(
        &mut self,
        instruction: u32,
        priv_level: PrivilegeLevel,
        mem: &mut Mem,
    ) -> (r: Result<(), ExceptionKind>)
        requires
            old(self).wf(),
        ensures
            final(self).wf(),
            ({
                let (s, res, a) = mem_16_spec(old(self)@, instruction, priv_level, *old(mem));
                final(self)@ == s && r == res && mem_access_done(a, priv_level, *old(mem), *final(mem))
            }),
    {
        let rd_rs = reg4(instruction, 12);
        let addr = self.get_reg(REG_SP).wrapping_add(imm_stack_16(instruction));
        if field(instruction, 6, 1) == 0 {
            self.load(mem, rd_rs, addr, 4, false, priv_level, false)
        } else {
            let value = self.get_reg(rd_rs);
            match self.store(mem, addr, value, 4, priv_level, false) {
                Ok(_) => Ok(()),
                Err(e) => Err(e),
            }
        }
    }

    /// Executes the 32-bit base-plus-offset load/store form, `in` and `out` included.
    pub fn mem_32<Mem: MemoryInterface, Io: IoInterface>(
        &mut self,
        instruction: u32,
        priv_level: PrivilegeLevel,
        mem: &mut Mem,
        io: &mut Io,
    ) -> (r: Result<(), ExceptionKind>)
        requires
            old(self).wf(),
        ensures
            final(self).wf(),
            ({
                let (s, res, a) = mem_32_spec(old(self)@, instruction, priv_level, *old(mem), *old(io));
                &&& final(self)@ == s
                &&& r == res
                &&& mem_access_done(a, priv_level, *old(mem), *final(mem))
                &&& io_access_done(a, priv_level, *old(io), *final(io))
            }),
    {
        let rb = reg5(instruction, 17);
        let base = self.get_reg(rb);
        if field(instruction, 6, 1) == 0 {
            let rd = reg5(instruction, 12);
            let addr = base.wrapping_add(imm_reg_32(instruction));
            let op = field(instruction, 24, 0x7);
            if op >= 6 {
                match self.read_io(io, addr, priv_level) {
                    Ok(value) => {
                        self.set_reg(rd, value);
                        Ok(())
                    },
                    Err(e) => Err(ExceptionKind::from_io_error(e)),
                }
            } else {
                let size: u32 = if op <= 1 {
                    4
                } else if op <= 3 {
                    1
                } else {
                    2
                };
                self.load(mem, rd, addr, size, op == 3 || op == 5, priv_level, false)
            }
        } else {
            proof {
                lemma_rs2_32_bound(instruction);
                lemma_field_bound(instruction, 25, 0x3);
            }
            let addr = base.wrapping_add(imm_store_32(instruction));
            let value = self.get_reg(rs2_32(instruction) as usize);
            let op = field(instruction, 25, 0x3);
            if op == 3 {
                match self.write_io(io, addr, value, priv_level) {
                    Ok(_) => Ok(()),
                    Err(e) => Err(ExceptionKind::from_io_error(e)),
                }
            } else {
                let size: u32 = if op == 0 {
                    4
                } else if op == 1 {
                    1
                } else {
                    2
                };
                match self.store(mem, addr, value, size, priv_level, false) {
                    Ok(_) => Ok(()),
                    Err(e) => Err(e),
                }
            }
        }
    }

    /// Executes the load-reserve form.
    pub fn ldr_32<Mem: MemoryInterface>(
        &mut self,
        instruction: u32,
        priv_level: PrivilegeLevel,
        mem: &mut Mem,
    ) -> (r: Result<(), ExceptionKind>)
        requires
            old(self).wf(),
        ensures
            final(self).wf(),
            ({
                let (s, res, a) = ldr_32_spec(old(self)@, instruction, priv_level, *old(mem));
                final(self)@ == s && r == res && mem_access_done(a, priv_level, *old(mem), *final(mem))
            }),
    {
        let rb = reg5(instruction, 17);
        let rd = reg5(instruction, 12);
        let addr = self.get_reg(rb);
        let op = field(instruction, 24, 0x7);
        if op >= 6 {
            return Err(ExceptionKind::IllegalInstruction);
        }
        let size: u32 = if op <= 1 {
            4
        } else if op <= 3 {
            1
        } else {
            2
        };
        self.load(mem, rd, addr, size, op == 3 || op == 5, priv_level, true)
    }

    /// Executes the store-conditional form.
    pub fn stc_32<Mem: MemoryInterface>(
        &mut self,
        instruction: u32,
        priv_level: PrivilegeLevel,
        mem: &mut Mem,
    ) -> (r: Result<(), ExceptionKind>)
        requires
            old(self).wf(),
        ensures
            final(self).wf(),
            ({
                let (s, res, a) = stc_32_spec(old(self)@, instruction, priv_level, *old(mem));
                final(self)@ == s && r == res && mem_access_done(a, priv_level, *old(mem), *final(mem))
            }),
    {
        let rb = reg5(instruction, 17);
        let rd = reg5(instruction, 12);
        proof {
            lemma_rs2_32_bound(instruction);
            lemma_field_bound(instruction, 25, 0x3);
        }
        let addr = self.get_reg(rb);
        let value = self.get_reg(rs2_32(instruction) as usize);
        let op = field(instruction, 25, 0x3);
        if op == 3 {
            return Err(ExceptionKind::IllegalInstruction);
        }
        let size: u32 = if op == 0 {
            4
        } else if op == 1 {
            1
        } else {
            2
        };
        let written = self.store(mem, addr, value, size, priv_level, true)?;
        self.set_reg(rd, if written { 1 } else { 0 });
        Ok(())
    }
}

/// Whether `after` and `r` are what an instruction whose outcome is `expected` leaves:
/// the new state on success, the old state and the exception otherwise.
pub open spec fn outcome(expected: Result<CpuView, ExceptionKind>, before: CpuView, after: CpuView, r: Result<(), ExceptionKind>) -> bool {
    match expected {
        Ok(s) => r == Ok::<(), ExceptionKind>(()) && after == s,
        Err(e) => r == Err::<(), ExceptionKind>(e) && after == before,
    }
}

/// Effect of the two-operand float form when the float unit answers `fv`; codes 4 and 5
/// are illegal.
pub open spec fn fpu3_32_spec(s: CpuView, i: u32, fv: u32) -> Result<CpuView, ExceptionKind> {
    let op = field(i, 24, 0x7);
    if op == 4 || op == 5 {
        Err(ExceptionKind::IllegalInstruction)
    } else {
        Ok(with_reg(s, field(i, 12, 0x1F) as int, fv))
    }
}

/// Effect of the one-operand float form when the float unit answers `fv`: `fabs` (4)
/// clears the sign bit and `fneg` (5) flips it; the other codes take the unit's answer.
pub open spec fn fpu2_32_spec(s: CpuView, i: u32, fv: u32) -> CpuView {
    let op = field(i, 24, 0x7);
    let v = s.regs[field(i, 17, 0x1F) as int];
    let res = if op == 4 {
        v & 0x7FFF_FFFF
    } else if op == 5 {
        v ^ 0x8000_0000
    } else {
        fv
    };
    with_reg(s, field(i, 12, 0x1F) as int, res)
}

/// Effect of the float compare when the float unit answers `fv` (nonzero for true):
/// `rd` receives 1 or 0.
pub open spec fn fcmp_32_spec(s: CpuView, i: u32, fv: u32) -> CpuView {
    with_reg(s, field(i, 12, 0x1F) as int, if fv == 0 { 0 } else { 1 })
}

/// Effect of the conversion form when the float unit answers `fv`: `ftoi` (0) and
/// `itof` (1) take the answer, other codes are illegal.
pub open spec fn cvt_32_spec(s: CpuView, i: u32, fv: u32) -> Result<CpuView, ExceptionKind> {
    if field(i, 24, 0x7) >= 2 {
        Err(ExceptionKind::IllegalInstruction)
    } else {
        Ok(with_reg(s, field(i, 12, 0x1F) as int, fv))
    }
}

/// Whether the float unit accepts every request.
pub open spec fn accepts_all<G: Fn(FloatOp) -> u32>(fpu: G) -> bool {
    forall|op: FloatOp| #[trigger] fpu.requires((op,))
}

/// Whether `fv` is an answer that the float unit `fpu` can give to request `req`; any
/// value when no request is made.
pub open spec fn answers<G: Fn(FloatOp) -> u32>(fpu: G, req: Option<FloatOp>, fv: u32) -> bool {
    match req {
        Some(op) => fpu.ensures((op,), fv),
        None => true,
    }
}

/// The request of the two-operand float form: the operation and the bit patterns in
/// `rs1` and `rs2`; none for the illegal codes 4 and 5.
pub open spec fn fpu3_32_request(s: CpuView, i: u32) -> Option<FloatOp> {
    let op = field(i, 24, 0x7);
    if op == 4 || op == 5 {
        None
    } else {
        Some(
            FloatOp::Binary {
                op,
                lhs: s.regs[field(i, 17, 0x1F) as int],
                rhs: s.regs[rs2_32(i) as int],
            },
        )
    }
}

/// The request of the one-operand float form: the operation and the bit pattern in
/// `rs`; none for `fabs` and `fneg`, which the CPU does itself.
pub open spec fn fpu2_32_request(s: CpuView, i: u32) -> Option<FloatOp> {
    let op = field(i, 24, 0x7);
    if op == 4 || op == 5 {
        None
    } else {
        Some(FloatOp::Unary { op, value: s.regs[field(i, 17, 0x1F) as int] })
    }
}

/// The request of the float compare: the comparison and the bit patterns in `rs1` and
/// `rs2`.
pub open spec fn fcmp_32_request(s: CpuView, i: u32) -> Option<FloatOp> {
    Some(
        FloatOp::Compare {
            op: field(i, 24, 0x3),
            lhs: s.regs[field(i, 17, 0x1F) as int],
            rhs: s.regs[rs2_32(i) as int],
        },
    )
}

/// The request of the conversion form: `ftoi` or `itof` of `rs`; none for the illegal
/// codes.
pub open spec fn cvt_32_request(s: CpuView, i: u32) -> Option<FloatOp> {
    let op = field(i, 24, 0x7);
    let v = s.regs[field(i, 17, 0x1F) as int];
    if op == 0 {
        Some(FloatOp::ToInt { value: v })
    } else if op == 1 {
        Some(FloatOp::FromInt { value: v })
    } else {
        None
    }
}

impl Cpu {
    /// Executes the two-operand float form.
    pub fn fpu3_32<F: Fn(FloatOp) -> u32>(&mut self, instruction: u32, fpu: &F) -> (r: Result<(), ExceptionKind>)
        requires
            old(self).wf(),
            accepts_all(fpu),
        ensures
            final(self).wf(),
            exists|fv: u32|
                outcome(#[trigger] fpu3_32_spec(old(self)@, instruction, fv), old(self)@, final(self)@, r)
                    && answers(fpu, fpu3_32_request(old(self)@, instruction), fv),
    {
        let rs1 = reg5(instruction, 17);
        let rd = reg5(instruction, 12);
        proof {
            lemma_rs2_32_bound(instruction);
        }
        let op = field(instruction, 24, 0x7);
        if op == 4 || op == 5 {
            assert(outcome(fpu3_32_spec(self@, instruction, 0), self@, self@, Err(ExceptionKind::IllegalInstruction))
                && answers(fpu, fpu3_32_request(self@, instruction), 0));
            return Err(ExceptionKind::IllegalInstruction);
        }
        let lhs = self.get_reg(rs1);
        let rhs = self.get_reg(rs2_32(instruction) as usize);
        let result = fpu(FloatOp::Binary { op, lhs, rhs });
        let ghost s0 = self@;
        self.set_reg(rd, result);
        assert(outcome(fpu3_32_spec(s0, instruction, result), s0, self@, Ok(()))
            && answers(fpu, fpu3_32_request(s0, instruction), result));
        Ok(())
    }

    /// Executes the one-operand float form.
    pub fn fpu2_32<F: Fn(FloatOp) -> u32>(&mut self, instruction: u32, fpu: &F)
        requires
            old(self).wf(),
            accepts_all(fpu),
        ensures
            final(self).wf(),
            exists|fv: u32|
                final(self)@ == #[trigger] fpu2_32_spec(old(self)@, instruction, fv)
                    && answers(fpu, fpu2_32_request(old(self)@, instruction), fv),
    {
        let rs = reg5(instruction, 17);
        let rd = reg5(instruction, 12);
        let value = self.get_reg(rs);
        let op = field(instruction, 24, 0x7);
        let ghost s0 = self@;
        let result = if op == 4 {
            value & 0x7FFF_FFFF
        } else if op == 5 {
            value ^ 0x8000_0000
        } else {
            fpu(FloatOp::Unary { op, value })
        };
        self.set_reg(rd, result);
        assert(self@ == fpu2_32_spec(s0, instruction, result)
            && answers(fpu, fpu2_32_request(s0, instruction), result));
    }

    /// Executes the float compare.
    pub fn fcmp_32<F: Fn(FloatOp) -> u32>(&mut self, instruction: u32, fpu: &F)
        requires
            old(self).wf(),
            accepts_all(fpu),
        ensures
            final(self).wf(),
            exists|fv: u32|
                final(self)@ == #[trigger] fcmp_32_spec(old(self)@, instruction, fv)
                    && answers(fpu, fcmp_32_request(old(self)@, instruction), fv),
    {
        let rs1 = reg5(instruction, 17);
        let rd = reg5(instruction, 12);
        proof {
            lemma_rs2_32_bound(instruction);
        }
        let lhs = self.get_reg(rs1);
        let rhs = self.get_reg(rs2_32(instruction) as usize);
        let answer = fpu(FloatOp::Compare { op: field(instruction, 24, 0x3), lhs, rhs });
        let result: u32 = if answer == 0 {
            0
        } else {
            1
        };
        let ghost s0 = self@;
        self.set_reg(rd, result);
        assert(self@ == fcmp_32_spec(s0, instruction, answer)
            && answers(fpu, fcmp_32_request(s0, instruction), answer));
    }

    /// Executes the conversion form.
    pub fn cvt_32<F: Fn(FloatOp) -> u32>(&mut self, instruction: u32, fpu: &F) -> (r: Result<(), ExceptionKind>)
        requires
            old(self).wf(),
            accepts_all(fpu),
        ensures
            final(self).wf(),
            exists|fv: u32|
                outcome(#[trigger] cvt_32_spec(old(self)@, instruction, fv), old(self)@, final(self)@, r)
                    && answers(fpu, cvt_32_request(old(self)@, instruction), fv),
    {
        let rs = reg5(instruction, 17);
        let rd = reg5(instruction, 12);
        let value = self.get_reg(rs);
        let op = field(instruction, 24, 0x7);
        if op >= 2 {
            assert(outcome(cvt_32_spec(self@, instruction, 0), self@, self@, Err(ExceptionKind::IllegalInstruction))
                && answers(fpu, cvt_32_request(self@, instruction), 0));
            return Err(ExceptionKind::IllegalInstruction);
        }
        let result = if op == 0 {
            fpu(FloatOp::ToInt { value })
        } else {
            fpu(FloatOp::FromInt { value })
        };
        let ghost s0 = self@;
        self.set_reg(rd, result);
        assert(outcome(cvt_32_spec(s0, instruction, result), s0, self@, Ok(()))
            && answers(fpu, cvt_32_request(s0, instruction), result));
        Ok(())
    }
}

/// The float request of a 32-bit instruction: that of its form when it is a legal float
/// form of the register group, else none.
pub open spec fn float_request_32(s: CpuView, i: u32) -> Option<FloatOp> {
    let b6 = field(i, 6, 1);
    let group = field(i, 27, 0x1F);
    if field(i, 22, 0x3) != 3 {
        None
    } else if group == 2 {
        if b6 == 0 {
            fpu3_32_request(s, i)
        } else {
            fpu2_32_request(s, i)
        }
    } else if group == 3 {
        if b6 == 0 {
            fcmp_32_request(s, i)
        } else {
            cvt_32_request(s, i)
        }
    } else {
        None
    }
}

/// The float request made once the upper half-word of a 32-bit instruction with lower
/// half-word `lo` is fetched.
pub open spec fn execute_long_request<M: MemoryInterface>(
    s1: CpuView,
    lo: u32,
    p: PrivilegeLevel,
    mem: M,
) -> Option<FloatOp> {
    match mem.read_result(s1.pc, 2, p) {
        Err(_) => None,
        Ok(hi) => if field(lo, 2, 1) == 0 {
            None
        } else {
            float_request_32(with_pc(s1, s1.pc.wrapping_add(2)), lo | (hi << 16))
        },
    }
}

/// The float request made by the instruction whose lower half-word `lo` was fetched:
/// only a 32-bit form can make one.
pub open spec fn execute_16_request<M: MemoryInterface>(
    s1: CpuView,
    lo: u32,
    p: PrivilegeLevel,
    mem: M,
) -> Option<FloatOp> {
    let class = field(lo, 3, 0x3);
    if field(lo, 0, 1) == 0 || field(lo, 1, 1) == 0 || (field(lo, 2, 1) == 0 && field(lo, 7, 1)
        == 0) || (field(lo, 2, 1) != 0 && (class <= 2 || field(lo, 5, 1) == 0)) {
        None
    } else {
        execute_long_request(s1, lo, p, mem)
    }
}

/// The float request that one step from `s` with memory `mem` hands to the float unit:
/// none when an interrupt is taken or the fetch fails.
pub open spec fn step_float_request<M: MemoryInterface>(s: CpuView, mem: M) -> Option<FloatOp> {
    match next_interrupt_spec(s) {
        Some(_) => None,
        None => {
            let p = effective_privilege(s);
            match mem.read_result(s.pc, 2, p) {
                Err(_) => None,
                Ok(lo) => execute_16_request(with_pc(s, s.pc.wrapping_add(2)), lo, p, mem),
            }
        },
    }
}

/// An outcome without memory access, as the dispatchers report it.
pub open spec fn no_access(r: Result<CpuView, ExceptionKind>, s: CpuView) -> (CpuView, Result<(), ExceptionKind>, Access) {
    match r {
        Ok(s1) => (s1, Ok(()), Access::Nothing),
        Err(e) => (s, Err(e), Access::Nothing),
    }
}

/// Effect of a 32-bit instruction `i` (both halves fetched), with privilege `p` and float
/// answer `fv`. Bits `[23:22]` pick jump/branch, ALU-immediate/move-immediate,
/// load/store, or the register group, in which bits `[31:27]` and bit 6 pick the form.
pub open spec fn execute_32_spec<M: MemoryInterface, I: IoInterface>(
    s: CpuView,
    i: u32,
    p: PrivilegeLevel,
    mem: M,
    io: I,
    fv: u32,
) -> (CpuView, Result<(), ExceptionKind>, Access) {
    let major = field(i, 22, 0x3);
    let b6 = field(i, 6, 1);
    let group = field(i, 27, 0x1F);
    if major == 0 {
        (if b6 == 0 { jump_32_spec(s, i) } else { branch_32_spec(s, i) }, Ok(()), Access::Nothing)
    } else if major == 1 {
        (if b6 == 0 { alui_32_spec(s, i) } else { movi_32_spec(s, i) }, Ok(()), Access::Nothing)
    } else if major == 2 {
        mem_32_spec(s, i, p, mem, io)
    } else if group == 0 {
        (if b6 == 0 { alu_32_spec(s, i) } else { mov_32_spec(s, i) }, Ok(()), Access::Nothing)
    } else if group == 1 {
        if b6 == 0 {
            no_access(aluc_32_spec(s, i), s)
        } else {
            (mul_32_spec(s, i), Ok(()), Access::Nothing)
        }
    } else if group == 2 {
        if b6 == 0 {
            no_access(fpu3_32_spec(s, i, fv), s)
        } else {
            (fpu2_32_spec(s, i, fv), Ok(()), Access::Nothing)
        }
    } else if group == 3 {
        if b6 == 0 {
            (fcmp_32_spec(s, i, fv), Ok(()), Access::Nothing)
        } else {
            no_access(cvt_32_spec(s, i, fv), s)
        }
    } else if group <= 7 {
        if b6 == 0 {
            ldr_32_spec(s, i, p, mem)
        } else {
            stc_32_spec(s, i, p, mem)
        }
    } else {
        (s, Err(ExceptionKind::IllegalInstruction), Access::Nothing)
    }
}

/// Whether `(after, r)` with memory `m1` and bus `i1` is what `execute_32_spec` gives
/// for float answer `fv`, an answer `fpu` can give to the instruction's request.
pub open spec fn execute_32_post<M: MemoryInterface, I: IoInterface, G: Fn(FloatOp) -> u32>(
    s: CpuView,
    i: u32,
    p: PrivilegeLevel,
    m0: M,
    i0: I,
    fpu: G,
    fv: u32,
    after: CpuView,
    m1: M,
    i1: I,
    r: Result<(), ExceptionKind>,
) -> bool {
    let (s1, res, a) = execute_32_spec(s, i, p, m0, i0, fv);
    &&& after == s1
    &&& r == res
    &&& mem_access_done(a, p, m0, m1)
    &&& io_access_done(a, p, i0, i1)
    &&& answers(fpu, float_request_32(s, i), fv)
}

/// A 32-bit instruction whose lower half-word `lo` has been fetched: the upper
/// half-word is fetched next, then bit 2 of `lo` picks the upper-immediate form or the
/// forms of `execute_32_spec`.
pub open spec fn execute_long_spec<M: MemoryInterface, I: IoInterface>(
    s1: CpuView,
    lo: u32,
    p: PrivilegeLevel,
    mem: M,
    io: I,
    fv: u32,
) -> (CpuView, Result<Option<u8>, Fault>, Access) {
    match mem.read_result(s1.pc, 2, p) {
        Err(e) => (s1, Err(Fault::Exception(memory_exception(e))), Access::Nothing),
        Ok(hi) => {
            let i = lo | (hi << 16);
            let s2 = with_pc(s1, s1.pc.wrapping_add(2));
            if field(lo, 2, 1) == 0 {
                (uimm_32_spec(s2, i), Ok(None), Access::Nothing)
            } else {
                let (s3, r, a) = execute_32_spec(s2, i, p, mem, io, fv);
                (s3, match r { Ok(_) => Ok(None), Err(e) => Err(Fault::Exception(e)) }, a)
            }
        },
    }
}

/// The instruction whose lower half-word `lo` has been fetched (the PC already past it):
/// bit 0 clear is load/add-immediate, then bit 1 clear a jump, then bit 2 clear a branch
/// (or, with bit 7, the upper-immediate form), else bits `[4:3]` pick ALU, conditional
/// move, compare/system/shift-immediate, or stack load/store and the 32-bit forms.
pub open spec fn execute_16_spec<M: MemoryInterface, I: IoInterface>(
    s1: CpuView,
    lo: u32,
    p: PrivilegeLevel,
    mem: M,
    io: I,
    fv: u32,
) -> (CpuView, Result<Option<u8>, Fault>, Access) {
    let class = field(lo, 3, 0x3);
    if field(lo, 0, 1) == 0 {
        (ldi_addi_16_spec(s1, lo), Ok(None), Access::Nothing)
    } else if field(lo, 1, 1) == 0 {
        (jump_16_spec(s1, lo), Ok(None), Access::Nothing)
    } else if field(lo, 2, 1) == 0 && field(lo, 7, 1) == 0 {
        (branch_16_spec(s1, lo), Ok(None), Access::Nothing)
    } else if field(lo, 2, 1) != 0 && class == 0 {
        (alu_16_spec(s1, lo), Ok(None), Access::Nothing)
    } else if field(lo, 2, 1) != 0 && class == 1 {
        (mov_16_spec(s1, lo), Ok(None), Access::Nothing)
    } else if field(lo, 2, 1) != 0 && class == 2 {
        if field(lo, 5, 0x3) != 0 {
            (alui_16_spec(s1, lo), Ok(None), Access::Nothing)
        } else if field(lo, 7, 1) == 0 {
            (cmp_16_spec(s1, lo), Ok(None), Access::Nothing)
        } else {
            let (s2, r) = sys_16_spec(s1, lo);
            (s2, r, Access::Nothing)
        }
    } else if field(lo, 2, 1) != 0 && field(lo, 5, 1) == 0 {
        let (s2, r, a) = mem_16_spec(s1, lo, p, mem);
        (s2, match r { Ok(_) => Ok(None), Err(e) => Err(Fault::Exception(e)) }, a)
    } else {
        execute_long_spec(s1, lo, p, mem, io, fv)
    }
}

/// One step before exceptions are entered: a pending unmasked hardware interrupt is taken
/// if the CPU is listening; otherwise the half-word at the PC is fetched with the
/// effective privilege, the PC moves past it, and it is executed.
pub open spec fn step_inner_spec<M: MemoryInterface, I: IoInterface>(
    s: CpuView,
    mem: M,
    io: I,
    fv: u32,
) -> (CpuView, Result<Option<u8>, Fault>, Access) {
    match next_interrupt_spec(s) {
        Some(slot) => (take_interrupt_spec(s, slot), Ok(None), Access::Nothing),
        None => {
            let p = effective_privilege(s);
            match mem.read_result(s.pc, 2, p) {
                Err(e) => (s, Err(Fault::Exception(memory_exception(e))), Access::Nothing),
                Ok(lo) => execute_16_spec(with_pc(s, s.pc.wrapping_add(2)), lo, p, mem, io, fv),
            }
        },
    }
}

/// Whether `after`, memory `m1`, bus `i1` and `r` are what `spec` gives when run from
/// `m0` and `i0` with privilege `p`, and `fv` is an answer `fpu` can give to `req`.
pub open spec fn outcome_with_access<M: MemoryInterface, I: IoInterface, G: Fn(FloatOp) -> u32>(
    spec: (CpuView, Result<Option<u8>, Fault>, Access),
    req: Option<FloatOp>,
    fpu: G,
    fv: u32,
    p: PrivilegeLevel,
    m0: M,
    i0: I,
    after: CpuView,
    m1: M,
    i1: I,
    r: Result<Option<u8>, Fault>,
) -> bool {
    &&& after == spec.0
    &&& r == spec.1
    &&& mem_access_done(spec.2, p, m0, m1)
    &&& io_access_done(spec.2, p, i0, i1)
    &&& answers(fpu, req, fv)
}

/// One full step: `step_inner_spec`, with an exception entered into its handler (or
/// fatal while servicing).
pub open spec fn step_spec<M: MemoryInterface, I: IoInterface>(
    s: CpuView,
    mem: M,
    io: I,
    fv: u32,
) -> (CpuView, Result<Option<u8>, FatalError>, Access) {
    let (s1, r, a) = step_inner_spec(s, mem, io, fv);
    match r {
        Ok(code) => (s1, Ok(code), a),
        Err(Fault::Fatal(f)) => (s1, Err(f), a),
        Err(Fault::Exception(kind)) => match exception_spec(s1, kind) {
            Ok(s2) => (s2, Ok(None), a),
            Err(f) => (s1, Err(f), a),
        },
    }
}

/// Whether the CPU, memory and bus after `step_inner`, and what it returned, are what
/// `step_inner_spec` gives for float answer `fv`, an answer `fpu` can give to the step's
/// request.
pub open spec fn step_inner_post<M: MemoryInterface, I: IoInterface, G: Fn(FloatOp) -> u32>(
    s: CpuView,
    m0: M,
    i0: I,
    fpu: G,
    fv: u32,
    after: CpuView,
    m1: M,
    i1: I,
    r: Result<Option<u8>, Fault>,
) -> bool {
    let (s1, res, a) = step_inner_spec(s, m0, i0, fv);
    &&& after == s1
    &&& r == res
    &&& mem_access_done(a, effective_privilege(s), m0, m1)
    &&& io_access_done(a, effective_privilege(s), i0, i1)
    &&& answers(fpu, step_float_request(s, m0), fv)
}

/// Whether the CPU, memory and bus after a step, and what it returned, are what
/// `step_spec` gives for float answer `fv`, an answer `fpu` can give to the step's
/// request.
pub open spec fn step_post<M: MemoryInterface, I: IoInterface, G: Fn(FloatOp) -> u32>(
    s: CpuView,
    m0: M,
    i0: I,
    fpu: G,
    fv: u32,
    after: CpuView,
    m1: M,
    i1: I,
    r: Result<Option<u8>, FatalError>,
) -> bool {
    let (s1, res, a) = step_spec(s, m0, i0, fv);
    &&& after == s1
    &&& r == res
    &&& mem_access_done(a, effective_privilege(s), m0, m1)
    &&& io_access_done(a, effective_privilege(s), i0, i1)
    &&& answers(fpu, step_float_request(s, m0), fv)
}

impl Cpu {
    /// Executes a 32-bit instruction whose both halves have been fetched.
    fn execute_32<Mem: MemoryInterface, Io: IoInterface, F: Fn(FloatOp) -> u32>(
        &mut self,
        instruction: u32,
        priv_level: PrivilegeLevel,
        mem: &mut Mem,
        io: &mut Io,
        fpu: &F,
    ) -> (r: Result<(), ExceptionKind>)
        requires
            old(self).wf(),
            accepts_all(fpu),
        ensures
            final(self).wf(),
            exists|fv: u32|
                #[trigger] execute_32_post(
                    old(self)@,
                    instruction,
                    priv_level,
                    *old(mem),
                    *old(io), fpu,
                    fv,
                    final(self)@,
                    *final(mem),
                    *final(io),
                    r,
                ),
    {
        let ghost s0 = self@;
        let ghost m0 = *mem;
        let ghost i0 = *io;
        let major = field(instruction, 22, 0x3);
        let b6 = field(instruction, 6, 1);
        let group = field(instruction, 27, 0x1F);
        if major == 0 {
            if b6 == 0 {
                self.jump_32(instruction);
            } else {
                self.branch_32(instruction);
            }
            assert(execute_32_post(s0, instruction, priv_level, m0, i0, fpu, 0, self@, *mem, *io, Ok(())));
            Ok(())
        } else if major == 1 {
            if b6 == 0 {
                self.alui_32(instruction);
            } else {
                self.movi_32(instruction);
            }
            assert(execute_32_post(s0, instruction, priv_level, m0, i0, fpu, 0, self@, *mem, *io, Ok(())));
            Ok(())
        } else if major == 2 {
            let r = self.mem_32(instruction, priv_level, mem, io);
            assert(execute_32_post(s0, instruction, priv_level, m0, i0, fpu, 0, self@, *mem, *io, r));
            r
        } else if group == 0 {
            if b6 == 0 {
                self.alu_32(instruction);
            } else {
                self.mov_32(instruction);
            }
            assert(execute_32_post(s0, instruction, priv_level, m0, i0, fpu, 0, self@, *mem, *io, Ok(())));
            Ok(())
        } else if group == 1 {
            if b6 == 0 {
                let r = self.aluc_32(instruction);
                assert(execute_32_post(s0, instruction, priv_level, m0, i0, fpu, 0, self@, *mem, *io, r));
                r
            } else {
                self.mul_32(instruction);
                assert(execute_32_post(s0, instruction, priv_level, m0, i0, fpu, 0, self@, *mem, *io, Ok(())));
                Ok(())
            }
        } else if group == 2 {
            if b6 == 0 {
                let r = self.fpu3_32(instruction, fpu);
                let ghost fv = choose|fv: u32|
                    outcome(#[trigger] fpu3_32_spec(s0, instruction, fv), s0, self@, r)
                        && answers(fpu, fpu3_32_request(s0, instruction), fv);
                assert(execute_32_post(s0, instruction, priv_level, m0, i0, fpu, fv, self@, *mem, *io, r));
                r
            } else {
                self.fpu2_32(instruction, fpu);
                let ghost fv = choose|fv: u32|
                    self@ == #[trigger] fpu2_32_spec(s0, instruction, fv)
                        && answers(fpu, fpu2_32_request(s0, instruction), fv);
                assert(execute_32_post(s0, instruction, priv_level, m0, i0, fpu, fv, self@, *mem, *io, Ok(())));
                Ok(())
            }
        } else if group == 3 {
            if b6 == 0 {
                self.fcmp_32(instruction, fpu);
                let ghost fv = choose|fv: u32|
                    self@ == #[trigger] fcmp_32_spec(s0, instruction, fv)
                        && answers(fpu, fcmp_32_request(s0, instruction), fv);
                assert(execute_32_post(s0, instruction, priv_level, m0, i0, fpu, fv, self@, *mem, *io, Ok(())));
                Ok(())
            } else {
                let r = self.cvt_32(instruction, fpu);
                let ghost fv = choose|fv: u32|
                    outcome(#[trigger] cvt_32_spec(s0, instruction, fv), s0, self@, r)
                        && answers(fpu, cvt_32_request(s0, instruction), fv);
                assert(execute_32_post(s0, instruction, priv_level, m0, i0, fpu, fv, self@, *mem, *io, r));
                r
            }
        } else if group <= 7 {
            let r = if b6 == 0 {
                self.ldr_32(instruction, priv_level, mem)
            } else {
                self.stc_32(instruction, priv_level, mem)
            };
            assert(execute_32_post(s0, instruction, priv_level, m0, i0, fpu, 0, self@, *mem, *io, r));
            r
        } else {
            assert(execute_32_post(s0, instruction, priv_level, m0, i0, fpu, 0, self@, *mem, *io, Err(ExceptionKind::IllegalInstruction)));
            Err(ExceptionKind::IllegalInstruction)
        }
    }
}

/// Adding 2 to an even address keeps it even.
proof fn lemma_even_add_2(x: u32)
    requires
        even(x),
    ensures
        even(x.wrapping_add(2)),
{
}

impl Cpu {
    /// Services a pending interrupt, or fetches, decodes and executes one instruction.
    pub fn step_inner<Mem: MemoryInterface, Io: IoInterface, F: Fn(FloatOp) -> u32>(
        &mut self,
        mem: &mut Mem,
        io: &mut Io,
        fpu: &F,
    ) -> (r: Result<Option<u8>, Fault>)
        requires
            old(self).wf(),
            accepts_all(fpu),
        ensures
            final(self).wf(),
            exists|fv: u32|
                #[trigger] step_inner_post(
                    old(self)@,
                    *old(mem),
                    *old(io), fpu,
                    fv,
                    final(self)@,
                    *final(mem),
                    *final(io),
                    r,
                ),
    {
        let ghost s0 = self@;
        let ghost m0 = *mem;
        let ghost i0 = *io;
        if let Some(slot) = self.next_interrupt() {
            let vector = self.hardware_interrupt_table[slot];
            self.enter_interrupt(vector);
            assert(step_inner_post(s0, m0, i0, fpu, 0, self@, *mem, *io, Ok(None)));
            return Ok(None);
        }
        let priv_level = self.effective_privilege_level();
        let lower = match mem.read_16(self.program_counter, priv_level, false) {
            Ok(v) => v,
            Err(e) => {
                let r = Err(Fault::Exception(ExceptionKind::from_memory_error(e)));
                assert(step_inner_post(s0, m0, i0, fpu, 0, self@, *mem, *io, r));
                return r;
            },
        };
        let instruction = lower as u32;
        proof {
            lemma_even_add_2(self.program_counter);
        }
        self.program_counter = self.program_counter.wrapping_add(2);
        let ghost s1 = self@;
        let r = self.execute_16(instruction, priv_level, mem, io, fpu);
        let ghost fv = choose|fv: u32|
            #[trigger] outcome_with_access(execute_16_spec(s1, instruction, priv_level, m0, i0, fv), execute_16_request(s1, instruction, priv_level, m0), fpu, fv, priv_level, m0, i0, self@, *mem, *io, r);
        assert(step_inner_post(s0, m0, i0, fpu, fv, self@, *mem, *io, r));
        r
    }

    /// Executes the instruction whose lower half-word has been fetched.
    fn execute_16<Mem: MemoryInterface, Io: IoInterface, F: Fn(FloatOp) -> u32>(
        &mut self,
        instruction: u32,
        priv_level: PrivilegeLevel,
        mem: &mut Mem,
        io: &mut Io,
        fpu: &F,
    ) -> (r: Result<Option<u8>, Fault>)
        requires
            old(self).wf(),
            accepts_all(fpu),
            instruction < 0x1_0000,
        ensures
            final(self).wf(),
            exists|fv: u32|
                #[trigger] outcome_with_access(
                    execute_16_spec(old(self)@, instruction, priv_level, *old(mem), *old(io), fv), execute_16_request(old(self)@, instruction, priv_level, *old(mem)), fpu, fv,
                    priv_level,
                    *old(mem),
                    *old(io),
                    final(self)@,
                    *final(mem),
                    *final(io),
                    r,
                ),
    {
        let ghost s1 = self@;
        let ghost m0 = *mem;
        let ghost i0 = *io;
        if field(instruction, 0, 1) == 0 {
            self.ldi_addi_16(instruction);
        } else if field(instruction, 1, 1) == 0 {
            self.jump_16(instruction);
        } else if field(instruction, 2, 1) == 0 && field(instruction, 7, 1) == 0 {
            self.branch_16(instruction);
        } else if field(instruction, 2, 1) != 0 && field(instruction, 3, 0x3) == 0 {
            self.alu_16(instruction);
        } else if field(instruction, 2, 1) != 0 && field(instruction, 3, 0x3) == 1 {
            self.mov_16(instruction);
        } else if field(instruction, 2, 1) != 0 && field(instruction, 3, 0x3) == 2 {
            if field(instruction, 5, 0x3) != 0 {
                self.alui_16(instruction);
            } else if field(instruction, 7, 1) == 0 {
                self.cmp_16(instruction);
            } else {
                let r = self.sys_16(instruction);
                assert(outcome_with_access(execute_16_spec(s1, instruction, priv_level, m0, i0, 0), execute_16_request(s1, instruction, priv_level, m0), fpu, 0, priv_level, m0, i0, self@, *mem, *io, r));
                return r;
            }
        } else if field(instruction, 2, 1) != 0 && field(instruction, 5, 1) == 0 {
            let r = match self.mem_16(instruction, priv_level, mem) {
                Ok(_) => Ok(None),
                Err(e) => Err(Fault::Exception(e)),
            };
            assert(outcome_with_access(execute_16_spec(s1, instruction, priv_level, m0, i0, 0), execute_16_request(s1, instruction, priv_level, m0), fpu, 0, priv_level, m0, i0, self@, *mem, *io, r));
            return r;
        } else {
            let r = self.execute_long(instruction, priv_level, mem, io, fpu);
            let ghost fv = choose|fv: u32|
                #[trigger] outcome_with_access(execute_long_spec(s1, instruction, priv_level, m0, i0, fv), execute_long_request(s1, instruction, priv_level, m0), fpu, fv, priv_level, m0, i0, self@, *mem, *io, r);
            assert(outcome_with_access(execute_16_spec(s1, instruction, priv_level, m0, i0, fv), execute_16_request(s1, instruction, priv_level, m0), fpu, fv, priv_level, m0, i0, self@, *mem, *io, r));
            return r;
        }
        assert(outcome_with_access(execute_16_spec(s1, instruction, priv_level, m0, i0, 0), execute_16_request(s1, instruction, priv_level, m0), fpu, 0, priv_level, m0, i0, self@, *mem, *io, Ok(None)));
        Ok(None)
    }

    /// Fetches the upper half-word of a 32-bit instruction and executes it.
    fn execute_long<Mem: MemoryInterface, Io: IoInterface, F: Fn(FloatOp) -> u32>(
        &mut self,
        lower: u32,
        priv_level: PrivilegeLevel,
        mem: &mut Mem,
        io: &mut Io,
        fpu: &F,
    ) -> (r: Result<Option<u8>, Fault>)
        requires
            old(self).wf(),
            accepts_all(fpu),
            lower < 0x1_0000,
        ensures
            final(self).wf(),
            exists|fv: u32|
                #[trigger] outcome_with_access(
                    execute_long_spec(old(self)@, lower, priv_level, *old(mem), *old(io), fv), execute_long_request(old(self)@, lower, priv_level, *old(mem)), fpu, fv,
                    priv_level,
                    *old(mem),
                    *old(io),
                    final(self)@,
                    *final(mem),
                    *final(io),
                    r,
                ),
    {
        let ghost s1 = self@;
        let ghost m0 = *mem;
        let ghost i0 = *io;
        let upper = match mem.read_16(self.program_counter, priv_level, false) {
            Ok(v) => v,
            Err(e) => {
                let r = Err(Fault::Exception(ExceptionKind::from_memory_error(e)));
                assert(outcome_with_access(execute_long_spec(s1, lower, priv_level, m0, i0, 0), execute_long_request(s1, lower, priv_level, m0), fpu, 0, priv_level, m0, i0, self@, *mem, *io, r));
                return r;
            },
        };
        let instruction = lower | ((upper as u32) << 16);
        proof {
            lemma_even_add_2(self.program_counter);
        }
        self.program_counter = self.program_counter.wrapping_add(2);
        if field(lower, 2, 1) == 0 {
            self.uimm_32(instruction);
            assert(outcome_with_access(execute_long_spec(s1, lower, priv_level, m0, i0, 0), execute_long_request(s1, lower, priv_level, m0), fpu, 0, priv_level, m0, i0, self@, *mem, *io, Ok(None)));
            Ok(None)
        } else {
            let ghost s2 = self@;
            let r32 = self.execute_32(instruction, priv_level, mem, io, fpu);
            let ghost fv = choose|fv: u32|
                #[trigger] execute_32_post(s2, instruction, priv_level, m0, i0, fpu, fv, self@, *mem, *io, r32);
            let r = match r32 {
                Ok(_) => Ok(None),
                Err(e) => Err(Fault::Exception(e)),
            };
            assert(outcome_with_access(execute_long_spec(s1, lower, priv_level, m0, i0, fv), execute_long_request(s1, lower, priv_level, m0), fpu, fv, priv_level, m0, i0, self@, *mem, *io, r));
            r
        }
    }

    /// One emulated step: services a pending interrupt, or executes one instruction,
    /// entering the exception handler when it raises one. Returns the code of an
    /// `envcall`, or the fatal condition of an exception or `syscall` raised while
    /// servicing.
    pub fn step<Mem: MemoryInterface, Io: IoInterface, F: Fn(FloatOp) -> u32>(
        &mut self,
        mem: &mut Mem,
        io: &mut Io,
        fpu: &F,
    ) -> (r: Result<Option<u8>, FatalError>)
        requires
            old(self).wf(),
            accepts_all(fpu),
        ensures
            final(self).wf(),
            exists|fv: u32|
                #[trigger] step_post(
                    old(self)@,
                    *old(mem),
                    *old(io), fpu,
                    fv,
                    final(self)@,
                    *final(mem),
                    *final(io),
                    r,
                ),
    {
        let ghost s0 = self@;
        let ghost m0 = *mem;
        let ghost i0 = *io;
        let inner = self.step_inner(mem, io, fpu);
        let ghost fv = choose|fv: u32|
            #[trigger] step_inner_post(s0, m0, i0, fpu, fv, self@, *mem, *io, inner);
        let r = match inner {
            Ok(code) => Ok(code),
            Err(Fault::Fatal(f)) => Err(f),
            Err(Fault::Exception(kind)) => match self.exception(kind) {
                Ok(()) => Ok(None),
                Err(f) => Err(f),
            },
        };
        assert(step_post(s0, m0, i0, fpu, fv, self@, *mem, *io, r));
        r
    }
}

/// Entering a handler and returning from it restores the PC, the interrupt state and
/// both register banks with their flags, whatever the vector.
pub proof fn lemma_enter_leave_round_trip(s: CpuView, vector: u32)
    requires
        s.interrupt_state == InterruptState::Listening,
    ensures
        ({
            let t = leave_interrupt_spec(enter_interrupt_spec(s, vector));
            &&& t.pc == s.pc
            &&& t.interrupt_state == s.interrupt_state
            &&& t.regs == s.regs
            &&& t.flags == s.flags
            &&& t.alt_regs == s.alt_regs
            &&& t.alt_flags == s.alt_flags
            &&& t == CpuView { interrupt_return_address: s.pc, ..s }
        }),
{
}

/// Division by zero does not trap: `divu` gives all ones, `divs` gives `i32::MIN` for a
/// negative dividend and `i32::MAX` otherwise, `remu` and `rems` give zero.
pub proof fn lemma_divide_by_zero(x: u32)
    ensures
        mul_result(4, x, 0) == 0xFFFF_FFFF,
        mul_result(5, x, 0) == if signed(x) < 0 { 0x8000_0000u32 } else { 0x7FFF_FFFFu32 },
        mul_result(6, x, 0) == 0,
        mul_result(7, x, 0) == 0,
{
}

} // verus!
