use art32::cpu::{Fault, RESET_PROGRAM_COUNTER};
use art32::{
    Cpu, ExceptionKind, FatalError, FloatOp, InterruptState, IoBus, IoError, Mmu,
    PrivilegeLevel,
};

/// A float unit for programs that use no float instruction.
fn no_float(_op: FloatOp) -> u32 {
    0
}

/// A CPU that has left its reset handler: listening, with the stored privilege System.
fn listening_cpu() -> Cpu {
    let mut cpu = Cpu::new();
    cpu.leave_interrupt();
    cpu
}

/// Encodes a 32-bit register-group instruction: group `[31:27]`, bit 6, code `[26:24]`,
/// `rs1` `[21:17]`, `rd` `[16:12]`, `rs2` `[11:8]` and `[7]`.
fn reg_form(group: u32, b6: u32, code: u32, rd: u32, rs1: u32, rs2: u32) -> u32 {
    (group << 27)
        | (code << 24)
        | (0x3 << 22)
        | (rs1 << 17)
        | (rd << 12)
        | ((rs2 & 0xF) << 8)
        | ((rs2 >> 4) << 7)
        | (b6 << 6)
}

#[test]
fn add_sets_carry_and_zero() {
    let mut cpu = Cpu::new();
    let r = cpu.execute_add(0xFFFF_FFFF, 1, false);
    assert_eq!(r, 0);
    let f = cpu.flags();
    assert!(f.carry);
    assert!(!f.sign);
    assert!(!f.overflow);
}

#[test]
fn add_signed_overflow() {
    let mut cpu = Cpu::new();
    let r = cpu.execute_add(0x7FFF_FFFF, 1, false);
    assert_eq!(r, 0x8000_0000);
    let f = cpu.flags();
    assert!(!f.carry);
    assert!(f.sign);
    assert!(f.overflow);
    let r = cpu.execute_add(0xFFFF_FFFE, 0, true);
    assert_eq!(r, 0xFFFF_FFFF);
    assert!(!cpu.flags().carry);
    assert!(!cpu.flags().overflow);
}

#[test]
fn enter_then_leave_restores_context() {
    let mut cpu = listening_cpu();
    cpu.set_reg(5, 0xABCD);
    let pc = cpu.program_counter();
    cpu.execute_add(0xFFFF_FFFF, 1, false);
    let flags = cpu.flags();
    cpu.enter_interrupt(0x2000_0100);
    assert_eq!(cpu.program_counter(), 0x2000_0100);
    assert_eq!(cpu.interrupt_state(), InterruptState::Servicing);
    assert_eq!(cpu.get_reg(5), 0);
    cpu.set_reg(5, 7);
    cpu.leave_interrupt();
    assert_eq!(cpu.program_counter(), pc);
    assert_eq!(cpu.interrupt_state(), InterruptState::Listening);
    assert_eq!(cpu.get_reg(5), 0xABCD);
    assert_eq!(cpu.flags(), flags);
}

#[test]
fn highest_pending_interrupt_wins() {
    let mut cpu = listening_cpu();
    let mut io = IoBus::new();
    cpu.write_io(&mut io, 0x030, 0xFFFF, PrivilegeLevel::System).unwrap();
    cpu.signal_interrupt(2);
    cpu.signal_interrupt(5);
    cpu.signal_interrupt(9);
    assert_eq!(cpu.next_interrupt(), Some(9));
    let pending = cpu.read_io(&mut io, 0x031, PrivilegeLevel::System).unwrap();
    assert_eq!(pending, (1 << 2) | (1 << 5));
}

#[test]
fn masked_or_servicing_takes_no_interrupt() {
    let mut cpu = listening_cpu();
    cpu.signal_interrupt(3);
    assert_eq!(cpu.next_interrupt(), None);
    let mut servicing = Cpu::new();
    let mut io = IoBus::new();
    servicing.write_io(&mut io, 0x030, 0xFFFF, PrivilegeLevel::System).unwrap();
    servicing.signal_interrupt(3);
    assert_eq!(servicing.next_interrupt(), None);
}

#[test]
fn divide_by_zero_saturates() {
    let mut cpu = Cpu::new();
    cpu.set_reg(1, 1234);
    cpu.set_reg(2, 0);
    cpu.set_reg(3, 0xFFFF_FFF0);
    for (code, rs1, expected) in [
        (4, 1, 0xFFFF_FFFFu32),
        (5, 1, 0x7FFF_FFFF),
        (5, 3, 0x8000_0000),
        (6, 1, 0),
        (7, 3, 0),
    ] {
        cpu.mul_32(reg_form(1, 1, code, 10, rs1, 2));
        assert_eq!(cpu.get_reg(10), expected, "code {code}");
    }
}

#[test]
fn multiply_and_divide_results() {
    let mut cpu = Cpu::new();
    cpu.set_reg(1, 0xFFFF_FFF9); // -7
    cpu.set_reg(2, 2);
    cpu.set_reg(3, 0x8000_0000);
    cpu.set_reg(4, 0xFFFF_FFFF); // -1
    cpu.mul_32(reg_form(1, 1, 0, 10, 1, 2));
    assert_eq!(cpu.get_reg(10), 0xFFFF_FFF2);
    cpu.mul_32(reg_form(1, 1, 1, 10, 1, 2));
    assert_eq!(cpu.get_reg(10), 1);
    cpu.mul_32(reg_form(1, 1, 2, 10, 1, 2));
    assert_eq!(cpu.get_reg(10), 0xFFFF_FFFF);
    cpu.mul_32(reg_form(1, 1, 3, 10, 2, 1));
    assert_eq!(cpu.get_reg(10), 0xFFFF_FFFF);
    cpu.mul_32(reg_form(1, 1, 5, 10, 1, 2));
    assert_eq!(cpu.get_reg(10), 0xFFFF_FFFD); // -7 / 2 = -3
    cpu.mul_32(reg_form(1, 1, 7, 10, 1, 2));
    assert_eq!(cpu.get_reg(10), 0xFFFF_FFFF); // -7 % 2 = -1
    cpu.mul_32(reg_form(1, 1, 5, 10, 3, 4));
    assert_eq!(cpu.get_reg(10), 0x8000_0000); // i32::MIN / -1 wraps
    cpu.mul_32(reg_form(1, 1, 7, 10, 3, 4));
    assert_eq!(cpu.get_reg(10), 0);
    cpu.mul_32(reg_form(1, 1, 4, 10, 1, 2));
    assert_eq!(cpu.get_reg(10), 0x7FFF_FFFC);
    cpu.mul_32(reg_form(1, 1, 6, 10, 1, 2));
    assert_eq!(cpu.get_reg(10), 1);
}

#[test]
fn carry_chain_keeps_zero_sticky() {
    let mut cpu = Cpu::new();
    cpu.set_reg(1, 0);
    cpu.set_reg(2, 0);
    cpu.set_reg(3, 5);
    // cmp r1, r2 sets zero and carry.
    cpu.cmp_16((1 << 12) | (2 << 8) | 0x17);
    assert!(cpu.flags().zero);
    // subc r10 = r1 - r2 - !carry = 0: zero stays set.
    cpu.aluc_32(reg_form(1, 0, 1, 10, 1, 2)).unwrap();
    assert_eq!(cpu.get_reg(10), 0);
    assert!(cpu.flags().zero);
    // addc with a nonzero result clears zero; a later zero result does not set it.
    cpu.aluc_32(reg_form(1, 0, 0, 10, 3, 2)).unwrap();
    assert!(!cpu.flags().zero);
    cpu.aluc_32(reg_form(1, 0, 0, 10, 1, 2)).unwrap();
    assert!(!cpu.flags().zero);
    assert_eq!(
        cpu.aluc_32(reg_form(1, 0, 2, 10, 1, 2)),
        Err(ExceptionKind::IllegalInstruction)
    );
}

#[test]
fn user_cannot_reach_configuration() {
    let mut cpu = listening_cpu();
    let mut io = IoBus::new();
    for addr in [0x000u32, 0x010, 0x020, 0x030, 0x031, 0x032, 0x033, 0x03F, 0x040, 0x05F] {
        assert_eq!(
            cpu.read_io(&mut io, addr, PrivilegeLevel::User),
            Err(IoError::AccessViolation)
        );
        assert_eq!(
            cpu.write_io(&mut io, addr, 1, PrivilegeLevel::User),
            Err(IoError::AccessViolation)
        );
    }
}

#[test]
fn configuration_registers_round_trip() {
    let mut cpu = Cpu::new();
    let mut io = IoBus::new();
    cpu.write_io(&mut io, 0x005, 0x2000_0101, PrivilegeLevel::System).unwrap();
    assert_eq!(cpu.read_io(&mut io, 0x005, PrivilegeLevel::System), Ok(0x2000_0100));
    cpu.write_io(&mut io, 0x032, 3, PrivilegeLevel::System).unwrap();
    assert_eq!(cpu.read_io(&mut io, 0x032, PrivilegeLevel::System), Ok(1));
    cpu.write_io(&mut io, 0x03F, 0xFF, PrivilegeLevel::System).unwrap();
    assert_eq!(cpu.read_io(&mut io, 0x03F, PrivilegeLevel::System), Ok(0xF));
    cpu.write_io(&mut io, 0x045, 77, PrivilegeLevel::System).unwrap();
    assert_eq!(cpu.read_io(&mut io, 0x045, PrivilegeLevel::System), Ok(77));
    cpu.write_io(&mut io, 0x040, 77, PrivilegeLevel::System).unwrap();
    assert_eq!(cpu.read_io(&mut io, 0x040, PrivilegeLevel::System), Ok(0));
    cpu.write_io(&mut io, 0x030, 0x1_2345, PrivilegeLevel::System).unwrap();
    assert_eq!(cpu.read_io(&mut io, 0x030, PrivilegeLevel::System), Ok(0x2345));
}

#[test]
fn sysret_while_listening_is_illegal() {
    let mut cpu = listening_cpu();
    assert_eq!(
        cpu.sys_16(0x0197),
        Err(Fault::Exception(ExceptionKind::IllegalInstruction))
    );
}

#[test]
fn syscall_while_servicing_is_fatal() {
    let mut cpu = Cpu::new();
    assert_eq!(
        cpu.sys_16(0x0F97),
        Err(Fault::Fatal(FatalError::NestedSoftwareInterrupt))
    );
}

#[test]
fn exception_while_servicing_is_fatal() {
    let mut cpu = Cpu::new();
    assert_eq!(
        cpu.exception(ExceptionKind::AccessViolation),
        Err(FatalError::NestedException(ExceptionKind::AccessViolation))
    );
    let mut listening = listening_cpu();
    assert_eq!(listening.exception(ExceptionKind::AccessViolation), Ok(()));
    assert_eq!(listening.interrupt_state(), InterruptState::Servicing);
}

#[test]
fn fetch_failure_enters_exception_handler() {
    // Listening at User privilege with the PC in kernel RAM: the fetch violates access.
    let mut cpu = Cpu::new();
    let mut io = IoBus::new();
    cpu.write_io(&mut io, 0x021, 0x2000_0041, PrivilegeLevel::System).unwrap();
    cpu.write_io(&mut io, 0x032, 1, PrivilegeLevel::System).unwrap();
    cpu.write_io(&mut io, 0x033, RESET_PROGRAM_COUNTER, PrivilegeLevel::System).unwrap();
    cpu.leave_interrupt();
    assert_eq!(cpu.program_counter(), RESET_PROGRAM_COUNTER);
    let mut mem = Mmu::new();
    assert_eq!(cpu.step(&mut mem, &mut io, &no_float), Ok(None));
    assert_eq!(cpu.program_counter(), 0x2000_0040);
    assert_eq!(cpu.interrupt_state(), InterruptState::Servicing);
    assert_eq!(
        cpu.read_io(&mut io, 0x033, PrivilegeLevel::System),
        Ok(RESET_PROGRAM_COUNTER)
    );
}
