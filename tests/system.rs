use art32::system::{KERNEL_RAM_SIZE, KERNEL_RAM_START, SYSTEM_RAM_START};
use art32::{
    Art32, Cpu, EnvAction, ExceptionKind, FatalError, FloatOp, IoBus, IoError, IoInterface, MemoryError,
    MemoryInterface, Mmu, PrivilegeLevel,
};

/// IEEE-754 single precision on the host.
fn host_float(op: FloatOp) -> u32 {
    match op {
        FloatOp::Binary { op, lhs, rhs } => {
            let (a, b) = (f32::from_bits(lhs), f32::from_bits(rhs));
            let r = match op {
                0 => a + b,
                1 => a - b,
                2 => a * b,
                3 => a / b,
                6 => a.min(b),
                _ => a.max(b),
            };
            r.to_bits()
        }
        FloatOp::Unary { op, value } => {
            let v = f32::from_bits(value);
            let r = match op {
                0 => v.floor(),
                1 => v.ceil(),
                2 => v.round(),
                3 => v.trunc(),
                6 => v.sqrt(),
                _ => v.sqrt().recip(),
            };
            r.to_bits()
        }
        FloatOp::Compare { op, lhs, rhs } => {
            let (a, b) = (f32::from_bits(lhs), f32::from_bits(rhs));
            let holds = match op {
                0 => a == b,
                1 => a != b,
                2 => a < b,
                _ => a >= b,
            };
            holds as u32
        }
        FloatOp::ToInt { value } => f32::from_bits(value) as u32,
        FloatOp::FromInt { value } => (value as f32).to_bits(),
    }
}

/// A kernel image holding the given half-words from its start, zero elsewhere.
fn kernel_with(program: &[u16]) -> Vec<u8> {
    let mut image = vec![0u8; KERNEL_RAM_SIZE as usize];
    for (i, half) in program.iter().enumerate() {
        image[2 * i] = (*half & 0xFF) as u8;
        image[2 * i + 1] = (*half >> 8) as u8;
    }
    image
}

/// A kernel image holding the given 32-bit instructions (lower half-word first).
fn kernel_with_words(program: &[u32]) -> Vec<u8> {
    let halves: Vec<u16> = program
        .iter()
        .flat_map(|w| [(*w & 0xFFFF) as u16, (*w >> 16) as u16])
        .collect();
    kernel_with(&halves)
}

const LDI_R1_5: u16 = 0x1280;
const LDI_R1_MINUS_1: u16 = 0x1FFC;
const LDI_R2_1: u16 = 0x2080;
const ADD_R1_R2: u16 = 0x1207;

#[test]
fn ldi_loads_immediate_and_keeps_flags() {
    let mut sys = Art32::new(&kernel_with(&[LDI_R1_5]));
    let flags = sys.cpu().flags();
    assert_eq!(sys.step(0, &host_float), Ok(None));
    assert_eq!(sys.cpu().get_reg(1), 5);
    assert_eq!(sys.cpu().program_counter(), KERNEL_RAM_START + 2);
    assert_eq!(sys.cpu().flags(), flags);
}

#[test]
fn add_wraps_to_zero_with_carry() {
    let mut sys = Art32::new(&kernel_with(&[LDI_R1_MINUS_1, LDI_R2_1, ADD_R1_R2]));
    for _ in 0..3 {
        assert_eq!(sys.step(0, &host_float), Ok(None));
    }
    assert_eq!(sys.cpu().get_reg(1), 0);
    let f = sys.cpu().flags();
    assert!(f.carry);
    assert!(f.zero);
    assert!(!f.sign);
    assert!(!f.overflow);
    assert_eq!(sys.cpu().program_counter(), KERNEL_RAM_START + 6);
}

#[test]
fn envcall_reports_actions() {
    // envcall 0, 1, 2, 9
    let mut sys = Art32::new(&kernel_with(&[0x0E97, 0x1E97, 0x2E97, 0x9E97]));
    assert_eq!(sys.step(0, &host_float), Ok(Some(EnvAction::Break)));
    assert_eq!(sys.step(0, &host_float), Ok(Some(EnvAction::Reset)));
    assert_eq!(sys.step(0, &host_float), Ok(Some(EnvAction::Error)));
    assert_eq!(sys.step(0, &host_float), Ok(None));
    assert_eq!(EnvAction::new(3), None);
}

#[test]
fn illegal_instruction_in_reset_handler_is_fatal() {
    // system code 4 is unassigned; the CPU starts inside its reset handler.
    let mut sys = Art32::new(&kernel_with(&[0x0497]));
    assert_eq!(
        sys.step(0, &host_float),
        Err(FatalError::NestedException(ExceptionKind::IllegalInstruction))
    );
}

#[test]
fn reset_reloads_kernel_and_pc() {
    let mut sys = Art32::new(&kernel_with(&[LDI_R1_5]));
    sys.step(0, &host_float).unwrap();
    sys.reset();
    assert_eq!(sys.cpu().program_counter(), KERNEL_RAM_START);
    assert_eq!(sys.cpu().get_reg(1), 5);
}

#[test]
fn serial_out_and_timer_through_io_instructions() {
    // ldi r1, 0x48 ('H'); ldi r2, 0x09 -> shl 4 gives 0x90; out [r2+0], r1;
    // in r3, [r0+0x80] reads the timer low word.
    let ldi_r1_h: u16 = (1 << 12) | ((0x48 & 0x1F) << 7) | (((0x48 >> 6) & 0x7) << 4) | (((0x48 >> 5) & 1) << 2);
    let ldi_r2_9: u16 = (2 << 12) | (9 << 7);
    let shli_r2_4: u16 = (2 << 12) | (4 << 7) | (1 << 5) | 0x17;
    // out: store form, code [26:25] = 3, rb = r2, rs = r1, offset 0.
    let out_r1: u32 = (0x2 << 22) | (0x3 << 25) | (2 << 17) | (1 << 8) | 0x40 | 0x3F;
    // in: load form, code [26:24] = 6, rb = r0, rd = r3, offset 0x80 split as [30:27] and [11:7].
    let in_r3: u32 = (0x2 << 22) | (0x6 << 24) | (0x4 << 27) | (3 << 12) | 0x3F;
    let mut halves = vec![ldi_r1_h, ldi_r2_9, shli_r2_4];
    for w in [out_r1, in_r3] {
        halves.push((w & 0xFFFF) as u16);
        halves.push((w >> 16) as u16);
    }
    let mut sys = Art32::new(&kernel_with(&halves));
    for _ in 0..5 {
        assert_eq!(sys.step(0x1_0000_0007, &host_float), Ok(None));
    }
    assert_eq!(sys.cpu().get_reg(2), 0x90);
    assert_eq!(sys.take_serial_output(), vec![b'H']);
    assert_eq!(sys.take_serial_output(), Vec::<u8>::new());
    assert_eq!(sys.cpu().get_reg(3), 7);
}

/// Encodes a 32-bit register-group instruction: group `[31:27]`, bit 6, code `[26:24]`,
/// `rs1` `[21:17]`, `rd` `[16:12]`, `rs2` `[11:8]` and `[7]`.
fn reg_form(group: u32, b6: u32, code: u32, rd: u32, rs1: u32, rs2: u32) -> u32 {
    (group << 27)
        | (code << 24)
        | (0x3 << 22)
        | (rs1 << 17)
        | (rd << 12)
        | ((rs2 & 0xF) << 8)
        | ((rs2 >> 4) << 7)
        | (b6 << 6)
        | 0x3F
}

#[test]
fn float_forms_use_the_float_unit() {
    let mut cpu = Cpu::new();
    cpu.set_reg(1, 1.5f32.to_bits());
    cpu.set_reg(2, 2.0f32.to_bits());
    cpu.fpu3_32(reg_form(2, 0, 0, 3, 1, 2), &host_float).unwrap();
    assert_eq!(cpu.get_reg(3), 3.5f32.to_bits());
    assert_eq!(
        cpu.fpu3_32(reg_form(2, 0, 4, 3, 1, 2), &host_float),
        Err(ExceptionKind::IllegalInstruction)
    );
    cpu.fpu2_32(reg_form(2, 1, 5, 4, 1, 0), &host_float);
    assert_eq!(cpu.get_reg(4), (-1.5f32).to_bits());
    cpu.fpu2_32(reg_form(2, 1, 4, 5, 4, 0), &host_float);
    assert_eq!(cpu.get_reg(5), 1.5f32.to_bits());
    cpu.fpu2_32(reg_form(2, 1, 6, 5, 2, 0), &host_float);
    assert_eq!(cpu.get_reg(5), 2.0f32.sqrt().to_bits());
    cpu.fcmp_32(reg_form(3, 0, 2, 6, 1, 2), &host_float);
    assert_eq!(cpu.get_reg(6), 1);
    cpu.fcmp_32(reg_form(3, 0, 0, 6, 1, 2), &host_float);
    assert_eq!(cpu.get_reg(6), 0);
    cpu.cvt_32(reg_form(3, 1, 0, 7, 3, 0), &host_float).unwrap();
    assert_eq!(cpu.get_reg(7), 3);
    assert_eq!(
        cpu.cvt_32(reg_form(3, 1, 2, 7, 3, 0), &host_float),
        Err(ExceptionKind::IllegalInstruction)
    );
}

#[test]
fn float_instruction_through_step() {
    // fadd r3, r0, r0 (0.0 + 0.0) as the first instruction of the kernel.
    let mut sys = Art32::new(&kernel_with_words(&[reg_form(2, 0, 0, 3, 0, 0)]));
    assert_eq!(sys.step(0, &host_float), Ok(None));
    assert_eq!(sys.cpu().get_reg(3), 0);
    assert_eq!(sys.cpu().program_counter(), KERNEL_RAM_START + 4);
}

#[test]
fn reservation_succeeds_once() {
    let mut mmu = Mmu::new();
    let a = SYSTEM_RAM_START + 0x40;
    assert_eq!(mmu.read_32(a, PrivilegeLevel::User, true), Ok(0));
    assert_eq!(mmu.write_32(a, 11, PrivilegeLevel::User, true), Ok(true));
    assert_eq!(mmu.read_32(a, PrivilegeLevel::User, false), Ok(11));
    assert_eq!(mmu.write_32(a, 12, PrivilegeLevel::User, true), Ok(false));
    assert_eq!(mmu.read_32(a, PrivilegeLevel::User, false), Ok(11));
}

#[test]
fn store_conditional_elsewhere_fails_without_writing() {
    let mut mmu = Mmu::new();
    let a = SYSTEM_RAM_START + 0x40;
    let b = SYSTEM_RAM_START + 0x80;
    mmu.read_32(a, PrivilegeLevel::User, true).unwrap();
    assert_eq!(mmu.write_32(b, 5, PrivilegeLevel::User, true), Ok(false));
    assert_eq!(mmu.read_32(b, PrivilegeLevel::User, false), Ok(0));
    assert_eq!(mmu.write_8(b + 1, 5, PrivilegeLevel::User, true), Ok(false));
    assert_eq!(mmu.read_8(b + 1, PrivilegeLevel::User, false), Ok(0));
    // the reservation on `a` still stands
    assert_eq!(mmu.write_32(a, 1, PrivilegeLevel::User, true), Ok(true));
}

#[test]
fn plain_store_clears_reservation() {
    let mut mmu = Mmu::new();
    let a = SYSTEM_RAM_START + 0x40;
    mmu.read_32(a, PrivilegeLevel::User, true).unwrap();
    assert_eq!(mmu.write_16(a + 2, 0xBEEF, PrivilegeLevel::User, false), Ok(true));
    assert_eq!(mmu.write_32(a, 1, PrivilegeLevel::User, true), Ok(false));
    assert_eq!(mmu.read_32(a, PrivilegeLevel::User, false), Ok(0xBEEF_0000));
}

#[test]
fn user_cannot_reach_kernel_ram() {
    let mut mmu = Mmu::new();
    for addr in [KERNEL_RAM_START, KERNEL_RAM_START + 0x100, KERNEL_RAM_START + KERNEL_RAM_SIZE - 4] {
        assert_eq!(mmu.read_32(addr, PrivilegeLevel::User, false), Err(MemoryError::AccessViolation));
        assert_eq!(mmu.read_8(addr + 1, PrivilegeLevel::User, false), Err(MemoryError::AccessViolation));
        assert_eq!(mmu.write_16(addr, 1, PrivilegeLevel::User, false), Err(MemoryError::AccessViolation));
        assert_eq!(mmu.read_32(addr, PrivilegeLevel::System, false), Ok(0));
    }
    assert_eq!(mmu.read_32(0x3000_0000, PrivilegeLevel::System, false), Err(MemoryError::AccessViolation));
}

#[test]
fn misaligned_accesses_are_unaligned() {
    let mut mmu = Mmu::new();
    for p in [PrivilegeLevel::System, PrivilegeLevel::User] {
        for base in [KERNEL_RAM_START, SYSTEM_RAM_START, 0x3000_0000] {
            for off in [1u32, 2, 3] {
                assert_eq!(mmu.read_32(base + off, p, false), Err(MemoryError::UnalignedAccess));
                assert_eq!(mmu.write_32(base + off, 0, p, false), Err(MemoryError::UnalignedAccess));
            }
            assert_eq!(mmu.read_16(base + 1, p, false), Err(MemoryError::UnalignedAccess));
            assert_eq!(mmu.write_16(base + 3, 0, p, true), Err(MemoryError::UnalignedAccess));
        }
    }
}

#[test]
fn little_endian_memory() {
    let mut mmu = Mmu::new();
    let a = SYSTEM_RAM_START + 0x10;
    mmu.write_32(a, 0x1122_3344, PrivilegeLevel::User, false).unwrap();
    assert_eq!(mmu.read_8(a, PrivilegeLevel::User, false), Ok(0x44));
    assert_eq!(mmu.read_16(a + 2, PrivilegeLevel::User, false), Ok(0x1122));
    mmu.write_8(a + 3, 0xAA, PrivilegeLevel::User, false).unwrap();
    assert_eq!(mmu.read_32(a, PrivilegeLevel::User, false), Ok(0xAA22_3344));
}

#[test]
fn io_bus_devices() {
    let mut bus = IoBus::new();
    bus.set_time(0x5_0000_0003);
    assert_eq!(bus.read(0x080, PrivilegeLevel::User), Ok(3));
    assert_eq!(bus.read(0x081, PrivilegeLevel::User), Ok(5));
    assert_eq!(bus.read(0x082, PrivilegeLevel::User), Ok(1));
    assert_eq!(bus.read(0x090, PrivilegeLevel::User), Err(IoError::AccessViolation));
    assert_eq!(bus.read(0x091, PrivilegeLevel::User), Ok(u32::MAX));
    assert_eq!(bus.read(0x093, PrivilegeLevel::User), Ok(0));
    assert_eq!(bus.read(0x092, PrivilegeLevel::User), Ok(0));
    bus.push_input(b'x');
    assert_eq!(bus.read(0x093, PrivilegeLevel::User), Ok(1));
    assert_eq!(bus.read(0x092, PrivilegeLevel::User), Ok(b'x' as u32));
    assert_eq!(bus.read(0x093, PrivilegeLevel::User), Ok(0));
    assert_eq!(bus.write(0x080, 1, PrivilegeLevel::System), Err(IoError::AccessViolation));
    assert_eq!(bus.write(0x090, 0x141, PrivilegeLevel::User), Ok(()));
    assert_eq!(bus.take_output(), vec![0x41]);
}

#[test]
fn float_request_carries_operands() {
    let mut cpu = Cpu::new();
    cpu.set_reg(1, 0x1234_0000);
    cpu.set_reg(17, 0x0000_5678);
    let echo = |op: FloatOp| match op {
        FloatOp::Binary { op, lhs, rhs } => lhs ^ rhs ^ op,
        FloatOp::Unary { op, value } => value + op,
        FloatOp::Compare { .. } => 7,
        FloatOp::ToInt { value } => value + 1,
        FloatOp::FromInt { value } => value + 2,
    };
    cpu.fpu3_32(reg_form(2, 0, 3, 3, 1, 17), &echo).unwrap();
    assert_eq!(cpu.get_reg(3), 0x1234_5678 ^ 3);
    cpu.fpu2_32(reg_form(2, 1, 2, 4, 17, 0), &echo);
    assert_eq!(cpu.get_reg(4), 0x5678 + 2);
    cpu.fcmp_32(reg_form(3, 0, 1, 5, 1, 17), &echo);
    assert_eq!(cpu.get_reg(5), 1);
    cpu.cvt_32(reg_form(3, 1, 0, 6, 17, 0), &echo).unwrap();
    assert_eq!(cpu.get_reg(6), 0x5679);
    cpu.cvt_32(reg_form(3, 1, 1, 6, 17, 0), &echo).unwrap();
    assert_eq!(cpu.get_reg(6), 0x567A);
}
