use art32::bits::{imm_branch_16, imm_jump_16, imm_ldi_16, imm_reg_32, imm_upper_32, rs2_32};
use art32::register::{BranchCondition, Condition};
use art32::{Flags, RegisterFile};

#[test]
fn set_then_get_every_register() {
    let mut regs = RegisterFile::new();
    for reg in 1..32usize {
        regs.set(reg, 0xDEAD_0000 + reg as u32);
    }
    for reg in 1..32usize {
        assert_eq!(regs.get(reg), 0xDEAD_0000 + reg as u32);
    }
}

#[test]
fn zero_register_discards_writes() {
    let mut regs = RegisterFile::new();
    regs.set(0, 0x1234_5678);
    assert_eq!(regs.get(0), 0);
}

#[test]
fn flags_pack_and_unpack() {
    let f = Flags { carry: true, zero: false, sign: true, overflow: false };
    assert_eq!(f.bits(), 0b0101);
    assert_eq!(Flags::from_bits_truncate(0b1111_0101), f);
    assert_eq!(Flags::from_bits(0b0101), Some(f));
    assert_eq!(Flags::from_bits(0x10), None);
    assert_eq!(Flags::empty().bits(), 0);
}

#[test]
fn unsigned_and_signed_conditions() {
    let carry = Flags { carry: true, zero: false, sign: false, overflow: false };
    assert!(carry.satisfy(Condition::Ge));
    assert!(!carry.satisfy(Condition::Lt));
    let less_signed = Flags { carry: false, zero: false, sign: true, overflow: false };
    assert!(less_signed.satisfy(Condition::Lts));
    assert!(!less_signed.satisfy(Condition::Ges));
    let overflowed = Flags { carry: false, zero: false, sign: true, overflow: true };
    assert!(overflowed.satisfy(Condition::Ges));
    assert!(Flags::empty().satisfy(Condition::True));
    assert!(!Flags::empty().satisfy(Condition::False));
    assert!(Flags::empty().satisfy_branch(BranchCondition::Link));
    assert!(!Flags::empty().satisfy_branch(BranchCondition::Eq));
    assert_eq!(Condition::from_code(7), Condition::False);
    assert_eq!(BranchCondition::from_code(7), BranchCondition::Link);
}

#[test]
fn immediate_fields() {
    // ldi r1, -1: every immediate bit set, sign from bit 3.
    assert_eq!(imm_ldi_16(0x1FFC), 0xFFFF_FFFF);
    // ldi r1, 5
    assert_eq!(imm_ldi_16(0x1280), 5);
    // bit 2 lands at bit 5, bits [6:4] at [8:6].
    assert_eq!(imm_ldi_16(0x0074), 0x1E0);
    // jump offset: [11:8] -> [4:1], [7] -> [5], [6:4] -> [8:6].
    assert_eq!(imm_jump_16(0x0FF0), 0x1FE);
    assert_eq!(imm_jump_16(0x0008), 0xFFFF_FE00);
    // branch offset: [15] -> [5].
    assert_eq!(imm_branch_16(0x8000), 0x20);
    // 32-bit register-immediate: sign from bit 31 at bit 9 and up.
    assert_eq!(imm_reg_32(0x8000_0000), 0xFFFF_FE00);
    assert_eq!(imm_reg_32(0x7800_0F80), 0x1FF);
    // upper immediate: [11:8] -> [26:23].
    assert_eq!(imm_upper_32(0x0000_0F00), 0x0780_0000);
    // split register field: [11:8] low bits, [7] high bit.
    assert_eq!(rs2_32(0x0000_0F80), 31);
}

#[test]
fn flags_as_text() {
    let f = Flags { carry: true, zero: true, sign: false, overflow: true };
    assert_eq!(f.to_text(), b"O_ZC".to_vec());
    assert_eq!(Flags::empty().to_text(), b"____".to_vec());
}
