use art32::Cpu;

#[derive(Debug, Clone, Copy)]
enum Op {
    Add,
    AddC,
    Sub,
    SubC,
}

const ALL_OPS: [Op; 4] = [Op::Add, Op::AddC, Op::Sub, Op::SubC];

fn carrying_add(lhs: u8, rhs: u8, carry: bool) -> (u8, bool) {
    let (s1, c1) = lhs.overflowing_add(rhs);
    let (s2, c2) = s1.overflowing_add(carry as u8);
    (s2, c1 | c2)
}

/// Every 8-bit add, add-with-carry, sub and sub-with-carry, checked against the top byte
/// of the CPU's 32-bit adder. The low 24 bits of the left operand are all ones and those
/// of the right-hand addend all zeros, so the carry-in reaches bit 24 exactly when it is
/// set, and the top byte behaves as an 8-bit adder.
#[test]
fn adder() {
    let mut cpu = Cpu::new();
    for &use_op in ALL_OPS.iter() {
        for use_lhs in 0..=u8::MAX {
            for use_rhs in 0..=u8::MAX {
                for use_carry_in in [false, true] {
                    let golden_rhs = match use_op {
                        Op::Add | Op::AddC => use_rhs,
                        Op::Sub | Op::SubC => !use_rhs,
                    };

                    let use_lhs_sign = (use_lhs as i8) < 0;
                    let use_rhs_sign = (golden_rhs as i8) < 0;

                    let golden_carry = match use_op {
                        Op::Add => false,
                        Op::AddC => use_carry_in,
                        Op::Sub => true,
                        Op::SubC => use_carry_in,
                    };

                    let (expect_result, expect_carry_out) =
                        carrying_add(use_lhs, golden_rhs, golden_carry);
                    let expect_sign = (expect_result as i8) < 0;
                    let expect_overflow =
                        (use_lhs_sign == use_rhs_sign) & (use_lhs_sign != expect_sign);

                    let lhs = ((use_lhs as u32) << 24) | 0x00FF_FFFF;
                    let result = match use_op {
                        Op::Add => cpu.execute_add(lhs, (use_rhs as u32) << 24, false),
                        Op::AddC => cpu.execute_add(lhs, (use_rhs as u32) << 24, use_carry_in),
                        Op::Sub => {
                            cpu.execute_add(lhs, !(((use_rhs as u32) << 24) | 0x00FF_FFFF), true)
                        }
                        Op::SubC => cpu.execute_add(
                            lhs,
                            !(((use_rhs as u32) << 24) | 0x00FF_FFFF),
                            use_carry_in,
                        ),
                    };
                    let flags = cpu.flags();

                    assert_eq!((result >> 24) as u8, expect_result);
                    assert_eq!(flags.carry, expect_carry_out);
                    assert_eq!(flags.sign, expect_sign);
                    assert_eq!(flags.overflow, expect_overflow);
                }
            }
        }
    }
}
