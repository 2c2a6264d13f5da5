//! Bit-field extraction and the immediate layouts of the instruction encodings.

use vstd::prelude::*;

verus! {

/// Bits `[lo + k - 1 : lo]` of `i`, where `mask` is `2^k - 1`.
#[verifier::allow_in_spec]
pub fn field(i: u32, lo: u32, mask: u32) -> (r: u32)
    requires
        lo < 32,
    returns
        (i >> lo) & mask,
{
    (i >> lo) & mask
}

/// A field read with `field` is at most its mask.
pub proof fn lemma_field_bound(i: u32, lo: u32, mask: u32)
    ensures
        (i >> lo) & mask <= mask,
{
    assert((i >> lo) & mask <= mask) by (bit_vector);
}

/// All ones when bit `bit` of `i` is set, else zero: the fill used to sign-extend from
/// that bit.
#[verifier::allow_in_spec]
pub fn sign_fill(i: u32, bit: u32) -> (r: u32)
    requires
        bit < 32,
    returns
        if (i >> bit) & 1 == 1 {
            0xFFFF_FFFFu32
        } else {
            0u32
        },
{
    if (i >> bit) & 1 == 1 {
        0xFFFF_FFFF
    } else {
        0
    }
}

/// A 4-bit register field at bit `lo`, as a register index.
pub fn reg4(i: u32, lo: u32) -> (r: usize)
    requires
        lo < 32,
    ensures
        r == field(i, lo, 0xF),
        r < 16,
{
    proof {
        lemma_field_bound(i, lo, 0xF);
    }
    field(i, lo, 0xF) as usize
}

/// A 5-bit register field at bit `lo`, as a register index.
pub fn reg5(i: u32, lo: u32) -> (r: usize)
    requires
        lo < 32,
    ensures
        r == field(i, lo, 0x1F),
        r < 32,
{
    proof {
        lemma_field_bound(i, lo, 0x1F);
    }
    field(i, lo, 0x1F) as usize
}

/// The split 5-bit register field of the three-register forms: bits `[11:8]` are the low
/// four bits of the index and bit 7 its high bit.
#[verifier::allow_in_spec]
pub fn rs2_32(i: u32) -> (r: u32)
    returns
        field(i, 8, 0xF) | (field(i, 7, 1) << 4),
{
    field(i, 8, 0xF) | (field(i, 7, 1) << 4)
}

/// `rs2_32` names one of the 32 registers.
pub proof fn lemma_rs2_32_bound(i: u32)
    ensures
        rs2_32(i) < 32,
{
    assert(((i >> 8) & 0xF) | (((i >> 7) & 1) << 4) < 32) by (bit_vector);
}

/// Immediate of the 16-bit load/add-immediate form: `[11:7]->[4:0]`, `[6:4]->[8:6]`,
/// `[2]->[5]`, sign from `[3]` at bit 9 and up.
#[verifier::allow_in_spec]
pub fn imm_ldi_16(i: u32) -> (r: u32)
    returns
        field(i, 7, 0x1F) | (field(i, 4, 0x7) << 6) | (sign_fill(i, 3) << 9) | (field(i, 2, 1)
            << 5),
{
    field(i, 7, 0x1F) | (field(i, 4, 0x7) << 6) | (sign_fill(i, 3) << 9) | (field(i, 2, 1) << 5)
}

/// Offset of the 16-bit jump form: `[11:8]->[4:1]`, `[7]->[5]`, `[6:4]->[8:6]`, sign from
/// `[3]` at bit 9 and up.
#[verifier::allow_in_spec]
pub fn imm_jump_16(i: u32) -> (r: u32)
    returns
        (field(i, 8, 0xF) << 1) | (field(i, 7, 1) << 5) | (field(i, 4, 0x7) << 6) | (sign_fill(
            i,
            3,
        ) << 9),
{
    (field(i, 8, 0xF) << 1) | (field(i, 7, 1) << 5) | (field(i, 4, 0x7) << 6) | (sign_fill(i, 3)
        << 9)
}

/// Offset of the 16-bit branch form: `[15]->[5]`, `[11:8]->[4:1]`, `[6:4]->[8:6]`, sign
/// from `[3]` at bit 9 and up.
#[verifier::allow_in_spec]
pub fn imm_branch_16(i: u32) -> (r: u32)
    returns
        (field(i, 15, 1) << 5) | (field(i, 8, 0xF) << 1) | (field(i, 4, 0x7) << 6) | (sign_fill(
            i,
            3,
        ) << 9),
{
    (field(i, 15, 1) << 5) | (field(i, 8, 0xF) << 1) | (field(i, 4, 0x7) << 6) | (sign_fill(i, 3)
        << 9)
}

/// Immediate of the upper-immediate form: sign `[31]->[31]`, `[30:27]->[30:27]`,
/// `[26:24]->[12:10]`, `[23:22]->[14:13]`, `[21:17]->[19:15]`, `[11:8]->[26:23]`,
/// `[6:4]->[22:20]`.
#[verifier::allow_in_spec]
pub fn imm_upper_32(i: u32) -> (r: u32)
    returns
        (sign_fill(i, 31) << 31) | (field(i, 27, 0xF) << 27) | (field(i, 24, 0x7) << 10) | (
        field(i, 22, 0x3) << 13) | (field(i, 17, 0x1F) << 15) | (field(i, 8, 0xF) << 23) | (
        field(i, 4, 0x7) << 20),
{
    (sign_fill(i, 31) << 31) | (field(i, 27, 0xF) << 27) | (field(i, 24, 0x7) << 10) | (field(
        i,
        22,
        0x3,
    ) << 13) | (field(i, 17, 0x1F) << 15) | (field(i, 8, 0xF) << 23) | (field(i, 4, 0x7) << 20)
}

/// Offset of the 32-bit jump form: sign `[31]` at bit 13 and up, `[30:27]->[8:5]`,
/// `[26:24]->[12:10]`, `[11:8]->[4:1]`, `[7]->[9]`.
#[verifier::allow_in_spec]
pub fn imm_jump_32(i: u32) -> (r: u32)
    returns
        (sign_fill(i, 31) << 13) | (field(i, 27, 0xF) << 5) | (field(i, 24, 0x7) << 10) | (
        field(i, 8, 0xF) << 1) | (field(i, 7, 1) << 9),
{
    (sign_fill(i, 31) << 13) | (field(i, 27, 0xF) << 5) | (field(i, 24, 0x7) << 10) | (field(
        i,
        8,
        0xF,
    ) << 1) | (field(i, 7, 1) << 9)
}

/// Offset of the 32-bit branch form: sign `[31]` at bit 20 and up, `[30:27]->[8:5]`,
/// `[26:24]->[12:10]`, `[21:15]->[19:13]`, `[11:8]->[4:1]`, `[7]->[9]`.
#[verifier::allow_in_spec]
pub fn imm_branch_32(i: u32) -> (r: u32)
    returns
        (sign_fill(i, 31) << 20) | (field(i, 27, 0xF) << 5) | (field(i, 24, 0x7) << 10) | (
        field(i, 15, 0x7F) << 13) | (field(i, 8, 0xF) << 1) | (field(i, 7, 1) << 9),
{
    (sign_fill(i, 31) << 20) | (field(i, 27, 0xF) << 5) | (field(i, 24, 0x7) << 10) | (field(
        i,
        15,
        0x7F,
    ) << 13) | (field(i, 8, 0xF) << 1) | (field(i, 7, 1) << 9)
}

/// Immediate of the 32-bit register-immediate forms (ALU, conditional move, load): sign
/// `[31]` at bit 9 and up, `[30:27]->[8:5]`, `[11:7]->[4:0]`.
#[verifier::allow_in_spec]
pub fn imm_reg_32(i: u32) -> (r: u32)
    returns
        (sign_fill(i, 31) << 9) | (field(i, 27, 0xF) << 5) | field(i, 7, 0x1F),
{
    (sign_fill(i, 31) << 9) | (field(i, 27, 0xF) << 5) | field(i, 7, 0x1F)
}

/// Offset of the 32-bit store form: sign `[31]` at bit 9 and up, `[30:27]->[8:5]`,
/// `[16:12]->[4:0]`.
#[verifier::allow_in_spec]
pub fn imm_store_32(i: u32) -> (r: u32)
    returns
        (sign_fill(i, 31) << 9) | (field(i, 27, 0xF) << 5) | field(i, 12, 0x1F),
{
    (sign_fill(i, 31) << 9) | (field(i, 27, 0xF) << 5) | field(i, 12, 0x1F)
}

/// Offset of the 16-bit stack-relative load/store form: `[11:9]->[4:2]`, `[8:7]->[6:5]`.
#[verifier::allow_in_spec]
pub fn imm_stack_16(i: u32) -> (r: u32)
    returns
        (field(i, 9, 0x7) << 2) | (field(i, 7, 0x3) << 5),
{
    (field(i, 9, 0x7) << 2) | (field(i, 7, 0x3) << 5)
}

/// Arithmetic right shift of `x` by `s` (< 32) places: vacated bits copy the sign.
#[verifier::allow_in_spec]
pub fn ashr(x: u32, s: u32) -> (r: u32)
    requires
        s < 32,
    returns
        if x < 0x8000_0000 {
            x >> s
        } else {
            !((!x) >> s)
        },
{
    if x < 0x8000_0000 {
        x >> s
    } else {
        !((!x) >> s)
    }
}

/// `x` with bit 0 cleared.
#[verifier::allow_in_spec]
pub fn clear_low(x: u32) -> (r: u32)
    returns
        x & 0xFFFF_FFFE,
{
    x & 0xFFFF_FFFE
}

/// `x` with bit 0 cleared is even.
pub proof fn lemma_clear_low_even(x: u32)
    ensures
        clear_low(x) % 2 == 0,
{
    assert((x & 0xFFFF_FFFE) % 2 == 0) by (bit_vector);
}

} // verus!
