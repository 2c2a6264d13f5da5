//! The register file, the condition flags and the conditions evaluated against them.

use vstd::prelude::*;

verus! {

/// Number of general-purpose registers.
pub const REGISTER_COUNT: usize = 32;

/// Index of the register that always reads as zero.
pub const REG_ZERO: usize = 0;

/// Index of the return-address register.
pub const REG_RA: usize = 1;

/// Index of the stack-pointer register.
pub const REG_SP: usize = 2;

/// The value of a register file after writing `value` to register `reg`:
/// writes to the zero register are discarded.
pub open spec fn regs_set(regs: Seq<u32>, reg: int, value: u32) -> Seq<u32> {
    if reg == REG_ZERO as int {
        regs
    } else {
        regs.update(reg, value)
    }
}

/// Thirty-two 32-bit registers; register 0 is hard-wired to zero.
#[derive(Debug, Clone, PartialEq, Eq)]
pub struct RegisterFile {
    regs: Vec<u32>,
}

impl View for RegisterFile {
    type V = Seq<u32>;

    closed spec fn view(&self) -> Seq<u32> {
        self.regs@
    }
}

impl RegisterFile {
    /// Thirty-two registers, with register zero holding zero.
    pub open spec fn wf(&self) -> bool {
        &&& self@.len() == REGISTER_COUNT
        &&& self@[REG_ZERO as int] == 0
    }

    /// A register file with every register cleared.
    pub fn new() -> (r: RegisterFile)
        ensures
            r.wf(),
            r@ == Seq::new(REGISTER_COUNT as nat, |i: int| 0u32),
    {
        let mut regs: Vec<u32> = Vec::new();
        let mut i: usize = 0;
        while i < REGISTER_COUNT
            invariant
                i <= REGISTER_COUNT,
                regs@ == Seq::new(i as nat, |j: int| 0u32),
            decreases REGISTER_COUNT - i,
        {
            regs.push(0);
            i = i + 1;
            assert(regs@ =~= Seq::new(i as nat, |j: int| 0u32));
        }
        RegisterFile { regs }
    }

    /// Reads register `reg`.
    pub fn get(&self, reg: usize) -> (r: u32)
        requires
            self.wf(),
            reg < REGISTER_COUNT,
        ensures
            r == self@[reg as int],
            reg == REG_ZERO ==> r == 0,
    {
        self.regs[reg]
    }

    /// Writes `value` to register `reg`; a write to the zero register is discarded.
    pub fn set(&mut self, reg: usize, value: u32)
        requires
            old(self).wf(),
            reg < REGISTER_COUNT,
        ensures
            final(self).wf(),
            final(self)@ == regs_set(old(self)@, reg as int, value),
    {
        if reg != REG_ZERO {
            self.regs.set(reg, value);
        }
    }
}

/// Writing a register and reading it back yields the value written, except for the
/// zero register, which reads zero whatever was written to it.
pub proof fn lemma_set_then_get(regs: Seq<u32>, reg: int, value: u32)
    requires
        regs.len() == REGISTER_COUNT,
        regs[REG_ZERO as int] == 0,
        0 <= reg < REGISTER_COUNT,
    ensures
        regs_set(regs, reg, value).len() == REGISTER_COUNT,
        regs_set(regs, reg, value)[reg] == if reg == REG_ZERO as int { 0 } else { value },
        forall|other: int|
            0 <= other < REGISTER_COUNT && other != reg ==> #[trigger] regs_set(regs, reg, value)[other]
                == regs[other],
{
}

/// A single-condition predicate over the flags, selected by a 3-bit field.
#[derive(Debug, Clone, Copy, PartialEq, Eq, Structural)]
pub enum Condition {
    Eq,
    Ne,
    Lt,
    Ge,
    Lts,
    Ges,
    True,
    False,
}

/// The condition that the 3-bit code `code` selects.
pub open spec fn condition_of(code: u32) -> Condition {
    if code == 0 {
        Condition::Eq
    } else if code == 1 {
        Condition::Ne
    } else if code == 2 {
        Condition::Lt
    } else if code == 3 {
        Condition::Ge
    } else if code == 4 {
        Condition::Lts
    } else if code == 5 {
        Condition::Ges
    } else if code == 6 {
        Condition::True
    } else {
        Condition::False
    }
}

impl Condition {
    /// Decodes a 3-bit condition field.
    pub fn from_code(code: u32) -> (r: Condition)
        requires
            code < 8,
        ensures
            r == condition_of(code),
    {
        match code {
            0 => Condition::Eq,
            1 => Condition::Ne,
            2 => Condition::Lt,
            3 => Condition::Ge,
            4 => Condition::Lts,
            5 => Condition::Ges,
            6 => Condition::True,
            _ => Condition::False,
        }
    }
}

/// A branch condition: as `Condition`, except that code 7 is `Link`, which always holds
/// and also saves the return address.
#[derive(Debug, Clone, Copy, PartialEq, Eq, Structural)]
pub enum BranchCondition {
    Eq,
    Ne,
    Lt,
    Ge,
    Lts,
    Ges,
    True,
    Link,
}

/// The branch condition that the 3-bit code `code` selects.
pub open spec fn branch_condition_of(code: u32) -> BranchCondition {
    if code == 0 {
        BranchCondition::Eq
    } else if code == 1 {
        BranchCondition::Ne
    } else if code == 2 {
        BranchCondition::Lt
    } else if code == 3 {
        BranchCondition::Ge
    } else if code == 4 {
        BranchCondition::Lts
    } else if code == 5 {
        BranchCondition::Ges
    } else if code == 6 {
        BranchCondition::True
    } else {
        BranchCondition::Link
    }
}

impl BranchCondition {
    /// Decodes a 3-bit branch-condition field.
    pub fn from_code(code: u32) -> (r: BranchCondition)
        requires
            code < 8,
        ensures
            r == branch_condition_of(code),
    {
        match code {
            0 => BranchCondition::Eq,
            1 => BranchCondition::Ne,
            2 => BranchCondition::Lt,
            3 => BranchCondition::Ge,
            4 => BranchCondition::Lts,
            5 => BranchCondition::Ges,
            6 => BranchCondition::True,
            _ => BranchCondition::Link,
        }
    }
}

/// The condition-code register: carry, zero, sign and overflow.
#[derive(Debug, Clone, Copy, PartialEq, Eq, Structural)]
pub struct Flags {
    pub carry: bool,
    pub zero: bool,
    pub sign: bool,
    pub overflow: bool,
}

/// The packed form of the flags: carry in bit 0, zero in bit 1, sign in bit 2,
/// overflow in bit 3.
pub open spec fn flags_bits(f: Flags) -> u8 {
    ((if f.carry { 1u8 } else { 0u8 }) + (if f.zero { 2u8 } else { 0u8 }) + (if f.sign {
        4u8
    } else {
        0u8
    }) + (if f.overflow { 8u8 } else { 0u8 })) as u8
}

/// The flags that the low four bits of `bits` hold; the other bits are ignored.
pub open spec fn flags_of_bits(bits: u8) -> Flags {
    Flags {
        carry: bits % 2 == 1,
        zero: (bits / 2) % 2 == 1,
        sign: (bits / 4) % 2 == 1,
        overflow: (bits / 8) % 2 == 1,
    }
}

/// Whether flags `f` satisfy condition `c`. `Lt`/`Ge` compare unsigned (by carry),
/// `Lts`/`Ges` compare signed (sign against overflow).
pub open spec fn satisfies(f: Flags, c: Condition) -> bool {
    match c {
        Condition::Eq => f.zero,
        Condition::Ne => !f.zero,
        Condition::Lt => !f.carry,
        Condition::Ge => f.carry,
        Condition::Lts => f.sign != f.overflow,
        Condition::Ges => f.sign == f.overflow,
        Condition::True => true,
        Condition::False => false,
    }
}

/// Whether flags `f` satisfy branch condition `c`; `Link` always holds.
pub open spec fn satisfies_branch(f: Flags, c: BranchCondition) -> bool {
    match c {
        BranchCondition::Eq => f.zero,
        BranchCondition::Ne => !f.zero,
        BranchCondition::Lt => !f.carry,
        BranchCondition::Ge => f.carry,
        BranchCondition::Lts => f.sign != f.overflow,
        BranchCondition::Ges => f.sign == f.overflow,
        BranchCondition::True => true,
        BranchCondition::Link => true,
    }
}

impl Flags {
    /// No flag set.
    pub fn empty() -> (r: Flags)
        ensures
            !r.carry && !r.zero && !r.sign && !r.overflow,
    {
        Flags { carry: false, zero: false, sign: false, overflow: false }
    }

    /// The packed 4-bit form.
    pub fn bits(&self) -> (r: u8)
        ensures
            r == flags_bits(*self),
            r < 16,
    {
        let mut b: u8 = 0;
        if self.carry {
            b = b + 1;
        }
        if self.zero {
            b = b + 2;
        }
        if self.sign {
            b = b + 4;
        }
        if self.overflow {
            b = b + 8;
        }
        b
    }

    /// The flags held in the low four bits of `bits`.
    pub fn from_bits_truncate(bits: u8) -> (r: Flags)
        ensures
            r == flags_of_bits(bits),
    {
        Flags {
            carry: bits % 2 == 1,
            zero: (bits / 2) % 2 == 1,
            sign: (bits / 4) % 2 == 1,
            overflow: (bits / 8) % 2 == 1,
        }
    }

    /// The flags that `bits` packs, or `None` when a bit above the fourth is set.
    pub fn from_bits(bits: u8) -> (r: Option<Flags>)
        ensures
            r == (if bits < 16 { Some(flags_of_bits(bits)) } else { None::<Flags> }),
    {
        if bits < 16 {
            Some(Flags::from_bits_truncate(bits))
        } else {
            None
        }
    }

    /// Evaluates a single-condition predicate.
    pub fn satisfy(self, condition: Condition) -> (r: bool)
        ensures
            r == satisfies(self, condition),
    {
        match condition {
            Condition::Eq => self.zero,
            Condition::Ne => !self.zero,
            Condition::Lt => !self.carry,
            Condition::Ge => self.carry,
            Condition::Lts => self.sign != self.overflow,
            Condition::Ges => self.sign == self.overflow,
            Condition::True => true,
            Condition::False => false,
        }
    }

    /// Evaluates a branch condition.
    pub fn satisfy_branch(self, condition: BranchCondition) -> (r: bool)
        ensures
            r == satisfies_branch(self, condition),
    {
        match condition {
            BranchCondition::Eq => self.zero,
            BranchCondition::Ne => !self.zero,
            BranchCondition::Lt => !self.carry,
            BranchCondition::Ge => self.carry,
            BranchCondition::Lts => self.sign != self.overflow,
            BranchCondition::Ges => self.sign == self.overflow,
            BranchCondition::True => true,
            BranchCondition::Link => true,
        }
    }
}

/// The letter shown for a flag: `letter` when set, `_` when clear.
pub open spec fn flag_letter(set: bool, letter: u8) -> u8 {
    if set {
        letter
    } else {
        0x5F
    }
}

impl Flags {
    /// The flags as four ASCII letters, most significant first: `O`, `S`, `Z`, `C` for a
    /// set flag, `_` for a clear one.
    pub fn to_text(&self) -> (r: Vec<u8>)
        ensures
            r@ == seq![
                flag_letter(self.overflow, 0x4F),
                flag_letter(self.sign, 0x53),
                flag_letter(self.zero, 0x5A),
                flag_letter(self.carry, 0x43),
            ],
    {
        let mut buffer: Vec<u8> = vec![0x5F, 0x5F, 0x5F, 0x5F];
        if self.carry {
            buffer.set(3, 0x43);
        }
        if self.zero {
            buffer.set(2, 0x5A);
        }
        if self.sign {
            buffer.set(1, 0x53);
        }
        if self.overflow {
            buffer.set(0, 0x4F);
        }
        assert(buffer@ =~= seq![
            flag_letter(self.overflow, 0x4F),
            flag_letter(self.sign, 0x53),
            flag_letter(self.zero, 0x5A),
            flag_letter(self.carry, 0x43),
        ]);
        buffer
    }
}

} // verus!
