//! What the CPU needs from its surroundings: memory, the device bus and floating point.

use vstd::prelude::*;

verus! {

/// The two privilege levels; code 0 is System, code 1 is User.
#[derive(Debug, Clone, Copy, PartialEq, Eq, Structural)]
pub enum PrivilegeLevel {
    System,
    User,
}

/// The numeric code of a privilege level.
pub open spec fn privilege_code(p: PrivilegeLevel) -> u32 {
    match p {
        PrivilegeLevel::System => 0,
        PrivilegeLevel::User => 1,
    }
}

impl PrivilegeLevel {
    /// The privilege level with numeric code `value`, if there is one.
    pub fn try_from_code(value: u32) -> (r: Result<PrivilegeLevel, ()>)
        ensures
            value == 0 ==> r == Ok::<PrivilegeLevel, ()>(PrivilegeLevel::System),
            value == 1 ==> r == Ok::<PrivilegeLevel, ()>(PrivilegeLevel::User),
            value > 1 ==> r is Err,
    {
        match value {
            0 => Ok(PrivilegeLevel::System),
            1 => Ok(PrivilegeLevel::User),
            _ => Err(()),
        }
    }

    /// The numeric code of this privilege level.
    pub fn code(self) -> (r: u32)
        ensures
            r == privilege_code(self),
    {
        match self {
            PrivilegeLevel::System => 0,
            PrivilegeLevel::User => 1,
        }
    }
}

/// Why a memory access failed.
#[derive(Debug, Clone, Copy, PartialEq, Eq, Structural)]
pub enum MemoryError {
    AccessViolation,
    UnalignedAccess,
}

/// Why an I/O access failed.
#[derive(Debug, Clone, Copy, PartialEq, Eq, Structural)]
pub enum IoError {
    AccessViolation,
}

/// The memory that the CPU loads from, stores to and fetches from.
///
/// Each access is described by what it returns, as a function of the state before it
/// (`*_result`), and by how the state after it relates to the state before (`*_post`).
/// A read that does not reserve leaves the memory as it was.
pub trait MemoryInterface: Sized {
    /// What a read of `size` bytes (1, 2 or 4) at `addr` returns, zero-extended.
    spec fn read_result(&self, addr: u32, size: nat, priv_level: PrivilegeLevel) -> Result<
        u32,
        MemoryError,
    >;

    /// How the state after a read relates to the state before it.
    spec fn read_post(
        &self,
        addr: u32,
        size: nat,
        priv_level: PrivilegeLevel,
        reserve: bool,
        next: Self,
    ) -> bool;

    /// What a write of `size` bytes (1, 2 or 4) at `addr` returns: whether it wrote.
    spec fn write_result(
        &self,
        addr: u32,
        size: nat,
        priv_level: PrivilegeLevel,
        conditional: bool,
    ) -> Result<bool, MemoryError>;

    /// How the state after a write of `value` (truncated to `size` bytes) relates to the
    /// state before it.
    spec fn write_post(
        &self,
        addr: u32,
        size: nat,
        value: u32,
        priv_level: PrivilegeLevel,
        conditional: bool,
        next: Self,
    ) -> bool;

    fn read_32(&mut self, addr: u32, priv_level: PrivilegeLevel, reserve: bool) -> (r: Result<
        u32,
        MemoryError,
    >)
        ensures
            r == old(self).read_result(addr, 4, priv_level),
            old(self).read_post(addr, 4, priv_level, reserve, *final(self)),
            !reserve ==> *final(self) == *old(self),
    ;

    fn read_16(&mut self, addr: u32, priv_level: PrivilegeLevel, reserve: bool) -> (r: Result<
        u16,
        MemoryError,
    >)
        ensures
            match old(self).read_result(addr, 2, priv_level) {
                Ok(v) => r == Ok::<u16, MemoryError>(v as u16) && v < 0x1_0000,
                Err(e) => r == Err::<u16, MemoryError>(e),
            },
            old(self).read_post(addr, 2, priv_level, reserve, *final(self)),
            !reserve ==> *final(self) == *old(self),
    ;

    fn read_8(&mut self, addr: u32, priv_level: PrivilegeLevel, reserve: bool) -> (r: Result<
        u8,
        MemoryError,
    >)
        ensures
            match old(self).read_result(addr, 1, priv_level) {
                Ok(v) => r == Ok::<u8, MemoryError>(v as u8) && v < 0x100,
                Err(e) => r == Err::<u8, MemoryError>(e),
            },
            old(self).read_post(addr, 1, priv_level, reserve, *final(self)),
            !reserve ==> *final(self) == *old(self),
    ;

    fn write_32(
        &mut self,
        addr: u32,
        value: u32,
        priv_level: PrivilegeLevel,
        conditional: bool,
    ) -> (r: Result<bool, MemoryError>)
        ensures
            r == old(self).write_result(addr, 4, priv_level, conditional),
            old(self).write_post(addr, 4, value, priv_level, conditional, *final(self)),
    ;

    fn write_16(
        &mut self,
        addr: u32,
        value: u16,
        priv_level: PrivilegeLevel,
        conditional: bool,
    ) -> (r: Result<bool, MemoryError>)
        ensures
            r == old(self).write_result(addr, 2, priv_level, conditional),
            old(self).write_post(addr, 2, value as u32, priv_level, conditional, *final(self)),
    ;

    fn write_8(
        &mut self,
        addr: u32,
        value: u8,
        priv_level: PrivilegeLevel,
        conditional: bool,
    ) -> (r: Result<bool, MemoryError>)
        ensures
            r == old(self).write_result(addr, 1, priv_level, conditional),
            old(self).write_post(addr, 1, value as u32, priv_level, conditional, *final(self)),
    ;
}

/// The memory-mapped device bus behind the CPU's `in` and `out` instructions.
pub trait IoInterface: Sized {
    /// What a read of the device register at `addr` returns.
    spec fn read_result(&self, addr: u32, priv_level: PrivilegeLevel) -> Result<u32, IoError>;

    /// How the state after a read relates to the state before it.
    spec fn read_post(&self, addr: u32, priv_level: PrivilegeLevel, next: Self) -> bool;

    /// What a write of `value` to the device register at `addr` returns.
    spec fn write_result(&self, addr: u32, value: u32, priv_level: PrivilegeLevel) -> Result<
        (),
        IoError,
    >;

    /// How the state after a write relates to the state before it.
    spec fn write_post(&self, addr: u32, value: u32, priv_level: PrivilegeLevel, next: Self) -> bool;

    fn read(&mut self, addr: u32, priv_level: PrivilegeLevel) -> (r: Result<u32, IoError>)
        ensures
            r == old(self).read_result(addr, priv_level),
            old(self).read_post(addr, priv_level, *final(self)),
    ;

    fn write(&mut self, addr: u32, value: u32, priv_level: PrivilegeLevel) -> (r: Result<
        (),
        IoError,
    >)
        ensures
            r == old(self).write_result(addr, value, priv_level),
            old(self).write_post(addr, value, priv_level, *final(self)),
    ;
}

/// A request to the host's single-precision floating-point unit, on IEEE-754 bit
/// patterns. The CPU hands one over for each float instruction and writes the answer
/// (a bit pattern, a converted integer, or nonzero for a comparison that holds) to the
/// destination register.
#[derive(Debug, Clone, Copy, PartialEq, Eq, Structural)]
pub enum FloatOp {
    /// `op` 0: add, 1: subtract, 2: multiply, 3: divide, 6: minimum, 7: maximum.
    Binary { op: u32, lhs: u32, rhs: u32 },
    /// `op` 0: floor, 1: ceiling, 2: round half away from zero, 3: truncate, 6: square
    /// root, 7: reciprocal square root.
    Unary { op: u32, value: u32 },
    /// `op` 0: equal, 1: not equal, 2: less than, 3: greater or equal.
    Compare { op: u32, lhs: u32, rhs: u32 },
    /// The float converted to an unsigned integer, saturating (NaN gives 0).
    ToInt { value: u32 },
    /// The unsigned integer converted to the nearest float.
    FromInt { value: u32 },
}

} // verus!
