//! A byte-addressed RAM region with little-endian 8/16/32-bit access.

use vstd::prelude::*;

verus! {

/// The 32-bit little-endian value of the four bytes of `b` starting at `i`.
pub open spec fn le_32(b: Seq<u8>, i: int) -> u32 {
    (b[i] + 0x100 * b[i + 1] + 0x1_0000 * b[i + 2] + 0x100_0000 * b[i + 3]) as u32
}

/// The 16-bit little-endian value of the two bytes of `b` starting at `i`.
pub open spec fn le_16(b: Seq<u8>, i: int) -> u16 {
    (b[i] + 0x100 * b[i + 1]) as u16
}

/// Byte `k` (0 is the least significant, 3 the most) of `v`.
pub open spec fn byte_of(v: u32, k: nat) -> u8 {
    if k == 0 {
        (v % 0x100) as u8
    } else if k == 1 {
        ((v / 0x100) % 0x100) as u8
    } else if k == 2 {
        ((v / 0x1_0000) % 0x100) as u8
    } else {
        ((v / 0x100_0000) % 0x100) as u8
    }
}

/// `b` with the low `size` bytes of `v` stored little-endian from `i` on.
pub open spec fn store_le(b: Seq<u8>, i: int, size: nat, v: u32) -> Seq<u8> {
    Seq::new(
        b.len(),
        |j: int|
            if i <= j < i + size {
                byte_of(v, (j - i) as nat)
            } else {
                b[j]
            },
    )
}

/// A byte-addressed RAM region, read and written little-endian.
pub struct Memory {
    bytes: Vec<u8>,
}

impl View for Memory {
    type V = Seq<u8>;

    closed spec fn view(&self) -> Seq<u8> {
        self.bytes@
    }
}

impl Memory {
    /// A region of `size` bytes, all zero.
    pub fn new(size: u32) -> (r: Memory)
        ensures
            r@ == Seq::new(size as nat, |i: int| 0u8),
    {
        let mut bytes: Vec<u8> = Vec::new();
        let mut i: u32 = 0;
        while i < size
            invariant
                i <= size,
                bytes@ == Seq::new(i as nat, |j: int| 0u8),
            decreases size - i,
        {
            bytes.push(0);
            i = i + 1;
            assert(bytes@ =~= Seq::new(i as nat, |j: int| 0u8));
        }
        Memory { bytes }
    }

    /// The size of the region in bytes.
    pub fn len(&self) -> (r: usize)
        ensures
            r == self@.len(),
    {
        self.bytes.len()
    }

    /// Replaces the whole content with `data`, which has the region's size.
    pub fn reset(&mut self, data: &[u8])
        requires
            data@.len() == old(self)@.len(),
        ensures
            final(self)@ == data@,
        no_unwind
    {
        let n = self.bytes.len();
        let mut i: usize = 0;
        while i < n
            invariant
                n == data@.len(),
                i <= n,
                self@.len() == n,
                forall|j: int| 0 <= j < i ==> self@[j] == data@[j],
            decreases n - i,
        {
            self.bytes[i] = data[i];
            i = i + 1;
        }
        assert(self@ =~= data@);
    }

    /// Reads the 32-bit word that holds byte `addr` (the address is rounded down to a
    /// multiple of 4).
    pub fn read_32(&self, addr: u32) -> (r: u32)
        requires
            (addr / 4) * 4 + 4 <= self@.len(),
        ensures
            r == le_32(self@, (addr / 4) * 4),
    {
        let i = ((addr / 4) * 4) as usize;
        self.bytes[i] as u32 + 0x100 * (self.bytes[i + 1] as u32) + 0x1_0000 * (self.bytes[i
            + 2] as u32) + 0x100_0000 * (self.bytes[i + 3] as u32)
    }

    /// Reads the 16-bit half-word that holds byte `addr` (the address is rounded down
    /// to a multiple of 2).
    pub fn read_16(&self, addr: u32) -> (r: u16)
        requires
            (addr / 2) * 2 + 2 <= self@.len(),
        ensures
            r == le_16(self@, (addr / 2) * 2),
    {
        let i = ((addr / 2) * 2) as usize;
        self.bytes[i] as u16 + 0x100 * (self.bytes[i + 1] as u16)
    }

    /// Reads byte `addr`.
    pub fn read_8(&self, addr: u32) -> (r: u8)
        requires
            addr < self@.len(),
        ensures
            r == self@[addr as int],
    {
        self.bytes[addr as usize]
    }

    /// Writes the 32-bit word that holds byte `addr` (rounded down to a multiple of 4).
    pub fn write_32(&mut self, addr: u32, value: u32)
        requires
            (addr / 4) * 4 + 4 <= old(self)@.len(),
        ensures
            final(self)@ == store_le(old(self)@, (addr / 4) * 4, 4, value),
        no_unwind
    {
        let i = ((addr / 4) * 4) as usize;
        self.bytes[i] = (value % 0x100) as u8;
        self.bytes[i + 1] = ((value / 0x100) % 0x100) as u8;
        self.bytes[i + 2] = ((value / 0x1_0000) % 0x100) as u8;
        self.bytes[i + 3] = ((value / 0x100_0000) % 0x100) as u8;
        assert(self@ =~= store_le(old(self)@, (addr / 4) * 4, 4, value));
    }

    /// Writes the 16-bit half-word that holds byte `addr` (rounded down to a multiple
    /// of 2).
    pub fn write_16(&mut self, addr: u32, value: u16)
        requires
            (addr / 2) * 2 + 2 <= old(self)@.len(),
        ensures
            final(self)@ == store_le(old(self)@, (addr / 2) * 2, 2, value as u32),
        no_unwind
    {
        let i = ((addr / 2) * 2) as usize;
        self.bytes[i] = (value % 0x100) as u8;
        self.bytes[i + 1] = ((value / 0x100) % 0x100) as u8;
        assert(self@ =~= store_le(old(self)@, (addr / 2) * 2, 2, value as u32));
    }

    /// Writes byte `addr`.
    pub fn write_8(&mut self, addr: u32, value: u8)
        requires
            addr < old(self)@.len(),
        ensures
            final(self)@ == store_le(old(self)@, addr as int, 1, value as u32),
        no_unwind
    {
        self.bytes[addr as usize] = value;
        assert(self@ =~= store_le(old(self)@, addr as int, 1, value as u32));
    }
}

} // verus!
