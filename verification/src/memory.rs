//! The memory bus: byte and word reads and writes over the full 16-bit
//! address space, little-endian (low byte at the lower address).  Word
//! accesses at the very top of the address space wrap around to address
//! zero.

use vstd::prelude::*;

verus! {

/// Number of addressable bytes on the bus.
pub const ADDR_SPACE: usize = 0x10000;

/// Byte at `addr` in a memory image.
pub open spec fn mem_rb(m: Seq<u8>, addr: u16) -> u8 {
    m[addr as int]
}

/// Little-endian word at `addr` in a memory image; the high byte comes
/// from `addr + 1`, wrapping modulo 65536.
pub open spec fn mem_rw(m: Seq<u8>, addr: u16) -> u16 {
    (mem_rb(m, addr) + mem_rb(m, addr.wrapping_add(1)) * 0x100) as u16
}

/// The image after writing one byte.
pub open spec fn mem_wb(m: Seq<u8>, addr: u16, v: u8) -> Seq<u8> {
    m.update(addr as int, v)
}

/// The image after writing a little-endian word: low byte at `addr`, high
/// byte at `addr + 1`, wrapping modulo 65536.
pub open spec fn mem_ww(m: Seq<u8>, addr: u16, v: u16) -> Seq<u8> {
    m.update(addr as int, (v % 0x100) as u8).update(
        addr.wrapping_add(1) as int,
        (v / 0x100) as u8,
    )
}

/// A flat memory image over the whole address space.
pub struct Memory {
    ram: Vec<u8>,
}

impl View for Memory {
    type V = Seq<u8>;

    closed spec fn view(&self) -> Seq<u8> {
        self.ram@
    }
}

impl Memory {
    /// The bus always covers the full address space.
    pub open spec fn wf(self) -> bool {
        self@.len() == ADDR_SPACE
    }

    /// A bus with every byte cleared.
    pub fn new() -> (m: Memory)
        ensures
            m.wf(),
            m@ == Seq::<u8>::new(ADDR_SPACE as nat, |i: int| 0u8),
    {
        let mut ram: Vec<u8> = Vec::new();
        let mut i: usize = 0;
        while i < ADDR_SPACE
            invariant
                i <= ADDR_SPACE,
                ram@.len() == i,
                forall|j: int| 0 <= j < i ==> ram@[j] == 0u8,
            decreases ADDR_SPACE - i,
        {
            ram.push(0);
            i = i + 1;
        }
        proof {
            assert(ram@ =~= Seq::<u8>::new(ADDR_SPACE as nat, |i: int| 0u8));
        }
        Memory { ram }
    }

    /// Reads the byte at `addr`.
    pub fn rb(&self, addr: u16) -> (v: u8)
        requires
            self.wf(),
        ensures
            v == mem_rb(self@, addr),
    {
        self.ram[addr as usize]
    }

    /// Writes the byte at `addr`.
    pub fn wb(&mut self, addr: u16, v: u8)
        requires
            old(self).wf(),
        ensures
            final(self).wf(),
            final(self)@ == mem_wb(old(self)@, addr, v),
    {
        self.ram.set(addr as usize, v);
    }

    /// Reads the little-endian word at `addr`.
    pub fn rw(&self, addr: u16) -> (v: u16)
        requires
            self.wf(),
        ensures
            v == mem_rw(self@, addr),
    {
        let lo = self.rb(addr);
        let hi = self.rb(addr.wrapping_add(1));
        (lo as u16) + (hi as u16) * 0x100
    }

    /// Writes the little-endian word at `addr`.
    pub fn ww(&mut self, addr: u16, v: u16)
        requires
            old(self).wf(),
        ensures
            final(self).wf(),
            final(self)@ == mem_ww(old(self)@, addr, v),
    {
        self.wb(addr, (v % 0x100) as u8);
        self.wb(addr.wrapping_add(1), (v / 0x100) as u8);
    }
}

} // verus!
