//! The memory bus: a flat byte-addressable store of 64 KiB. A 16-bit address
//! always lands inside the store (the address space and the store have the
//! same size, so taking addresses modulo the size is the identity), and
//! wrap-around of address arithmetic is defined behavior, not an error.

use vstd::prelude::*;

use crate::{hi_byte, lo_byte, word_from_bytes, wrap_inc};

verus! {

/// The size of the store in bytes.
pub const MEM_SIZE: usize = 65536;

/// The flat byte store. There is no protection or segmentation: every 16-bit
/// address is valid.
#[derive(Debug, PartialEq)]
pub struct Memory {
    pub data: Vec<u8>,
}

impl View for Memory {
    type V = Seq<u8>;

    open spec fn view(&self) -> Seq<u8> {
        self.data@
    }
}

/// A fresh zero-filled store of `MEM_SIZE` bytes.
fn zero_store() -> (r: Vec<u8>)
    ensures
        r@.len() == MEM_SIZE,
        forall|i: int| 0 <= i < r@.len() ==> r@[i] == 0u8,
{
    let mut data: Vec<u8> = Vec::new();
    while data.len() < MEM_SIZE
        invariant
            data@.len() <= MEM_SIZE,
            forall|i: int| 0 <= i < data@.len() ==> data@[i] == 0u8,
        decreases MEM_SIZE - data@.len(),
    {
        data.push(0u8);
    }
    data
}

impl Memory {
    /// The store always holds exactly the 64 KiB address space.
    pub open spec fn wf(&self) -> bool {
        self@.len() == MEM_SIZE
    }

    /// A zero-filled memory.
    pub fn new() -> (r: Memory)
        ensures
            r.wf(),
            forall|i: int| 0 <= i < r@.len() ==> r@[i] == 0u8,
    {
        Memory { data: zero_store() }
    }

    /// Zero-fill the entire store, whatever it held before.
    pub fn reset(&mut self)
        ensures
            final(self).wf(),
            forall|i: int| 0 <= i < final(self)@.len() ==> final(self)@[i] == 0u8,
    {
        self.data = zero_store();
    }

    /// Read the byte at an address. Never fails: every 16-bit address is in
    /// range.
    pub fn read_byte(&self, addr: u16) -> (r: u8)
        requires
            self.wf(),
        ensures
            r == self@[addr as int],
    {
        self.data[addr as usize]
    }

    /// Write the byte at an address. Never fails.
    pub fn write_byte(&mut self, addr: u16, v: u8)
        requires
            old(self).wf(),
        ensures
            final(self).wf(),
            final(self)@ == old(self)@.update(addr as int, v),
    {
        self.data[addr as usize] = v;
    }

    /// Read the 16-bit word at an address, little-endian; the high byte comes
    /// from the next address, wrapping at the top of the space.
    pub fn read_word(&self, addr: u16) -> (r: u16)
        requires
            self.wf(),
        ensures
            r == word_from_bytes(self@[addr as int], self@[wrap_inc(addr) as int]),
    {
        let lo = self.read_byte(addr);
        let hi = self.read_byte(if addr == 0xFFFF {
            0
        } else {
            addr + 1
        });
        (lo as u16) + 256 * (hi as u16)
    }

    /// Write the 16-bit word at an address, little-endian: the low byte at
    /// the address, the high byte at the next one, wrapping at the top of
    /// the space.
    pub fn write_word(&mut self, addr: u16, v: u16)
        requires
            old(self).wf(),
        ensures
            final(self).wf(),
            final(self)@ == old(self)@.update(addr as int, lo_byte(v)).update(
                wrap_inc(addr) as int,
                hi_byte(v),
            ),
    {
        self.write_byte(addr, (v % 256) as u8);
        self.write_byte(
            if addr == 0xFFFF {
                0
            } else {
                addr + 1
            },
            (v / 256) as u8,
        );
    }
}

} // verus!
