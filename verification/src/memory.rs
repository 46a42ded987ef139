//! A flat 64 KiB byte-addressable memory.

use vstd::prelude::*;

verus! {

/// The number of addressable bytes: every 16-bit address is valid.
pub const MAX_MEM: usize = 65536;

/// A flat 64 KiB memory, viewed as a sequence of 65 536 bytes.
pub struct Memory {
    data: [u8; MAX_MEM],
}

impl View for Memory {
    type V = Seq<u8>;

    closed spec fn view(&self) -> Seq<u8> {
        self.data@
    }
}

impl Memory {
    /// A zeroed memory.
    pub fn new() -> (r: Self)
        ensures
            r@.len() == MAX_MEM,
            forall|i: int| 0 <= i < MAX_MEM ==> r@[i] == 0u8,
    {
        Memory { data: [0u8; MAX_MEM] }
    }

    /// Every memory value covers the full 16-bit address range.
    pub proof fn lemma_len(&self)
        ensures
            self@.len() == MAX_MEM,
    {
    }

    /// The byte stored at `address`.
    pub fn read(&self, address: u16) -> (r: u8)
        ensures
            r == self@[address as int],
    {
        proof {
            self.lemma_len();
        }
        self.data[address as usize]
    }

    /// Stores `value` at `address`; no other byte changes.
    pub fn write(&mut self, address: u16, value: u8)
        ensures
            final(self)@ == old(self)@.update(address as int, value),
    {
        proof {
            self.lemma_len();
        }
        self.data[address as usize] = value;
    }
}

} // verus!
