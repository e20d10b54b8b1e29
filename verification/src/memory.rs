//! The memory behind the bus: one byte for each 16-bit address.
use vstd::prelude::*;

verus! {

/// 64 KiB of byte-addressed memory.
pub struct Memory {
    bytes: [u8; 65536],
}

impl View for Memory {
    type V = Seq<u8>;

    closed spec fn view(&self) -> Seq<u8> {
        self.bytes@
    }
}

impl Memory {
    /// A memory always spans the whole address space.
    pub proof fn lemma_len(&self)
        ensures
            self@.len() == 0x1_0000,
    {
    }

    /// A memory of zeroes.
    pub fn new() -> (memory: Memory)
        ensures
            memory@ == Seq::new(0x1_0000, |addr: int| 0u8),
    {
        let memory = Memory { bytes: [0u8; 65536] };
        assert(memory@ =~= Seq::new(0x1_0000, |addr: int| 0u8));
        memory
    }

    pub fn read(&self, addr: u16) -> (data: u8)
        ensures
            data == self@[addr as int],
    {
        self.bytes[addr as usize]
    }

    pub fn write(&mut self, addr: u16, data: u8)
        ensures
            final(self)@ == old(self)@.update(addr as int, data),
    {
        self.bytes[addr as usize] = data;
    }
}

} // verus!
