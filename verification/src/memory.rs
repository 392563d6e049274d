use vstd::prelude::*;

verus! {

/// Number of addressable bytes: the full 16-bit address space.
pub const MEM_SIZE: usize = 0x10000;

/// Flat byte store covering the whole 16-bit address space.
///
/// Viewed as a `Seq<u8>` of length `MEM_SIZE`; reads and writes are
/// 8-bit atomic, as the memory-port contract of the core demands.
pub struct Memory {
    mem: Vec<u8>,
}

impl View for Memory {
    type V = Seq<u8>;

    closed spec fn view(&self) -> Seq<u8> {
        self.mem@
    }
}

impl Memory {
    /// The store always holds exactly one byte per address.
    pub open spec fn wf(self) -> bool {
        self@.len() == MEM_SIZE
    }

    /// A fresh store with every byte zero.
    pub fn new() -> (r: Memory)
        ensures
            r.wf(),
            forall|i: int| 0 <= i < MEM_SIZE ==> r@[i] == 0u8,
    {
        let mut mem: Vec<u8> = Vec::new();
        while mem.len() < MEM_SIZE
            invariant
                mem@.len() <= MEM_SIZE,
                forall|i: int| 0 <= i < mem@.len() ==> mem@[i] == 0u8,
            decreases MEM_SIZE - mem@.len(),
        {
            mem.push(0);
        }
        Memory { mem }
    }

    /// Stores one byte; every other address keeps its value.
    pub fn write(&mut self, data: u8, addr: usize)
        requires
            old(self).wf(),
            addr < MEM_SIZE,
        ensures
            final(self).wf(),
            final(self)@ == old(self)@.update(addr as int, data),
    {
        self.mem.set(addr, data);
    }

    /// Loads the byte stored at `addr`.
    pub fn read(&self, addr: usize) -> (r: u8)
        requires
            self.wf(),
            addr < MEM_SIZE,
        ensures
            r == self@[addr as int],
    {
        self.mem[addr]
    }
}

impl Default for Memory {
    /// Same as `Memory::new`: every byte zero.
    fn default() -> (r: Memory)
        ensures
            r.wf(),
            forall|i: int| 0 <= i < MEM_SIZE ==> r@[i] == 0u8,
    {
        Memory::new()
    }
}

} // verus!
