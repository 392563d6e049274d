use vstd::prelude::*;

use crate::mbc::Mbc;
use crate::mbc::ROM_SIZE;
use crate::memory::MEM_SIZE;
use crate::memory::Memory;

verus! {

/// The system bus: the byte-addressable memory port the core drives.
///
/// The cartridge image is copied into the low 32 KiB of a flat 64 KiB
/// store at construction, so the whole 16-bit address space is readable
/// and writable; the cartridge itself is kept for its header.
pub struct Bus {
    mbc: Mbc,
    ram: Memory,
}

impl View for Bus {
    type V = Seq<u8>;

    closed spec fn view(&self) -> Seq<u8> {
        self.ram@
    }
}

impl Bus {
    /// One byte per address over the full 16-bit space.
    pub open spec fn wf(self) -> bool {
        self@.len() == MEM_SIZE
    }

    /// Builds the bus around a cartridge: addresses below `ROM_SIZE` hold
    /// the cartridge ROM, every other address holds zero.
    pub fn new(mbc: Mbc) -> (r: Bus)
        requires
            mbc.wf(),
        ensures
            r.wf(),
            r@.subrange(0, ROM_SIZE as int) == mbc@,
            forall|i: int| ROM_SIZE <= i < MEM_SIZE ==> r@[i] == 0u8,
    {
        let mut ram = Memory::new();
        let mut i: usize = 0;
        while i < ROM_SIZE
            invariant
                i <= ROM_SIZE,
                mbc.wf(),
                ram.wf(),
                forall|j: int| 0 <= j < i ==> ram@[j] == mbc@[j],
                forall|j: int| i <= j < MEM_SIZE ==> ram@[j] == 0u8,
            decreases ROM_SIZE - i,
        {
            let b = mbc.read(i as u16);
            ram.write(b, i);
            i = i + 1;
        }
        proof {
            assert(ram@.subrange(0, ROM_SIZE as int) =~= mbc@);
        }
        Bus { mbc, ram }
    }

    /// Loads the byte at `addr`.
    pub fn read(&self, addr: u16) -> (r: u8)
        requires
            self.wf(),
        ensures
            r == self@[addr as int],
    {
        self.ram.read(addr as usize)
    }

    /// Stores one byte at `addr`; every other address keeps its value.
    pub fn write(&mut self, addr: u16, data: u8)
        requires
            old(self).wf(),
        ensures
            final(self).wf(),
            final(self)@ == old(self)@.update(addr as int, data),
    {
        self.ram.write(data, addr as usize);
    }
}

} // verus!
