use vstd::prelude::*;
use crate::io::memory::MemoryIo;

verus! {

const SIZE: usize = 0x2000;

/// The cartridge's extended RAM (0x6000 - 0x7fff), indexed from 0.
pub struct ExtendedRam {
    ram: [u8; SIZE],
}

impl MemoryIo for ExtendedRam {
    open spec fn index_ok(&self, addr: usize) -> bool {
        addr < 0x2000
    }

    closed spec fn byte_at(&self, addr: usize) -> u8 {
        self.ram[addr as int]
    }

    fn read_u8(&self, addr: usize) -> (data: u8) {
        self.ram[addr]
    }

    fn write_u8(&mut self, addr: usize, data: u8) {
        self.ram[addr] = data;
    }
}

} // verus!
