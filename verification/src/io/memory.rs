use vstd::prelude::*;

verus! {

/// Byte access to a memory by index.
pub trait MemoryIo: Sized {
    /// The indices that can be accessed.
    spec fn index_ok(&self, addr: usize) -> bool;

    /// The byte at an index.
    spec fn byte_at(&self, addr: usize) -> u8;

    fn read_u8(&self, addr: usize) -> (data: u8)
        requires
            self.index_ok(addr),
        ensures
            data == self.byte_at(addr),
    ;

    fn write_u8(&mut self, addr: usize, data: u8)
        requires
            old(self).index_ok(addr),
        ensures
            forall|i: usize|
                old(self).index_ok(i) ==> final(self).index_ok(i) && #[trigger] final(self).byte_at(i)
                    == (if i == addr { data } else { old(self).byte_at(i) }),
    ;
}

/// A memory access dispatcher that holds WRAM (0x0000 - 0x07ff) and the
/// extended RAM (0x6000 - 0x7fff). The other regions are not wired up.
pub struct Memory {
    /// 0x0000 - 0x07ff: WRAM
    wram: [u8; 0x800],
    /// 0x6000 - 0x7fff: Extended RAM
    eram: [u8; 0x2000],
}

impl MemoryIo for Memory {
    open spec fn index_ok(&self, addr: usize) -> bool {
        addr < 0x0800 || (0x6000 <= addr < 0x8000)
    }

    closed spec fn byte_at(&self, addr: usize) -> u8 {
        if addr < 0x0800 {
            self.wram[addr as int]
        } else {
            self.eram[addr - 0x6000]
        }
    }

    fn read_u8(&self, addr: usize) -> (data: u8) {
        if addr < 0x0800 {
            self.wram[addr]
        } else {
            self.eram[addr - 0x6000]
        }
    }

    fn write_u8(&mut self, addr: usize, data: u8) {
        if addr < 0x0800 {
            self.wram[addr] = data;
        } else {
            self.eram[addr - 0x6000] = data;
        }
    }
}

} // verus!
