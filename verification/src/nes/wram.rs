use vstd::prelude::*;

verus! {

pub const SIZE: usize = 0x0800;

/// The work RAM.
pub struct WorkRam {
    pub ram: [u8; SIZE],
}

impl WorkRam {
    pub fn read_u8(&self, addr: u16) -> (data: u8)
        requires
            (addr as usize) < SIZE,
        ensures
            data == self.ram[addr as int],
    {
        self.ram[addr as usize]
    }

    pub fn write_u8(&mut self, addr: u16, data: u8)
        requires
            (addr as usize) < SIZE,
        ensures
            final(self).ram@ == old(self).ram@.update(addr as int, data),
    {
        self.ram[addr as usize] = data;
    }

    /// Clears the memory.
    pub fn reset(&mut self)
        ensures
            forall|i: int| 0 <= i < SIZE ==> final(self).ram[i] == 0,
    {
        self.ram = [0u8; SIZE];
    }

    /// Hands out each byte as (index, data), in index order.
    pub fn store<F: Fn(usize, u8)>(&self, read_callback: F)
        requires
            forall|i: usize, d: u8| read_callback.requires((i, d)),
        ensures
            forall|i: int| 0 <= i < SIZE ==> read_callback.ensures((i as usize, #[trigger] self.ram[i]), ()),
    {
        let mut i: usize = 0;
        while i < SIZE
            invariant
                0 <= i <= SIZE,
                forall|i: usize, d: u8| read_callback.requires((i, d)),
                forall|j: int| 0 <= j < i ==> read_callback.ensures((j as usize, #[trigger] self.ram[j]), ()),
            decreases SIZE - i,
        {
            read_callback(i, self.ram[i]);
            i = i + 1;
        }
    }

    /// Restores each byte from the callback, which is asked for the data at
    /// each index in order.
    pub fn restore<F: Fn(usize) -> u8>(&mut self, write_callback: F)
        requires
            forall|i: usize| write_callback.requires((i,)),
        ensures
            forall|i: int| 0 <= i < SIZE ==> write_callback.ensures((i as usize,), #[trigger] final(self).ram[i]),
    {
        let mut i: usize = 0;
        while i < SIZE
            invariant
                0 <= i <= SIZE,
                forall|i: usize| write_callback.requires((i,)),
                forall|j: int| 0 <= j < i ==> write_callback.ensures((j as usize,), #[trigger] self.ram[j]),
            decreases SIZE - i,
        {
            let data = write_callback(i);
            self.ram[i] = data;
            i = i + 1;
        }
    }
}

} // verus!
