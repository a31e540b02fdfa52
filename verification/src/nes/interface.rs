use vstd::prelude::*;

verus! {

/// Access through the system bus, with the offset that a CPU instruction names.
pub trait SystemBus {
    fn read_u8(&mut self, addr: u16, is_nondestructive: bool) -> u8;

    fn write_u8(&mut self, addr: u16, data: u8, is_nondestructive: bool);
}

/// Access through the video bus; addresses lie in 0x0000 - 0x3fff.
pub trait VideoBus {
    fn read_video_u8(&mut self, addr: u16) -> u8;

    fn write_video_u8(&mut self, addr: u16, data: u8);
}

/// State that can be cleared, dumped and restored from outside.
pub trait EmulateControl {
    /// Forces the internal state back to its initial value.
    fn reset(&mut self);

    /// The size that a dump needs.
    fn get_dump_size() -> usize;

    /// Hands the internal state to the callback as (address, data) pairs.
    fn dump<F: Fn(usize, u8)>(&self, read_callback: F)
        requires
            forall|i: usize, d: u8| read_callback.requires((i, d)),
    ;

    /// Restores the internal state from the callback, which is asked for the
    /// data at each address.
    fn restore<F: Fn(usize) -> u8>(&mut self, write_callback: F)
        requires
            forall|i: usize| write_callback.requires((i,)),
    ;
}

} // verus!
