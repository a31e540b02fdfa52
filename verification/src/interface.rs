use vstd::prelude::*;

verus! {

/// Access to a CPU address space. Addresses are the ones a CPU instruction
/// names, offset included.
///
/// Each implementation says which addresses it answers (`bus_addr_ok`), and
/// what a read and a write do to it (`bus_read`, `bus_write`).
pub trait SystemBus: Sized {
    /// The addresses on which an access is defined.
    spec fn bus_addr_ok(&self, addr: u16) -> bool;

    /// The value read and the state after the read.
    spec fn bus_read(&self, addr: u16, is_nondestructive: bool) -> (u8, Self);

    /// The state after a write.
    spec fn bus_write(&self, addr: u16, data: u8, is_nondestructive: bool) -> Self;

    fn read_u8(&mut self, addr: u16, is_nondestructive: bool) -> (data: u8)
        requires
            old(self).bus_addr_ok(addr),
        ensures
            (data, *final(self)) == old(self).bus_read(addr, is_nondestructive),
    ;

    fn write_u8(&mut self, addr: u16, data: u8, is_nondestructive: bool)
        requires
            old(self).bus_addr_ok(addr),
        ensures
            *final(self) == old(self).bus_write(addr, data, is_nondestructive),
    ;
}

/// Access to the video address space (0x0000 - 0x3fff).
pub trait VideoBus: Sized {
    spec fn video_addr_ok(&self, addr: u16) -> bool;

    spec fn video_read(&self, addr: u16) -> u8;

    spec fn video_write(&self, addr: u16, data: u8) -> Self;

    fn read_video_u8(&mut self, addr: u16) -> (data: u8)
        requires
            old(self).video_addr_ok(addr),
        ensures
            data == old(self).video_read(addr),
            *final(self) == *old(self),
    ;

    fn write_video_u8(&mut self, addr: u16, data: u8)
        requires
            old(self).video_addr_ok(addr),
        ensures
            *final(self) == old(self).video_write(addr, data),
    ;
}

/// State that can be forced back to its initial value.
pub trait EmulateControl: Sized {
    /// The state that `reset` leaves behind.
    spec fn reset_state(&self) -> Self;

    /// Forces the internal state back to its initial value. This is not a
    /// jump to the reset vector.
    fn reset(&mut self)
        ensures
            *final(self) == old(self).reset_state(),
    ;
}

} // verus!
