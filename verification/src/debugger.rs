use vstd::prelude::*;

verus! {

/// How loud a debug message is.
#[derive(PartialEq, Eq, Debug)]
pub enum PrintLevel {
    INFO,
    DEBUG,
    /// never shown
    HIDDEN,
}

/// Which part of the emulator a debug message comes from.
#[derive(Debug)]
pub enum PrintFrom {
    CPU,
    PPU,
    APU,
    PAD,
    CASSETTE,
    SYSTEM,
    TEST,
    MAIN,
}

} // verus!
