use vstd::prelude::*;

verus! {

#[derive(Copy, Clone, Debug, PartialEq, Eq, Structural)]
pub enum PrintLevel {
    INFO,
    DEBUG,
}

#[derive(Copy, Clone, Debug, PartialEq, Eq, Structural)]
pub enum PrintFrom {
    CPU,
    PPU,
    APU,
    PAD,
    CASSETTE,
    SYSTEM,
    TEST,
    MAIN,
}

} // verus!
