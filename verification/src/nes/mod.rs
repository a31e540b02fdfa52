pub mod apu;
pub mod cassette;
pub mod cpu;
pub mod cpu_addressing;
pub mod cpu_instruction;
pub mod cpu_opcode;
pub mod debugger;
pub mod eram;
pub mod interface;
pub mod pad;
pub mod ppu;
pub mod prom;
pub mod system;
pub mod system_apu_reg;
pub mod system_ppu_reg;
pub mod vram;
pub mod wram;
