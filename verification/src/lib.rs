pub mod alu;
pub mod apu;
pub mod cpu;
pub mod cpu_instruction;
pub mod cpu_register;
pub mod debugger;
pub mod interface;
pub mod io;
pub mod nes;
pub mod system;
pub mod system_apu_reg;
pub mod system_ppu_reg;
pub mod video_system;
