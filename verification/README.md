# rust_nes_emulator

An NES emulator core, verified with Verus.

- `src/cpu*.rs`, `src/alu.rs`: the 6502 CPU (decoding, addressing, the
  instructions, interrupts), with its flags modelled as spec functions.
- `src/system*.rs`, `src/video_system.rs`: the CPU bus (WRAM, PPU and APU
  registers, pads, cartridge) and the PPU's video bus.
- `src/nes/`: the second CPU (table-driven `step`), the PPU (`ppu.rs`:
  DMA, sprite fetch, line drawing, the line and cycle counters), the
  cartridge loader, pads and memories.
- `app/main.rs`: a headless runner that loads an iNES file, runs a number
  of frames and saves the frame buffer as a bitmap.
- `tests/`: programs and register-level scenarios run against the library.
