use rust_nes_emulator::apu::PulseSound;
use rust_nes_emulator::interface::{EmulateControl, SystemBus};
use rust_nes_emulator::nes::cassette::{Cassette, Mapper, NameTableMirror};
use rust_nes_emulator::nes::pad::{Button, Pad};
use rust_nes_emulator::nes::prom::ProgramRom;
use rust_nes_emulator::nes::vram::VideoRam;
use rust_nes_emulator::nes::wram::WorkRam;
use rust_nes_emulator::system::System;
use rust_nes_emulator::video_system::VideoSystem;

#[test]
fn test_nes_system_write_then_read_and_mirrors() {
    let mut sys = rust_nes_emulator::nes::system::System::default();
    sys.cassette.mapper = Mapper::Nrom;
    sys.write_u8(0x0123, 0x11, false);
    assert_eq!(sys.read_u8(0x0123, false), 0x11);
    // WRAM repeats every 0x800 bytes
    assert_eq!(sys.read_u8(0x0923, false), 0x11);
    assert_eq!(sys.read_u8(0x1923, false), 0x11);
    // PPU registers repeat every 8 bytes
    sys.write_u8(0x2001, 0x22, false);
    assert_eq!(sys.read_u8(0x3ff9, false), 0x22);
    sys.write_u8(0x4015, 0x0f, false);
    assert_eq!(sys.io_reg[0x15], 0x0f);
    sys.write_u8(0x8000, 0x33, false);
    assert_eq!(sys.read_u8(0x8000, false), 0x33);
    assert!(sys.is_addr_ok(0x4017));
    // the I/O registers cover 0x4000 - 0x401f
    assert!(sys.is_addr_ok(0x4018));
    sys.write_u8(0x401f, 0x5a, false);
    assert_eq!(sys.read_u8(0x401f, false), 0x5a);
    assert!(!sys.is_addr_ok(0x4020));
    assert!(!sys.is_addr_ok(0x6000));
    sys.reset();
    assert_eq!(sys.read_u8(0x0123, false), 0);
    assert_eq!(rust_nes_emulator::nes::system::System::get_dump_size(), 0x4020);
}

#[test]
fn test_nes_system_ppu_registers() {
    let mut sys = rust_nes_emulator::nes::system::System::default();
    // each flag reads as set while its bit is set
    assert!(!sys.read_ppu_nmi_enable());
    assert_eq!(sys.read_ppu_addr_increment(), 1);
    assert_eq!(sys.read_ppu_sprite_height(), 8);
    sys.ppu_reg[0] = 0x84;
    assert!(sys.read_ppu_nmi_enable());
    assert_eq!(sys.read_ppu_addr_increment(), 32);
    // a flag written reads back
    sys.write_ppu_is_vblank(true);
    assert!(sys.read_ppu_is_vblank());
    sys.write_ppu_is_vblank(false);
    assert!(!sys.read_ppu_is_vblank());
    // the left-end clipping applies while its bit is clear
    assert!(sys.read_ppu_is_clip_bg_at_leftend());
    sys.ppu_reg[1] = 0x02;
    assert!(!sys.read_ppu_is_clip_bg_at_leftend());
    sys.ppu_reg[6] = 0x3f;
    sys.ppu_addr_lower_reg = 0x10;
    assert_eq!(sys.read_ppu_addr(), 0x3f10);
    sys.io_reg[0x14] = 0x02;
    sys.is_trigger_oam_dam = true;
    assert_eq!(sys.read_oam_dma_trigger(), (true, 0x0200));
    assert_eq!(sys.read_oam_dma_trigger(), (false, 0x0200));
}

#[test]
fn test_nes_apu_pulse_config() {
    let mut sys = rust_nes_emulator::nes::system::System::default();
    sys.io_reg[0] = 0x3f;
    sys.io_reg[1] = 0x8a;
    sys.io_reg[2] = 0x34;
    sys.io_reg[3] = 0x0a;
    let c = sys.read_apu_pulse_config(0);
    assert_eq!(c.dutyCycle, 87);
    assert!(c.lengthCounterHalt);
    assert!(c.constantVolume);
    assert_eq!(c.volume, 0x0f);
    assert!(c.isSweepEnable);
    // $4001 EPPPNSSS: N (bit 3) is set in 0x8a
    assert!(!c.isSweepPositive);
    assert_eq!(c.sweepShift, 2);
    assert_eq!(c.timerValue, 0x234);
    assert_eq!(c.lengthCounterLoad, 1);
}

#[test]
fn test_system_wram_mirror_and_reset() {
    let mut sys = System::default();
    sys.write_u8(0x07ff, 0x99, false);
    assert_eq!(sys.read_u8(0x1fff, false), 0x99);
    sys.reset();
    assert_eq!(sys.read_u8(0x07ff, false), 0);
}

#[test]
fn test_system_ppu_status_read_clears_vblank_and_toggle() {
    let mut sys = System::default();
    sys.write_ppu_is_vblank(true);
    sys.write_u8(0x2005, 0x10, false);
    assert!(sys.ppu_is_second_write);
    assert_eq!(sys.read_u8(0x2002, false) & 0x80, 0x80);
    assert!(!sys.read_ppu_is_vblank());
    assert!(!sys.ppu_is_second_write);
    // a non-destructive read changes nothing
    sys.write_ppu_is_vblank(true);
    assert_eq!(sys.read_u8(0x2002, true) & 0x80, 0x80);
    assert!(sys.read_ppu_is_vblank());
}

#[test]
fn test_system_ppu_scroll_and_addr_increment() {
    let mut sys = System::default();
    sys.write_u8(0x2005, 0x12, false);
    sys.write_u8(0x2005, 0x34, false);
    assert_eq!(sys.read_ppu_scroll(), (true, 0x12, 0x34));
    assert_eq!(sys.read_ppu_scroll(), (false, 0x12, 0x34));
    // 0xffff + 1 wraps to 0
    sys.write_u8(0x2006, 0xff, false);
    sys.write_u8(0x2006, 0xff, false);
    sys.increment_ppu_addr();
    assert_eq!(sys.read_ppu_addr(), (true, 0x0000));
    // PPU_CTRL bit 2 selects an increment of 32
    sys.write_u8(0x2000, 0x04, false);
    sys.increment_ppu_addr();
    assert_eq!(sys.read_ppu_addr(), (false, 0x0020));
}

#[test]
fn test_system_pads() {
    let mut sys = System::default();
    sys.write_u8(0x4016, 0x01, false);
    sys.pad1.push_button(Button::Start);
    sys.write_u8(0x4016, 0x00, false);
    let reads: Vec<u8> = (0..8).map(|_| sys.read_u8(0x4016, false)).collect();
    assert_eq!(reads, vec![0, 0, 0, 1, 0, 0, 0, 0]);
}

#[test]
fn test_pad_read_order() {
    let mut pad = Pad::default();
    // ignored while the strobe is off
    pad.push_button(Button::A);
    assert_eq!(pad.button_shift_reg, 0);
    pad.write_strobe(true);
    pad.push_button(Button::A);
    pad.push_button(Button::Left);
    // while the strobe is on, reads do not shift
    assert_eq!(pad.read_dout(), 1);
    assert_eq!(pad.read_dout(), 1);
    pad.write_strobe(false);
    let reads: Vec<u8> = (0..8).map(|_| pad.read_dout()).collect();
    assert_eq!(reads, vec![1, 0, 0, 0, 0, 0, 1, 0]);
    assert_eq!(pad.read_dout(), 0);
}

#[test]
fn test_pad_reset_and_dump() {
    let mut pad = Pad::default();
    pad.write_strobe(true);
    pad.push_button(Button::B);
    let seen = std::cell::Cell::new(0u8);
    rust_nes_emulator::nes::interface::EmulateControl::dump(&pad, |_i: usize, d: u8| seen.set(d));
    assert_eq!(seen.get(), 1);
    rust_nes_emulator::nes::interface::EmulateControl::reset(&mut pad);
    assert_eq!(pad.button_shift_reg, 0);
    assert!(!pad.strobe_enable);
}

#[test]
fn test_video_write_then_read_and_mirrors() {
    let mut video = VideoSystem::default();
    let mut cassette = Cassette::default();
    // name tables: 0x3000 mirrors 0x2000; horizontal mirroring repeats 0x2000 at 0x2400
    video.write_u8(&mut cassette, 0x2005, 0x44);
    assert_eq!(video.read_u8(&mut cassette, 0x2005), 0x44);
    assert_eq!(video.read_u8(&mut cassette, 0x3005), 0x44);
    assert_eq!(video.read_u8(&mut cassette, 0x2405), 0x44);
    assert_eq!(video.read_u8(&mut cassette, 0x2805), 0x00);
    // vertical mirroring repeats 0x2000 at 0x2800
    cassette.nametable_mirror = NameTableMirror::Vertical;
    assert_eq!(video.read_u8(&mut cassette, 0x2805), 0x44);
    // palette: 0x3f10 is 0x3f00, and the palette repeats every 0x20 bytes
    video.write_u8(&mut cassette, 0x3f10, 0x0f);
    assert_eq!(video.read_u8(&mut cassette, 0x3f00), 0x0f);
    assert_eq!(video.read_u8(&mut cassette, 0x3f20), 0x0f);
    // pattern tables are the cartridge's CHR-ROM
    video.write_u8(&mut cassette, 0x0010, 0x55);
    assert_eq!(cassette.chr_rom[0x10], 0x55);
    assert_eq!(video.read_u8(&mut cassette, 0x0010), 0x55);
    video.reset();
    assert_eq!(video.read_u8(&mut cassette, 0x2005), 0x00);
}

#[test]
fn test_apu_pulse_config() {
    let mut sys = System::default();
    sys.io_reg[0] = 0xbf;
    sys.io_reg[2] = 0xff;
    sys.io_reg[3] = 0x01;
    // disabled
    assert!(sys.read_apu_pulse_config(0).is_none());
    sys.io_reg[0x15] = 0x01;
    let c: PulseSound = sys.read_apu_pulse_config(0).unwrap();
    assert_eq!(c.volume, 0x0f);
    assert!(c.is_length_counter_halt);
    assert_eq!(c.timer_value, 0x1ff);
    // CPU_FREQ / (16 * (timer + 1))
    assert_eq!(c.get_freq(), 1790000 / (16 * 512));
    assert!(sys.read_apu_pulse_config(1).is_none());
}

#[test]
fn test_apu_pulse_sweep_flags() {
    let mut sys = System::default();
    sys.io_reg[0x15] = 0x01;
    sys.io_reg[0] = 0xbf;
    sys.io_reg[1] = 0x08;
    sys.io_reg[2] = 0x34;
    sys.io_reg[3] = 0x0a;
    let c: PulseSound = sys.read_apu_pulse_config(0).unwrap();
    // $4001 EPPPNSSS: only N (bit 3) is set
    assert!(c.is_sweep_negative);
    assert!(!c.is_sweep_enable);
    assert_eq!(c.sweep_period, 0);
    assert_eq!(c.sweep_shift, 0);
    assert_eq!(c.volume, 15);
    assert!(c.is_constant_volume);
    assert_eq!(c.timer_value, 0x234);
    assert_eq!(c.length_counter_load, 1);
    sys.io_reg[1] = 0xf7;
    let c: PulseSound = sys.read_apu_pulse_config(0).unwrap();
    assert!(!c.is_sweep_negative);
    assert!(c.is_sweep_enable);
    assert_eq!(c.sweep_period, 7);
    assert_eq!(c.sweep_shift, 7);
}

#[test]
fn test_video_four_screen_tables() {
    let mut video = VideoSystem::default();
    let mut cassette = Cassette::default();
    cassette.nametable_mirror = NameTableMirror::FourScreen;
    // 0x2000, 0x2400, 0x2800, 0x2c00 are four separate tables
    video.write_u8(&mut cassette, 0x2004, 1);
    video.write_u8(&mut cassette, 0x2404, 2);
    video.write_u8(&mut cassette, 0x2804, 3);
    video.write_u8(&mut cassette, 0x2c04, 4);
    assert_eq!(video.nametables[0][4], 1);
    assert_eq!(video.nametables[1][4], 2);
    assert_eq!(video.nametables[2][4], 3);
    assert_eq!(video.nametables[3][4], 4);
    assert_eq!(video.read_u8(&mut cassette, 0x3c04), 4);
}

#[test]
fn test_rams() {
    let mut wram = WorkRam { ram: [0u8; 0x800] };
    wram.write_u8(0x7ff, 0x12);
    assert_eq!(wram.read_u8(0x7ff), 0x12);
    let mut vram = VideoRam { ram: [0u8; 0x800] };
    vram.write_u8(3, 0x34);
    assert_eq!(vram.read_u8(3), 0x34);
    vram.restore(|i: usize| i as u8);
    assert_eq!(vram.read_u8(0x101), 0x01);
    let mut sum = std::cell::Cell::new(0usize);
    vram.store(|_i: usize, d: u8| sum.set(sum.get() + d as usize));
    assert_eq!(*sum.get_mut(), 8 * (0..256).sum::<usize>());
    let mut prom = ProgramRom { rom: [7u8; 0x8000] };
    assert_eq!(prom.read_u8(0x7fff), 7);
    prom.reset();
    assert_eq!(prom.read_u8(0x7fff), 0);
}
