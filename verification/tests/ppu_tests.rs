use rust_nes_emulator::cpu::Cpu;
use rust_nes_emulator::interface::SystemBus;
use rust_nes_emulator::nes::ppu::{Color, FrameBuffer, Ppu, Sprite, SpriteAttr, TileId};
use rust_nes_emulator::system::System;
use rust_nes_emulator::video_system::VideoSystem;

fn new_fb() -> Box<FrameBuffer> {
    Box::new([[[0u8; 3]; 256]; 240])
}

#[test]
fn test_color_from() {
    assert!(Color::from(0x00) == Color(84, 84, 84));
    assert!(Color::from(0x21) == Color(76, 154, 236));
    // only the low 6 bits count
    assert!(Color::from(0x70) == Color(236, 238, 236));
    assert!(Color::from(0x3f) == Color(0, 0, 0));
}

#[test]
fn test_tile_id_and_attr() {
    assert!(TileId::normal(0x35) == TileId::Normal { id: 0x35 });
    assert!(
        TileId::large(0x03)
            == TileId::Large { pattern_table_addr: 0x1000, upper_tile_id: 0x02, lower_tile_id: 0x03 }
    );
    assert!(
        TileId::large(0xfe)
            == TileId::Large { pattern_table_addr: 0x0000, upper_tile_id: 0xfe, lower_tile_id: 0xff }
    );
    let attr = SpriteAttr::from(0xe1);
    assert!(attr.is_vert_flip);
    assert!(attr.is_hor_flip);
    assert!(!attr.is_draw_front);
    assert_eq!(attr.palette_id, 1);
    let s = Sprite::from(false, 10, 20, 0x02, 30);
    assert_eq!(s.y, 10);
    assert_eq!(s.x, 30);
    assert!(s.tile_id == TileId::Normal { id: 20 });
    assert!(s.attr.is_draw_front);
    assert_eq!(s.attr.palette_id, 2);
}

#[test]
fn test_ppu_default_and_reset() {
    let mut ppu = Ppu::default();
    assert_eq!(ppu.current_line, 241);
    assert_eq!(ppu.cumulative_cpu_cyc, 0);
    ppu.current_line = 3;
    ppu.oam[5] = 9;
    ppu.reset();
    assert_eq!(ppu.current_line, 241);
    assert_eq!(ppu.oam[5], 0);
}

#[test]
fn test_ppu_cycles_and_vblank() {
    let mut ppu = Ppu::default();
    let mut cpu = Cpu::default();
    let mut sys = System::default();
    let mut video = VideoSystem::default();
    let mut fb = new_fb();
    assert!(ppu.try_step(50, &mut cpu, &mut sys, &mut video, &mut fb));
    assert_eq!(ppu.cumulative_cpu_cyc, 50);
    assert_eq!(ppu.current_line, 241);
    assert!(ppu.try_step(70, &mut cpu, &mut sys, &mut video, &mut fb));
    assert_eq!(ppu.cumulative_cpu_cyc, 7);
    assert_eq!(ppu.current_line, 242);
    // line 241 sets the VBLANK flag; NMI is disabled, so the CPU is untouched
    assert_eq!(sys.ppu_reg[2] & 0x80, 0x80);
    assert_eq!(cpu.pc, 0);
    // line 261 clears it and the counter wraps to 0
    ppu.current_line = 261;
    ppu.step(113, &mut cpu, &mut sys, &mut video, &mut fb);
    assert_eq!(sys.ppu_reg[2] & 0x80, 0x00);
    assert_eq!(ppu.current_line, 0);
}

#[test]
fn test_ppu_draws_background_line() {
    let mut ppu = Ppu::default();
    let mut cpu = Cpu::default();
    let mut sys = System::default();
    let mut video = VideoSystem::default();
    let mut fb = new_fb();
    video.palette[0] = 0x21;
    ppu.current_line = 0;
    assert!(ppu.try_step(113, &mut cpu, &mut sys, &mut video, &mut fb));
    // the leftmost 8 pixels are clipped (PPU_MASK bit 1 clear)
    assert_eq!(fb[0][0], [0, 0, 0]);
    assert_eq!(fb[0][7], [0, 0, 0]);
    assert_eq!(fb[0][8], [76, 154, 236]);
    assert_eq!(fb[0][255], [76, 154, 236]);
    // other lines are untouched
    assert_eq!(fb[1][8], [0, 0, 0]);
    assert_eq!(ppu.current_line, 1);
}

#[test]
fn test_ppu_draws_sprite() {
    let mut ppu = Ppu::default();
    let mut cpu = Cpu::default();
    let mut sys = System::default();
    let mut video = VideoSystem::default();
    let mut fb = new_fb();
    // sprite 0: y = 9 (shows from line 10), tile 1, in front, x = 16
    ppu.oam[0] = 9;
    ppu.oam[1] = 1;
    ppu.oam[2] = 0x00;
    ppu.oam[3] = 16;
    // show sprites, no left-end clipping
    sys.ppu_reg[1] = 0x14;
    // tile 1, row 0: the leftmost pixel has value 1
    sys.cassette.chr_rom[0x10] = 0x80;
    video.palette[0x11] = 0x16;
    ppu.current_line = 10;
    assert!(ppu.try_step(113, &mut cpu, &mut sys, &mut video, &mut fb));
    assert_eq!(fb[10][16], [152, 34, 32]);
    // sprite 0 hit
    assert_eq!(sys.ppu_reg[2] & 0x40, 0x40);
    assert!(ppu.sprite_temps[0].is_some());
    assert!(ppu.sprite_temps[1].is_none());
}

#[test]
fn test_ppu_oam_dma_in_two_lines() {
    let mut ppu = Ppu::default();
    let mut cpu = Cpu::default();
    let mut sys = System::default();
    let mut video = VideoSystem::default();
    let mut fb = new_fb();
    for k in 0..256usize {
        sys.wram[0x200 + k] = k as u8 ^ 0x5a;
    }
    // request a DMA from page 0x02
    sys.write_u8(0x4014, 0x02, false);
    ppu.current_line = 240;
    assert!(ppu.try_step(113, &mut cpu, &mut sys, &mut video, &mut fb));
    assert!(ppu.is_dma_running);
    assert_eq!(ppu.oam[0xa9], 0xa9 ^ 0x5a);
    assert_eq!(ppu.oam[0xaa], 0);
    assert!(ppu.try_step(113, &mut cpu, &mut sys, &mut video, &mut fb));
    assert!(!ppu.is_dma_running);
    for k in 0..256usize {
        assert_eq!(ppu.oam[k], k as u8 ^ 0x5a);
    }
}

#[test]
fn test_ppu_serves_ppu_data_write() {
    let mut ppu = Ppu::default();
    let mut cpu = Cpu::default();
    let mut sys = System::default();
    let mut video = VideoSystem::default();
    let mut fb = new_fb();
    sys.write_u8(0x2006, 0x3f, false);
    sys.write_u8(0x2006, 0x00, false);
    sys.write_u8(0x2007, 0x2a, false);
    assert!(ppu.try_step(1, &mut cpu, &mut sys, &mut video, &mut fb));
    assert_eq!(video.palette[0], 0x2a);
    // the address advanced by one
    assert_eq!(sys.ppu_addr_lower_reg, 0x01);
    // OAM_DATA writes go to OAM_ADDR
    sys.write_u8(0x2003, 0x10, false);
    sys.write_u8(0x2004, 0x77, false);
    assert!(ppu.try_step(1, &mut cpu, &mut sys, &mut video, &mut fb));
    assert_eq!(ppu.oam[0x10], 0x77);
}

#[test]
fn test_ppu_step_four_screen_write() {
    let mut ppu = Ppu::default();
    let mut cpu = Cpu::default();
    let mut sys = System::default();
    let mut video = VideoSystem::default();
    let mut fb = new_fb();
    // four-screen mirroring: 0x2c00 is the fourth table
    sys.cassette.nametable_mirror = rust_nes_emulator::nes::cassette::NameTableMirror::FourScreen;
    sys.write_u8(0x2006, 0x2c, false);
    sys.write_u8(0x2006, 0x00, false);
    sys.write_u8(0x2007, 0x01, false);
    assert!(ppu.try_step(1, &mut cpu, &mut sys, &mut video, &mut fb));
    assert_eq!(video.nametables[3][0], 0x01);
}

#[test]
fn test_ppu_dma_from_unanswered_page_fails() {
    let mut ppu = Ppu::default();
    let mut cpu = Cpu::default();
    let mut sys = System::default();
    let mut video = VideoSystem::default();
    let mut fb = new_fb();
    // page 0x40 reaches 0x4020, which nothing answers
    sys.write_u8(0x4014, 0x40, false);
    ppu.current_line = 240;
    assert!(!ppu.try_step(113, &mut cpu, &mut sys, &mut video, &mut fb));
}
