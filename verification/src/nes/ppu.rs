use vstd::prelude::*;
use crate::cpu::{Cpu, Interrupt};
use crate::cpu_register::flag_update;
use crate::interface::SystemBus;
use crate::system::System;
use crate::system_ppu_reg::name_table_base;
use crate::video_system::{
    video_addr_ok, VideoSystem, ATTRIBUTE_TABLE_OFFSET, PALETTE_BG_OFFSET, PALETTE_ENTRY_SIZE,
    PALETTE_SPRITE_OFFSET, PALETTE_TABLE_BASE_ADDR,
};

verus! {

broadcast use {System::lemma_read_keeps_mapper, System::lemma_write_keeps_mapper};

/// CPU cycles per line (341 PPU cycles / 3)
pub const CPU_CYCLE_PER_LINE: usize = 113;
pub const NUM_OF_COLOR: usize = 3;
pub const VISIBLE_SCREEN_WIDTH: usize = 256;
pub const VISIBLE_SCREEN_HEIGHT: usize = 240;
pub const RENDER_SCREEN_WIDTH: u16 = 256;
/// lines 0 - 261
pub const RENDER_SCREEN_HEIGHT: u16 = 262;
/// a tile is 8 * 8 pixels
pub const PIXEL_PER_TILE: u16 = 8;
/// 256 / 8
pub const SCREEN_TILE_WIDTH: u16 = 32;
/// 240 / 8
pub const SCREEN_TILE_HEIGHT: u16 = 30;
/// The OAM inside the PPU; the size of one DMA transfer.
pub const OAM_SIZE: usize = 0x100;
/// The bytes that the first half of a DMA copies, so that the transfer ends
/// within two lines: 341 / 513 * 256 = 170.1.
pub const OAM_DMA_COPY_SIZE_PER_PPU_STEP: u8 = 0xaa;
/// The size of one pattern table entry.
pub const PATTERN_TABLE_ENTRY_BYTE: u16 = 16;
/// Sprite registers for one line.
pub const SPRITE_TEMP_SIZE: usize = 8;
pub const NUM_OF_SPRITE: usize = 64;
/// Bytes per sprite in OAM.
pub const SPRITE_SIZE: usize = 4;
pub const SPRITE_WIDTH: usize = 8;
pub const SPRITE_NORMAL_HEIGHT: usize = 8;
pub const SPRITE_LARGE_HEIGHT: usize = 16;

/// The frame: 240 lines of 256 RGB pixels.
pub type FrameBuffer = [[[u8; NUM_OF_COLOR]; VISIBLE_SCREEN_WIDTH]; VISIBLE_SCREEN_HEIGHT];

#[derive(Copy, Clone)]
pub struct Position(pub u8, pub u8);

/// R, G, B
#[derive(Copy, Clone, Debug, PartialEq, Eq, Structural)]
pub struct Color(pub u8, pub u8, pub u8);

/// The RGB value of each of the 64 colors of the 2C02.
pub open spec fn palette_color(index: u8) -> Color {
    match index {
        0x00u8 => Color(84, 84, 84),
        0x01u8 => Color(0, 30, 116),
        0x02u8 => Color(8, 16, 144),
        0x03u8 => Color(48, 0, 136),
        0x04u8 => Color(68, 0, 100),
        0x05u8 => Color(92, 0, 48),
        0x06u8 => Color(84, 4, 0),
        0x07u8 => Color(60, 24, 0),
        0x08u8 => Color(32, 42, 0),
        0x09u8 => Color(8, 58, 0),
        0x0au8 => Color(0, 64, 0),
        0x0bu8 => Color(0, 60, 0),
        0x0cu8 => Color(0, 50, 60),
        0x0du8 => Color(0, 0, 0),
        0x0eu8 => Color(0, 0, 0),
        0x0fu8 => Color(0, 0, 0),
        0x10u8 => Color(152, 150, 152),
        0x11u8 => Color(8, 76, 196),
        0x12u8 => Color(48, 50, 236),
        0x13u8 => Color(92, 30, 228),
        0x14u8 => Color(136, 20, 176),
        0x15u8 => Color(160, 20, 100),
        0x16u8 => Color(152, 34, 32),
        0x17u8 => Color(120, 60, 0),
        0x18u8 => Color(84, 90, 0),
        0x19u8 => Color(40, 114, 0),
        0x1au8 => Color(8, 124, 0),
        0x1bu8 => Color(0, 118, 40),
        0x1cu8 => Color(0, 102, 120),
        0x1du8 => Color(0, 0, 0),
        0x1eu8 => Color(0, 0, 0),
        0x1fu8 => Color(0, 0, 0),
        0x20u8 => Color(236, 238, 236),
        0x21u8 => Color(76, 154, 236),
        0x22u8 => Color(120, 124, 236),
        0x23u8 => Color(176, 98, 236),
        0x24u8 => Color(228, 84, 236),
        0x25u8 => Color(236, 88, 180),
        0x26u8 => Color(236, 106, 100),
        0x27u8 => Color(212, 136, 32),
        0x28u8 => Color(160, 170, 0),
        0x29u8 => Color(116, 196, 0),
        0x2au8 => Color(76, 208, 32),
        0x2bu8 => Color(56, 204, 108),
        0x2cu8 => Color(56, 180, 204),
        0x2du8 => Color(60, 60, 60),
        0x2eu8 => Color(0, 0, 0),
        0x2fu8 => Color(0, 0, 0),
        0x30u8 => Color(236, 238, 236),
        0x31u8 => Color(168, 204, 236),
        0x32u8 => Color(188, 188, 236),
        0x33u8 => Color(212, 178, 236),
        0x34u8 => Color(236, 174, 236),
        0x35u8 => Color(236, 174, 212),
        0x36u8 => Color(236, 180, 176),
        0x37u8 => Color(228, 196, 144),
        0x38u8 => Color(204, 210, 120),
        0x39u8 => Color(180, 222, 120),
        0x3au8 => Color(168, 226, 144),
        0x3bu8 => Color(152, 226, 180),
        0x3cu8 => Color(160, 214, 228),
        0x3du8 => Color(160, 162, 160),
        0x3eu8 => Color(0, 0, 0),
        _ => Color(0, 0, 0),
    }
}

impl Color {
    /// Converts a 2C02 color (..VV_HHHH: V value, H hue) to RGB.
    pub fn from(src: u8) -> (c: Color)
        ensures
            c == palette_color(src & 0x3fu8),
    {
        let index = src & 0x3fu8;
        match index {
            0x00u8 => Color(84, 84, 84),
            0x01u8 => Color(0, 30, 116),
            0x02u8 => Color(8, 16, 144),
            0x03u8 => Color(48, 0, 136),
            0x04u8 => Color(68, 0, 100),
            0x05u8 => Color(92, 0, 48),
            0x06u8 => Color(84, 4, 0),
            0x07u8 => Color(60, 24, 0),
            0x08u8 => Color(32, 42, 0),
            0x09u8 => Color(8, 58, 0),
            0x0au8 => Color(0, 64, 0),
            0x0bu8 => Color(0, 60, 0),
            0x0cu8 => Color(0, 50, 60),
            0x0du8 => Color(0, 0, 0),
            0x0eu8 => Color(0, 0, 0),
            0x0fu8 => Color(0, 0, 0),
            0x10u8 => Color(152, 150, 152),
            0x11u8 => Color(8, 76, 196),
            0x12u8 => Color(48, 50, 236),
            0x13u8 => Color(92, 30, 228),
            0x14u8 => Color(136, 20, 176),
            0x15u8 => Color(160, 20, 100),
            0x16u8 => Color(152, 34, 32),
            0x17u8 => Color(120, 60, 0),
            0x18u8 => Color(84, 90, 0),
            0x19u8 => Color(40, 114, 0),
            0x1au8 => Color(8, 124, 0),
            0x1bu8 => Color(0, 118, 40),
            0x1cu8 => Color(0, 102, 120),
            0x1du8 => Color(0, 0, 0),
            0x1eu8 => Color(0, 0, 0),
            0x1fu8 => Color(0, 0, 0),
            0x20u8 => Color(236, 238, 236),
            0x21u8 => Color(76, 154, 236),
            0x22u8 => Color(120, 124, 236),
            0x23u8 => Color(176, 98, 236),
            0x24u8 => Color(228, 84, 236),
            0x25u8 => Color(236, 88, 180),
            0x26u8 => Color(236, 106, 100),
            0x27u8 => Color(212, 136, 32),
            0x28u8 => Color(160, 170, 0),
            0x29u8 => Color(116, 196, 0),
            0x2au8 => Color(76, 208, 32),
            0x2bu8 => Color(56, 204, 108),
            0x2cu8 => Color(56, 180, 204),
            0x2du8 => Color(60, 60, 60),
            0x2eu8 => Color(0, 0, 0),
            0x2fu8 => Color(0, 0, 0),
            0x30u8 => Color(236, 238, 236),
            0x31u8 => Color(168, 204, 236),
            0x32u8 => Color(188, 188, 236),
            0x33u8 => Color(212, 178, 236),
            0x34u8 => Color(236, 174, 236),
            0x35u8 => Color(236, 174, 212),
            0x36u8 => Color(236, 180, 176),
            0x37u8 => Color(228, 196, 144),
            0x38u8 => Color(204, 210, 120),
            0x39u8 => Color(180, 222, 120),
            0x3au8 => Color(168, 226, 144),
            0x3bu8 => Color(152, 226, 180),
            0x3cu8 => Color(160, 214, 228),
            0x3du8 => Color(160, 162, 160),
            0x3eu8 => Color(0, 0, 0),
            _ => Color(0, 0, 0),
        }
    }
}

/// A sprite's tile, from its tile byte.
#[derive(Copy, Clone, Debug, PartialEq, Eq, Structural)]
pub enum TileId {
    /// 8 * 8 sprites
    Normal { id: u8 },
    /// 8 * 16 sprites: the byte is TTTTTTTP
    Large {
        /// P: the pattern table (0: 0x0000, 1: 0x1000)
        pattern_table_addr: u16,
        /// 2 * T
        upper_tile_id: u8,
        /// 2 * T + 1
        lower_tile_id: u8,
    },
}

impl TileId {
    pub fn normal(src: u8) -> (t: TileId)
        ensures
            t == (TileId::Normal { id: src }),
    {
        TileId::Normal { id: src }
    }

    pub fn large(src: u8) -> (t: TileId)
        ensures
            t == (TileId::Large {
                pattern_table_addr: if src & 0x01u8 == 0x01u8 { 0x1000u16 } else { 0x0000u16 },
                upper_tile_id: src & 0xfeu8,
                lower_tile_id: ((src & 0xfeu8) + 1) as u8,
            }),
    {
        proof {
            assert(src & 0xfeu8 <= 0xfe) by (bit_vector);
        }
        TileId::Large {
            pattern_table_addr: (if (src & 0x01u8) == 0x01u8 { 0x1000u16 } else { 0x0000u16 }),
            upper_tile_id: src & 0xfeu8,
            lower_tile_id: (src & 0xfeu8) + 1,
        }
    }
}

/// A sprite's attributes: VHP___CC
#[derive(Copy, Clone, Debug, PartialEq, Eq, Structural)]
pub struct SpriteAttr {
    /// V: vertical flip
    pub is_vert_flip: bool,
    /// H: horizontal flip
    pub is_hor_flip: bool,
    /// P (clear): drawn in front of the background
    pub is_draw_front: bool,
    /// CC: palette (2 bits)
    pub palette_id: u8,
}

impl SpriteAttr {
    pub fn from(src: u8) -> (attr: SpriteAttr)
        ensures
            attr == (SpriteAttr {
                is_vert_flip: src & 0x80u8 == 0x80u8,
                is_hor_flip: src & 0x40u8 == 0x40u8,
                is_draw_front: src & 0x20u8 != 0x20u8,
                palette_id: src & 0x03u8,
            }),
    {
        SpriteAttr {
            is_vert_flip: (src & 0x80u8) == 0x80u8,
            is_hor_flip: (src & 0x40u8) == 0x40u8,
            is_draw_front: (src & 0x20u8) != 0x20u8,
            palette_id: (src & 0x03u8),
        }
    }
}

#[derive(Copy, Clone, Debug, PartialEq, Eq, Structural)]
pub struct Sprite {
    /// y; the sprite shows one line below it
    pub y: u8,
    pub tile_id: TileId,
    pub attr: SpriteAttr,
    pub x: u8,
}

/// The sprite that four OAM bytes describe.
pub open spec fn sprite_spec(is_large: bool, byte0: u8, byte1: u8, byte2: u8, byte3: u8) -> Sprite {
    Sprite {
        y: byte0,
        tile_id: if is_large {
            TileId::Large {
                pattern_table_addr: if byte1 & 0x01u8 == 0x01u8 { 0x1000u16 } else { 0x0000u16 },
                upper_tile_id: byte1 & 0xfeu8,
                lower_tile_id: ((byte1 & 0xfeu8) + 1) as u8,
            }
        } else {
            TileId::Normal { id: byte1 }
        },
        attr: SpriteAttr {
            is_vert_flip: byte2 & 0x80u8 == 0x80u8,
            is_hor_flip: byte2 & 0x40u8 == 0x40u8,
            is_draw_front: byte2 & 0x20u8 != 0x20u8,
            palette_id: byte2 & 0x03u8,
        },
        x: byte3,
    }
}

impl Sprite {
    /// Builds a sprite from its OAM bytes.
    /// `is_large` - true for 8 * 16 sprites, false for 8 * 8
    pub fn from(is_large: bool, byte0: u8, byte1: u8, byte2: u8, byte3: u8) -> (s: Sprite)
        ensures
            s == sprite_spec(is_large, byte0, byte1, byte2, byte3),
    {
        Sprite {
            y: byte0,
            tile_id: (if is_large { TileId::large(byte1) } else { TileId::normal(byte1) }),
            attr: SpriteAttr::from(byte2),
            x: byte3,
        }
    }
}

#[derive(Copy, Clone, PartialEq, Eq, Structural)]
enum LineStatus {
    /// 0 - 239
    Visible,
    /// 240
    PostRender,
    /// 241 - 260; true on the first
    VerticalBlanking(bool),
    /// 261
    PreRender,
}

impl LineStatus {
    fn from(line: u16) -> (s: LineStatus)
        requires
            line < 262,
        ensures
            line < 240 ==> s == LineStatus::Visible,
            line == 240 ==> s == LineStatus::PostRender,
            241 <= line < 261 ==> s == LineStatus::VerticalBlanking(line == 241),
            line == 261 ==> s == LineStatus::PreRender,
    {
        if line < 240 {
            LineStatus::Visible
        } else if line == 240 {
            LineStatus::PostRender
        } else if line < 261 {
            LineStatus::VerticalBlanking(line == 241)
        } else {
            LineStatus::PreRender
        }
    }
}

pub struct Ppu {
    /// Object Attribute Memory
    pub oam: [u8; OAM_SIZE],
    /// The sprites of the next line drawn, packed at the front
    pub sprite_temps: [Option<Sprite>; SPRITE_TEMP_SIZE],
    /// CPU cycles gathered towards the next line
    pub cumulative_cpu_cyc: usize,
    /// The line processed next
    pub current_line: u16,
    /// Scroll values, taken over once per line
    pub fetch_scroll_x: u8,
    pub fetch_scroll_y: u8,
    pub current_scroll_x: u8,
    pub current_scroll_y: u8,
    /// A DMA is half done. A DMA takes 513 cycles; here it is split over two
    /// lines (170 bytes, then the remaining 86).
    pub is_dma_running: bool,
    /// The DMA's CPU source: a page, so its low byte is 0
    pub dma_cpu_src_addr: u16,
    /// The DMA's OAM destination; it wraps after 256 bytes
    pub dma_oam_dst_addr: u8,
}

impl Ppu {
    /// The state of a fresh or reset PPU, with everything cleared and the
    /// next line 241 (the first VBLANK line).
    pub open spec fn is_reset(self) -> bool {
        &&& forall|i: int| 0 <= i < 0x100 ==> self.oam[i] == 0
        &&& forall|i: int| 0 <= i < 8 ==> self.sprite_temps[i] is None
        &&& self.cumulative_cpu_cyc == 0
        &&& self.current_line == 241
        &&& self.fetch_scroll_x == 0
        &&& self.fetch_scroll_y == 0
        &&& self.current_scroll_x == 0
        &&& self.current_scroll_y == 0
        &&& !self.is_dma_running
        &&& self.dma_cpu_src_addr == 0
        &&& self.dma_oam_dst_addr == 0
    }

    /// Clears the PPU. (Dumping and restoring its state is not provided.)
    pub fn reset(&mut self)
        ensures
            final(self).is_reset(),
    {
        self.oam = [0u8; OAM_SIZE];
        self.sprite_temps = [None; SPRITE_TEMP_SIZE];
        self.current_line = 241;
        self.cumulative_cpu_cyc = 0;
        self.fetch_scroll_x = 0;
        self.fetch_scroll_y = 0;
        self.current_scroll_x = 0;
        self.current_scroll_y = 0;
        self.is_dma_running = false;
        self.dma_cpu_src_addr = 0;
        self.dma_oam_dst_addr = 0;
    }
}

impl Default for Ppu {
    fn default() -> (ppu: Self)
        ensures
            ppu.is_reset(),
    {
        Self {
            oam: [0u8; OAM_SIZE],
            sprite_temps: [None; SPRITE_TEMP_SIZE],
            cumulative_cpu_cyc: 0,
            current_line: 241,
            fetch_scroll_x: 0,
            fetch_scroll_y: 0,
            current_scroll_x: 0,
            current_scroll_y: 0,
            is_dma_running: false,
            dma_cpu_src_addr: 0,
            dma_oam_dst_addr: 0,
        }
    }
}

/// The OAM and the bus after a DMA has copied `n` bytes: byte k is read
/// through the bus at CPU address cpu_start + k and stored at OAM entry
/// oam_start + k, both wrapping.
pub open spec fn dma_copy(oam: [u8; OAM_SIZE], sys: System, cpu_start: u16, oam_start: u8, n: nat) -> ([u8; OAM_SIZE], System)
    decreases n,
{
    if n == 0 {
        (oam, sys)
    } else {
        let (o, s) = dma_copy(oam, sys, cpu_start, oam_start, (n - 1) as nat);
        let k = n - 1;
        let (d, s2) = s.read_spec(((cpu_start + k) % 0x10000) as u16, false);
        (vstd::array::spec_array_update(o, (oam_start + k) % 256, d), s2)
    }
}

/// The bus answers every address of a DMA of `n` bytes.
pub open spec fn dma_reads_ok(sys: System, cpu_start: u16, n: nat) -> bool {
    forall|k: int| 0 <= k < n ==> #[trigger] sys.addr_ok(((cpu_start + k) % 0x10000) as u16)
}

/// A DMA leaves the cartridge's mapper as it was.
proof fn lemma_dma_copy_keeps_mapper(oam: [u8; OAM_SIZE], sys: System, cpu_start: u16, oam_start: u8, n: nat)
    ensures
        dma_copy(oam, sys, cpu_start, oam_start, n).1.cassette.mapper == sys.cassette.mapper,
    decreases n,
{
    if n > 0 {
        lemma_dma_copy_keeps_mapper(oam, sys, cpu_start, oam_start, (n - 1) as nat);
    }
}

/// The status bits that line setup writes: sprite 0 hit (bit 6) and sprite
/// overflow (bit 5).
pub open spec fn sprite_status(p: u8, is_hit: bool, is_overflow: bool) -> u8 {
    flag_update(flag_update(p, 0x40, is_hit), 0x20, is_overflow)
}

proof fn lemma_sprite_status(p: u8, h: bool, o: bool)
    ensures
        flag_update(sprite_status(p, h, o), 0x40, true) == sprite_status(p, true, o),
        flag_update(sprite_status(p, h, o), 0x20, true) == sprite_status(p, h, true),
{
    assert(((((p | 0x40u8) | 0x20u8) | 0x40u8) == ((p | 0x40u8) | 0x20u8)) && (((((p | 0x40u8) & !0x20u8) | 0x40u8)) == ((p | 0x40u8) & !0x20u8)) && ((((p & !0x40u8) | 0x20u8) | 0x40u8) == ((p | 0x40u8) | 0x20u8)) && ((((p & !0x40u8) & !0x20u8) | 0x40u8) == ((p | 0x40u8) & !0x20u8))) by (bit_vector);
    assert(((((p | 0x40u8) | 0x20u8) | 0x20u8) == ((p | 0x40u8) | 0x20u8)) && ((((p | 0x40u8) & !0x20u8) | 0x20u8) == ((p | 0x40u8) | 0x20u8)) && ((((p & !0x40u8) | 0x20u8) | 0x20u8) == ((p & !0x40u8) | 0x20u8)) && ((((p & !0x40u8) & !0x20u8) | 0x20u8) == ((p & !0x40u8) | 0x20u8))) by (bit_vector);
}

/// Sprite k of OAM lies on the line: its y is above the line and the line is
/// within `height` below it.
pub open spec fn sprite_on_line(oam: [u8; OAM_SIZE], k: int, line: u16, height: u16) -> bool {
    oam[4 * k] < line && line <= oam[4 * k] + height
}

/// The sprites among the first `n` of OAM that lie on the line, in OAM order.
pub open spec fn sprites_on_line(oam: [u8; OAM_SIZE], line: u16, height: u16, is_large: bool, n: nat) -> Seq<Sprite>
    decreases n,
{
    if n == 0 {
        Seq::empty()
    } else {
        let prev = sprites_on_line(oam, line, height, is_large, (n - 1) as nat);
        let k = n - 1;
        if sprite_on_line(oam, k, line, height) {
            prev.push(sprite_spec(is_large, oam[4 * k], oam[4 * k + 1], oam[4 * k + 2], oam[4 * k + 3]))
        } else {
            prev
        }
    }
}

/// The sprite height that PPU_CTRL bit 5 selects: 8 or 16.
pub open spec fn sprite_height_of(sys: System) -> u16 {
    if sys.ppu_reg[0] & 0x20u8 == 0x20u8 { 16 } else { 8 }
}

impl Ppu {
    /// Where a DMA half starts on the CPU side and in OAM, and how many bytes
    /// it copies: the first 170 bytes, then the remaining 86.
    pub open spec fn dma_cpu_start(self, is_pre_transfer: bool) -> u16 {
        ((self.dma_cpu_src_addr + (if is_pre_transfer { 0int } else { 0xaa })) % 0x10000) as u16
    }

    pub open spec fn dma_oam_start(self, is_pre_transfer: bool) -> u8 {
        ((self.dma_oam_dst_addr + (if is_pre_transfer { 0int } else { 0xaa })) % 256) as u8
    }

    pub open spec fn dma_size(is_pre_transfer: bool) -> nat {
        if is_pre_transfer { 0xaa } else { 0x56 }
    }

    /// A DMA half can run: the first half starts a DMA, the second finishes a
    /// running one; the source is a page; the bus answers every read.
    pub open spec fn run_dma_ok(self, sys: System, is_pre_transfer: bool) -> bool {
        &&& (!self.is_dma_running && is_pre_transfer) || (self.is_dma_running && !is_pre_transfer)
        &&& self.dma_cpu_src_addr & 0x00ffu16 == 0
        &&& dma_reads_ok(sys, self.dma_cpu_start(is_pre_transfer), Ppu::dma_size(is_pre_transfer))
    }

    /// The PPU and the bus after a DMA half; the DMA is left running after
    /// the first half.
    pub open spec fn run_dma_spec(self, sys: System, is_pre_transfer: bool) -> (Ppu, System) {
        let (o, s) = dma_copy(
            self.oam,
            sys,
            self.dma_cpu_start(is_pre_transfer),
            self.dma_oam_start(is_pre_transfer),
            Ppu::dma_size(is_pre_transfer),
        );
        (Ppu { oam: o, is_dma_running: is_pre_transfer, ..self }, s)
    }

    /// The PPU and the bus after the sprites of the current line are fetched:
    /// the sprite 0 hit and overflow flags are cleared; with sprites shown,
    /// the first eight sprites on the line fill the registers (the rest are
    /// emptied), sprite 0 on the line sets the hit flag, and a ninth sets the
    /// overflow flag.
    pub open spec fn fetch_sprite_spec(self, sys: System) -> (Ppu, System) {
        if sys.ppu_reg[1] & 0x10u8 != 0x10u8 {
            (self, sys.with_ppu_reg(2, sprite_status(sys.ppu_reg[2], false, false)))
        } else {
            let height = sprite_height_of(sys);
            let list = sprites_on_line(self.oam, self.current_line, height, height == 16, 64);
            (
                Ppu { sprite_temps: sprite_regs(list), ..self },
                sys.with_ppu_reg(
                    2,
                    sprite_status(
                        sys.ppu_reg[2],
                        sprite_on_line(self.oam, 0, self.current_line, height),
                        list.len() > 8,
                    ),
                ),
            )
        }
    }
}

/// Sprite register i holds the i-th sprite of the list, if there is one.
pub open spec fn sprite_reg(list: Seq<Sprite>, i: int) -> Option<Sprite> {
    if 0 <= i < list.len() {
        Some(list[i])
    } else {
        None
    }
}

/// The sprite registers holding the first eight sprites of the list.
pub open spec fn sprite_regs(list: Seq<Sprite>) -> [Option<Sprite>; SPRITE_TEMP_SIZE] {
    let a = vstd::array::spec_array_fill_for_copy_type::<Option<Sprite>, 8>(None);
    let a = vstd::array::spec_array_update(a, 0, sprite_reg(list, 0));
    let a = vstd::array::spec_array_update(a, 1, sprite_reg(list, 1));
    let a = vstd::array::spec_array_update(a, 2, sprite_reg(list, 2));
    let a = vstd::array::spec_array_update(a, 3, sprite_reg(list, 3));
    let a = vstd::array::spec_array_update(a, 4, sprite_reg(list, 4));
    let a = vstd::array::spec_array_update(a, 5, sprite_reg(list, 5));
    let a = vstd::array::spec_array_update(a, 6, sprite_reg(list, 6));
    vstd::array::spec_array_update(a, 7, sprite_reg(list, 7))
}

proof fn lemma_sprite_regs(list: Seq<Sprite>)
    ensures
        forall|i: int| 0 <= i < 8 ==> #[trigger] sprite_regs(list)[i] == sprite_reg(list, i),
{
    broadcast use {vstd::array::axiom_spec_array_update, vstd::array::axiom_spec_array_fill_for_copy_type};
}

impl Ppu {
    /// Runs half of a DMA.
    /// `is_pre_transfer` - true right after the request, false one line later
    fn run_dma(&mut self, system: &mut System, is_pre_transfer: bool)
        requires
            old(self).run_dma_ok(*old(system), is_pre_transfer),
        ensures
            (*final(self), *final(system)) == old(self).run_dma_spec(*old(system), is_pre_transfer),
    {
        // addresses
        let start_offset: u8 = if is_pre_transfer { 0 } else { OAM_DMA_COPY_SIZE_PER_PPU_STEP };
        let cpu_start_addr: u16 = self.dma_cpu_src_addr.wrapping_add(start_offset as u16);
        let oam_start_addr: u8 = self.dma_oam_dst_addr.wrapping_add(start_offset);
        proof {
            crate::cpu_instruction::lemma_wrapping_add_u16(self.dma_cpu_src_addr, start_offset as u16);
            crate::cpu_instruction::lemma_wrapping_add_u8(self.dma_oam_dst_addr, start_offset);
        }
        // transfer size
        let transfer_size: u16 = if is_pre_transfer {
            OAM_DMA_COPY_SIZE_PER_PPU_STEP as u16
        } else {
            (OAM_SIZE as u16) - (OAM_DMA_COPY_SIZE_PER_PPU_STEP as u16)
        };
        let ghost old_oam = self.oam;
        let ghost old_sys = *system;
        let mut offset: u16 = 0;
        while offset < transfer_size
            invariant
                0 <= offset <= transfer_size,
                transfer_size == Ppu::dma_size(is_pre_transfer),
                cpu_start_addr == old(self).dma_cpu_start(is_pre_transfer),
                oam_start_addr == old(self).dma_oam_start(is_pre_transfer),
                dma_reads_ok(old_sys, cpu_start_addr, transfer_size as nat),
                (self.oam, *system) == dma_copy(old_oam, old_sys, cpu_start_addr, oam_start_addr, offset as nat),
                *self == (Ppu { oam: self.oam, ..*old(self) }),
            decreases transfer_size - offset,
        {
            proof {
                lemma_dma_copy_keeps_mapper(old_oam, old_sys, cpu_start_addr, oam_start_addr, offset as nat);
                assert(old_sys.addr_ok(((cpu_start_addr + offset) % 0x10000) as u16));
            }
            let cpu_addr = cpu_start_addr.wrapping_add(offset);
            let oam_addr = oam_start_addr.wrapping_add(offset as u8) as usize;
            proof {
                crate::cpu_instruction::lemma_wrapping_add_u16(cpu_start_addr, offset);
                crate::cpu_instruction::lemma_wrapping_add_u8(oam_start_addr, offset as u8);
            }
            let cpu_data = system.read_u8(cpu_addr, false);
            self.oam[oam_addr] = cpu_data;
            proof {
                assert(self.oam =~= dma_copy(old_oam, old_sys, cpu_start_addr, oam_start_addr, (offset + 1) as nat).0);
            }
            offset = offset + 1;
        }
        // status
        self.is_dma_running = is_pre_transfer;
    }

    /// One OAM entry of the sprite search: a sprite on the line sets the
    /// sprite 0 hit flag if it is sprite 0, and goes into the next free
    /// register, or sets the overflow flag when none is free.
    fn fetch_sprite_at(
        &mut self,
        system: &mut System,
        sprite_index: usize,
        tmp_index: usize,
        sprite_begin_y: u16,
        sprite_height: u16,
        is_large: bool,
    ) -> (next: usize)
        requires
            sprite_index < 64,
            tmp_index <= 8,
            sprite_height <= 16,
        ensures
            *final(self) == (Ppu { sprite_temps: final(self).sprite_temps, ..*old(self) }),
            *final(system) == (System { ppu_reg: final(system).ppu_reg, ..*old(system) }),
            forall|i: int| 0 <= i < 8 && i != 2 ==> final(system).ppu_reg[i] == old(system).ppu_reg[i],
            sprite_on_line(old(self).oam, sprite_index as int, sprite_begin_y, sprite_height) ==> {
                &&& final(system).ppu_reg[2] == status_after(old(system).ppu_reg[2], sprite_index == 0, tmp_index >= 8)
                &&& tmp_index < 8 ==> next == tmp_index + 1 && final(self).sprite_temps@ == old(self).sprite_temps@.update(
                    tmp_index as int,
                    Some(sprite_spec(
                        is_large,
                        old(self).oam[4 * sprite_index],
                        old(self).oam[4 * sprite_index + 1],
                        old(self).oam[4 * sprite_index + 2],
                        old(self).oam[4 * sprite_index + 3],
                    )),
                )
                &&& tmp_index >= 8 ==> next == tmp_index && final(self).sprite_temps == old(self).sprite_temps
            },
            !sprite_on_line(old(self).oam, sprite_index as int, sprite_begin_y, sprite_height) ==> {
                &&& *final(self) == *old(self)
                &&& *final(system) == *old(system)
                &&& next == tmp_index
            },
    {
        let target_oam_addr = sprite_index * SPRITE_SIZE;
        // the sprite's y
        let sprite_y = self.oam[target_oam_addr] as u16;
        let sprite_end_y = sprite_y + sprite_height;
        // on the line: (y + 1) ~ (y + 1 + 8 or 16)
        if (sprite_y < sprite_begin_y) && (sprite_begin_y <= sprite_end_y) {
            // sprite 0 hit (set ahead, as lines are processed whole)
            if sprite_index == 0 {
                system.write_ppu_is_hit_sprite0(true);
            }
            // sprite overflow
            if tmp_index >= SPRITE_TEMP_SIZE {
                system.write_ppu_is_sprite_overflow(true);
                tmp_index
            } else {
                self.sprite_temps[tmp_index] = Some(Sprite::from(
                    is_large,
                    self.oam[target_oam_addr],
                    self.oam[target_oam_addr + 1],
                    self.oam[target_oam_addr + 2],
                    self.oam[target_oam_addr + 3],
                ));
                tmp_index + 1
            }
        } else {
            tmp_index
        }
    }

    /// Searches OAM for the sprites of the next line drawn and loads them
    /// into the sprite registers; a ninth sprite sets the overflow flag.
    #[verifier::rlimit(90)]
    fn fetch_sprite(&mut self, system: &mut System)
        ensures
            (*final(self), *final(system)) == old(self).fetch_sprite_spec(*old(system)),
    {
        // clear the status flags
        system.write_ppu_is_hit_sprite0(false);
        system.write_ppu_is_sprite_overflow(false);
        // sprites not shown
        if !system.read_ppu_is_write_sprite() {
            proof {
                assert(system.ppu_reg =~= old(system).with_ppu_reg(2, sprite_status(old(system).ppu_reg[2], false, false)).ppu_reg);
            }
            return;
        }
        let sprite_begin_y = self.current_line;
        let sprite_height = system.read_ppu_sprite_height() as u16;
        let is_large = sprite_height == 16;
        let ghost line = self.current_line;
        let ghost p2 = old(system).ppu_reg[2];
        let ghost sys0 = *system;
        let ghost oam = self.oam;
        // clear them all first
        self.sprite_temps = [None; SPRITE_TEMP_SIZE];
        let ghost mut list: Seq<Sprite> = Seq::empty();
        // gather the sprites whose y + 1 reaches the line, in order
        let mut tmp_index: usize = 0;
        let mut sprite_index: usize = 0;
        while sprite_index < NUM_OF_SPRITE
            invariant
                0 <= sprite_index <= 64,
                sprite_begin_y == line,
                line == old(self).current_line,
                oam == old(self).oam,
                sprite_height == sprite_height_of(*old(system)),
                is_large == (sprite_height == 16),
                list == sprites_on_line(oam, line, sprite_height, is_large, sprite_index as nat),
                tmp_index == if list.len() < 8 { list.len() as int } else { 8 },
                forall|i: int| 0 <= i < 8 ==> #[trigger] self.sprite_temps[i] == sprite_reg(list, i),
                *self == (Ppu { sprite_temps: self.sprite_temps, ..*old(self) }),
                *system == (System { ppu_reg: system.ppu_reg, ..sys0 }),
                forall|i: int| 0 <= i < 8 && i != 2 ==> system.ppu_reg[i] == old(system).ppu_reg[i],
                system.ppu_reg[2] == sprite_status(
                    p2,
                    sprite_index > 0 && sprite_on_line(oam, 0, line, sprite_height),
                    list.len() > 8,
                ),
            decreases 64 - sprite_index,
        {
            let ghost prev_temps = self.sprite_temps;
            let ghost prev_list = list;
            proof {
                lemma_sprite_status(p2, sprite_index > 0 && sprite_on_line(oam, 0, line, sprite_height), list.len() > 8);
                lemma_sprite_status(p2, true, list.len() > 8);
                let k = sprite_index as int;
                if sprite_on_line(oam, k, line, sprite_height) {
                    list = list.push(sprite_spec(is_large, oam[4 * k], oam[4 * k + 1], oam[4 * k + 2], oam[4 * k + 3]));
                }
            }
            tmp_index = self.fetch_sprite_at(system, sprite_index, tmp_index, sprite_begin_y, sprite_height, is_large);
            proof {
                assert forall|i: int| 0 <= i < 8 implies #[trigger] self.sprite_temps[i] == sprite_reg(list, i) by {
                    assert(prev_temps[i] == sprite_reg(prev_list, i));
                }
            }
            sprite_index = sprite_index + 1;
        }
        proof {
            lemma_sprite_regs(list);
            assert(self.sprite_temps =~= sprite_regs(list));
            assert(system.ppu_reg =~= old(system).with_ppu_reg(2, sprite_status(
                p2,
                sprite_on_line(oam, 0, line, sprite_height),
                list.len() > 8,
            )).ppu_reg);
        }
    }
}

/// The status byte after a sprite on the line: the hit flag for sprite 0,
/// the overflow flag when no register is free.
pub open spec fn status_after(p: u8, is_hit: bool, is_overflow: bool) -> u8 {
    let p1 = if is_hit { flag_update(p, 0x40, true) } else { p };
    if is_overflow { flag_update(p1, 0x20, true) } else { p1 }
}

/// The RGB bytes of a color.
pub open spec fn color_bytes(c: Color) -> Seq<u8> {
    seq![c.0, c.1, c.2]
}

/// Sprites are hidden in the leftmost 8 pixels (PPU_MASK bit 2 clear).
pub open spec fn clip_sprite(sys: System) -> bool {
    sys.ppu_reg[1] & 0x04u8 != 0x04u8
}

/// The background is hidden in the leftmost 8 pixels (PPU_MASK bit 1 clear).
pub open spec fn clip_bg(sys: System) -> bool {
    sys.ppu_reg[1] & 0x02u8 != 0x02u8
}

/// The background pattern table: 0x1000 when PPU_CTRL bit 4 is set.
pub open spec fn bg_pattern_table(sys: System) -> u16 {
    if sys.ppu_reg[0] & 0x10u8 == 0x10u8 { 0x1000 } else { 0x0000 }
}

/// The pattern table of 8 * 8 sprites: 0x1000 when PPU_CTRL bit 3 is set.
pub open spec fn sprite_pattern_table(sys: System) -> u16 {
    if sys.ppu_reg[0] & 0x08u8 == 0x08u8 { 0x1000 } else { 0x0000 }
}

/// The 2-bit pixel value at column `col` (0 = leftmost) of a pattern row.
pub open spec fn pattern_bits(lower: u8, upper: u8, col: int) -> u8 {
    (((upper >> ((7 - col) as u8)) & 0x01u8) << 1u8) | ((lower >> ((7 - col) as u8)) & 0x01u8)
}

impl Ppu {
    /// The line's tile row among the two name tables stacked vertically
    /// (0 - 59), scrolled.
    pub open spec fn tile_global_y(self) -> int {
        (self.current_line / 8 + self.current_scroll_y) % 60
    }

    /// Tile column `tx` (0 - 31) among the two name tables side by side
    /// (0 - 63), scrolled.
    pub open spec fn tile_global_x(self, tx: int) -> int {
        (tx + self.current_scroll_x) % 64
    }

    /// The base of the name table (of the four) that tile column `tx` reads.
    pub open spec fn target_nametable_base(self, sys: System, tx: int) -> int {
        name_table_base(sys.ppu_reg[0]) + (if self.tile_global_x(tx) < 32 { 0int } else { 0x400 }) + (
        if self.tile_global_y() < 30 { 0int } else { 0x800 })
    }

    /// The attribute address of tile column `tx`.
    pub open spec fn attribute_addr(self, sys: System, tx: int) -> u16 {
        (self.target_nametable_base(sys, tx) + 0x3c0) as u16
    }

    /// The name table address of tile column `tx`.
    pub open spec fn nametable_addr(self, sys: System, tx: int) -> u16 {
        (self.target_nametable_base(sys, tx) + (self.tile_global_y() % 30) * 32 + self.tile_global_x(tx)
            % 32) as u16
    }

    /// The background palette (0 - 3) of tile column `tx`: the 2-bit field of
    /// the attribute byte for its quarter.
    pub open spec fn bg_palette_id(self, sys: System, video: VideoSystem, tx: int) -> u8 {
        let raw = video.read_spec(sys.cassette, self.attribute_addr(sys, tx));
        let lx = (self.tile_global_x(tx) % 32) % 2;
        let ly = (self.tile_global_y() % 30) % 2;
        if lx == 0 && ly == 0 {
            raw & 0x03u8
        } else if lx == 1 && ly == 0 {
            (raw >> 2u8) & 0x03u8
        } else if lx == 0 && ly == 1 {
            (raw >> 4u8) & 0x03u8
        } else {
            (raw >> 6u8) & 0x03u8
        }
    }

    /// The attribute byte holds four 2-bit palette numbers, one per 2x2-tile
    /// quarter of its 4x4-tile area: the quarter in tile column parity `lx`
    /// and row parity `ly` takes bits 2 * (lx + 2 * ly) and up (top-left bits
    /// 0-1, top-right 2-3, bottom-left 4-5, bottom-right 6-7).
    pub proof fn lemma_bg_palette_quarters(self, sys: System, video: VideoSystem, tx: int)
        ensures
            ({
                let raw = video.read_spec(sys.cassette, self.attribute_addr(sys, tx));
                let lx = (self.tile_global_x(tx) % 32) % 2;
                let ly = (self.tile_global_y() % 30) % 2;
                let shift = (2 * (lx + 2 * ly)) as u8;
                &&& self.bg_palette_id(sys, video, tx) == (raw >> shift) & 0x03u8
                &&& self.bg_palette_id(sys, video, tx) < 4
            }),
    {
        let raw = video.read_spec(sys.cassette, self.attribute_addr(sys, tx));
        assert(raw >> 0u8 == raw && (raw >> 0u8) & 0x03u8 < 4 && (raw >> 2u8) & 0x03u8 < 4 && (raw
            >> 4u8) & 0x03u8 < 4 && (raw >> 6u8) & 0x03u8 < 4) by (bit_vector);
    }

    /// The address of the low pattern byte of tile column `tx` for the line.
    pub open spec fn bg_pattern_addr(self, sys: System, video: VideoSystem, tx: int) -> int {
        let tile_id = video.read_spec(sys.cassette, self.nametable_addr(sys, tx));
        bg_pattern_table(sys) + tile_id * 16 + self.current_line % 8
    }

    /// The background's palette entry at pixel `x` of the line; `None` where
    /// the left-end clipping hides it.
    pub open spec fn bg_pixel(self, sys: System, video: VideoSystem, x: int) -> Option<u8> {
        let tx = x / 8;
        let lower = video.read_spec(sys.cassette, self.bg_pattern_addr(sys, video, tx) as u16);
        let upper = video.read_spec(sys.cassette, (self.bg_pattern_addr(sys, video, tx) + 8) as u16);
        let addr = 0x3f00 + self.bg_palette_id(sys, video, tx) * 4 + pattern_bits(lower, upper, x % 8);
        if clip_bg(sys) && x < 8 {
            None
        } else {
            Some(video.read_spec(sys.cassette, addr as u16))
        }
    }

    /// The sprite shows at pixel `x` of the line.
    pub open spec fn sprite_covers(sys: System, s: Sprite, x: int) -> bool {
        !(clip_sprite(sys) && x < 8) && s.x <= x < s.x + 8
    }

    /// The sprite's row on the line (0 - 7, or 0 - 15 for 8 * 16 sprites).
    pub open spec fn sprite_row(self, s: Sprite) -> int {
        self.current_line - s.y - 1
    }

    /// The pattern table and tile of the sprite on the line: an 8 * 16
    /// sprite takes its upper or lower tile by the row, swapped when flipped.
    pub open spec fn sprite_tile(self, sys: System, s: Sprite) -> (u16, u8) {
        match s.tile_id {
            TileId::Normal { id } => (sprite_pattern_table(sys), id),
            TileId::Large { pattern_table_addr, upper_tile_id, lower_tile_id } => (
                pattern_table_addr,
                if (self.sprite_row(s) < 8) != s.attr.is_vert_flip { upper_tile_id } else { lower_tile_id },
            ),
        }
    }

    /// The address of the sprite's low pattern byte for the line.
    pub open spec fn sprite_pattern_addr(self, sys: System, s: Sprite) -> int {
        let row = self.sprite_row(s) % 8;
        let tile_row = if !s.attr.is_vert_flip { row } else { 7 - row };
        self.sprite_tile(sys, s).0 + self.sprite_tile(sys, s).1 * 16 + tile_row
    }

    /// The sprite's palette entry at pixel `x`.
    pub open spec fn sprite_color(self, sys: System, video: VideoSystem, s: Sprite, x: int) -> u8 {
        let col = if !s.attr.is_hor_flip { x - s.x } else { 7 - (x - s.x) };
        let lower = video.read_spec(sys.cassette, self.sprite_pattern_addr(sys, s) as u16);
        let upper = video.read_spec(sys.cassette, (self.sprite_pattern_addr(sys, s) + 8) as u16);
        let addr = 0x3f10 + s.attr.palette_id * 4 + pattern_bits(lower, upper, col);
        video.read_spec(sys.cassette, addr as u16)
    }

    /// A sprite that can show somewhere on the line lies on it within its
    /// height, and its pattern bytes can be read.
    pub open spec fn sprite_ok(self, sys: System, s: Sprite) -> bool {
        !(clip_sprite(sys) && s.x == 0) ==> {
            &&& s.y < self.current_line
            &&& self.sprite_row(s) < sprite_height_of(sys)
            &&& self.sprite_pattern_addr(sys, s) + 8 <= 0xffff
            &&& video_addr_ok(sys.cassette.nametable_mirror, self.sprite_pattern_addr(sys, s) as u16)
            &&& video_addr_ok(sys.cassette.nametable_mirror, (self.sprite_pattern_addr(sys, s) + 8) as u16)
        }
    }

    /// The sprite registers from `k` on, up to the first empty one, can be
    /// drawn.
    pub open spec fn sprites_ok_from(self, sys: System, k: int) -> bool
        decreases 8 - k,
    {
        if k < 0 || k >= 8 {
            true
        } else {
            match self.sprite_temps[k] {
                None => true,
                Some(s) => self.sprite_ok(sys, s) && self.sprites_ok_from(sys, k + 1),
            }
        }
    }

    /// The sprite layers (behind, in front of the background) at pixel `x`,
    /// scanning the registers from `k` up to the first empty one; a later
    /// sprite covers an earlier one.
    pub open spec fn sprite_scan(
        self,
        sys: System,
        video: VideoSystem,
        x: int,
        k: int,
        back: Option<u8>,
        front: Option<u8>,
    ) -> (Option<u8>, Option<u8>)
        decreases 8 - k,
    {
        if k < 0 || k >= 8 {
            (back, front)
        } else {
            match self.sprite_temps[k] {
                None => (back, front),
                Some(s) => if Ppu::sprite_covers(sys, s, x) {
                    if s.attr.is_draw_front {
                        self.sprite_scan(sys, video, x, k + 1, back, Some(self.sprite_color(sys, video, s, x)))
                    } else {
                        self.sprite_scan(sys, video, x, k + 1, Some(self.sprite_color(sys, video, s, x)), front)
                    }
                } else {
                    self.sprite_scan(sys, video, x, k + 1, back, front)
                },
            }
        }
    }

    /// The palette entry drawn at pixel `x`: a front sprite, else the
    /// background, else a back sprite; `None` where nothing shows.
    pub open spec fn pixel_palette(self, sys: System, video: VideoSystem, x: int) -> Option<u8> {
        let (back, front) = self.sprite_scan(sys, video, x, 0, None, None);
        let bg = self.bg_pixel(sys, video, x);
        if front is Some {
            front
        } else if bg is Some {
            bg
        } else {
            back
        }
    }

    /// The line can be drawn: it is visible, the name table and attribute
    /// bytes can be read, and so can the sprites.
    pub open spec fn draw_ok(self, sys: System, video: VideoSystem) -> bool {
        &&& self.current_line < 240
        &&& forall|tx: int|
            0 <= tx < 32 ==> video_addr_ok(sys.cassette.nametable_mirror, #[trigger] self.nametable_addr(sys, tx))
                && video_addr_ok(sys.cassette.nametable_mirror, self.attribute_addr(sys, tx))
        &&& self.sprites_ok_from(sys, 0)
    }

    /// `fb2` is `fb` with the line drawn: each pixel where something shows
    /// takes the RGB value of its palette entry; the rest is unchanged.
    pub open spec fn drawn(self, sys: System, video: VideoSystem, fb: FrameBuffer, fb2: FrameBuffer) -> bool {
        forall|y: int, x: int|
            0 <= y < 240 && 0 <= x < 256 ==> (#[trigger] fb2[y][x])@ == (if y == self.current_line
                && self.pixel_palette(sys, video, x) is Some {
                color_bytes(palette_color(self.pixel_palette(sys, video, x).unwrap() & 0x3fu8))
            } else {
                fb[y][x]@
            })
    }
}

impl Ppu {
    /// The background data of tile column `tile_base_x` on the line: its
    /// palette and its two pattern bytes.
    fn bg_tile(&self, system: &mut System, video_system: &VideoSystem, tile_base_x: u16) -> (r: (u8, u8, u8))
        requires
            tile_base_x < 32,
            self.current_line < 240,
            video_addr_ok(old(system).cassette.nametable_mirror, self.nametable_addr(*old(system), tile_base_x as int)),
            video_addr_ok(old(system).cassette.nametable_mirror, self.attribute_addr(*old(system), tile_base_x as int)),
        ensures
            *final(system) == *old(system),
            r.0 == self.bg_palette_id(*old(system), *video_system, tile_base_x as int),
            r.1 == video_system.read_spec(old(system).cassette, self.bg_pattern_addr(*old(system), *video_system, tile_base_x as int) as u16),
            r.2 == video_system.read_spec(old(system).cassette, (self.bg_pattern_addr(*old(system), *video_system, tile_base_x as int) + 8) as u16),
            self.bg_pattern_addr(*old(system), *video_system, tile_base_x as int) + 8 < 0x2000,
    {
        // the pixel row within the tile, and the tile row without scroll
        let offset_y = self.current_line % PIXEL_PER_TILE;
        let tile_base_y = self.current_line / PIXEL_PER_TILE;
        // the tile row with scroll, among two name tables stacked vertically
        let tile_global_y = (tile_base_y + self.current_scroll_y as u16) % (SCREEN_TILE_HEIGHT * 2);
        let tile_local_y = tile_global_y % SCREEN_TILE_HEIGHT;
        // false when the lower name tables are reached
        let is_nametable_position_top = tile_global_y < SCREEN_TILE_HEIGHT;
        let tile_global_x = (tile_base_x + self.current_scroll_x as u16) % (SCREEN_TILE_WIDTH * 2);
        let tile_local_x = tile_global_x % SCREEN_TILE_WIDTH;
        // false when the right name tables are reached
        let is_nametable_position_left = tile_global_x < SCREEN_TILE_WIDTH;
        // the base of the name table (of the four) that the tile falls in
        let target_nametable_base_addr = system.read_ppu_name_table_base_addr() + (if is_nametable_position_left {
            0x0000u16
        } else {
            0x0400u16
        }) + (if is_nametable_position_top { 0x0000u16 } else { 0x0800u16 });
        // the attribute table follows the name table
        let attribute_addr = target_nametable_base_addr + ATTRIBUTE_TABLE_OFFSET;
        let nametable_addr = target_nametable_base_addr + (tile_local_y * SCREEN_TILE_WIDTH) + tile_local_x;
        // the attribute selects the background palette
        let raw_attribute = video_system.read_u8(&mut system.cassette, attribute_addr);
        let bg_palette_id = if tile_local_x % 2 == 0 && tile_local_y % 2 == 0 {
            raw_attribute & 0x03u8  // top left
        } else if tile_local_x % 2 == 1 && tile_local_y % 2 == 0 {
            (raw_attribute >> 2u8) & 0x03u8  // top right
        } else if tile_local_x % 2 == 0 && tile_local_y % 2 == 1 {
            (raw_attribute >> 4u8) & 0x03u8  // bottom left
        } else {
            (raw_attribute >> 6u8) & 0x03u8  // bottom right
        };
        // the tile id from the name table, then its pattern bytes for the row
        let bg_tile_id = video_system.read_u8(&mut system.cassette, nametable_addr) as u16;
        let bg_pattern_table_base_addr = system.read_ppu_bg_pattern_table_addr() + (bg_tile_id
            * PATTERN_TABLE_ENTRY_BYTE);
        let bg_pattern_table_addr_lower = bg_pattern_table_base_addr + offset_y;
        let bg_pattern_table_addr_upper = bg_pattern_table_addr_lower + 8;
        let bg_data_lower = video_system.read_u8(&mut system.cassette, bg_pattern_table_addr_lower);
        let bg_data_upper = video_system.read_u8(&mut system.cassette, bg_pattern_table_addr_upper);
        (bg_palette_id, bg_data_lower, bg_data_upper)
    }

    /// The address of the sprite's low pattern byte for the line.
    fn sprite_pattern_addr_exec(&self, system: &System, sprite: Sprite) -> (addr: u16)
        requires
            self.sprite_ok(*system, sprite),
            !(clip_sprite(*system) && sprite.x == 0),
        ensures
            addr == self.sprite_pattern_addr(*system, sprite),
    {
        let sprite_y = sprite.y as usize;
        let pixel_y = self.current_line as usize;
        let sprite_offset_y: usize = pixel_y - sprite_y - 1;  // 0-7, or 0-15 for 8 * 16
        // the pattern table and the tile
        let (sprite_pattern_table_addr, sprite_tile_id): (u16, u8) = match sprite.tile_id {
            TileId::Normal { id } => (system.read_ppu_sprite_pattern_table_addr(), id),
            // an 8 * 16 sprite has its upper and lower tiles
            TileId::Large { pattern_table_addr, upper_tile_id, lower_tile_id } => {
                let is_upper = sprite_offset_y < SPRITE_NORMAL_HEIGHT;
                let is_vflip = sprite.attr.is_vert_flip;
                let id = if is_upper != is_vflip { upper_tile_id } else { lower_tile_id };
                (pattern_table_addr, id)
            },
        };
        // the row on the tile, flipped as the attributes say
        let tile_offset_y: usize = if !sprite.attr.is_vert_flip {
            sprite_offset_y % SPRITE_NORMAL_HEIGHT
        } else {
            SPRITE_NORMAL_HEIGHT - 1 - (sprite_offset_y % SPRITE_NORMAL_HEIGHT)
        };
        let sprite_pattern_table_base_addr = sprite_pattern_table_addr + (sprite_tile_id as u16
            * PATTERN_TABLE_ENTRY_BYTE);
        sprite_pattern_table_base_addr + (tile_offset_y as u16)
    }

    /// The palette entry of the sprite at pixel `pixel_x` of the line, where
    /// it shows there.
    fn sprite_pixel(&self, system: &mut System, video_system: &VideoSystem, sprite: Sprite, pixel_x: usize) -> (r: Option<u8>)
        requires
            pixel_x < 256,
            self.sprite_ok(*old(system), sprite),
        ensures
            *final(system) == *old(system),
            r == if Ppu::sprite_covers(*old(system), sprite, pixel_x as int) {
                Some(self.sprite_color(*old(system), *video_system, sprite, pixel_x as int))
            } else {
                None
            },
    {
        let sprite_x = sprite.x as usize;
        // hidden by the left-end clipping
        let is_sprite_clipping = system.read_ppu_is_clip_sprite_leftend() && (pixel_x < 8);
        if !is_sprite_clipping && (sprite_x <= pixel_x) && (pixel_x < sprite_x + SPRITE_WIDTH) {
            // the column on the sprite, then on the tile
            let sprite_offset_x: usize = pixel_x - sprite_x;  // 0-7
            let tile_offset_x: usize = if !sprite.attr.is_hor_flip {
                sprite_offset_x
            } else {
                SPRITE_WIDTH - 1 - sprite_offset_x
            };
            let sprite_pattern_table_addr_lower = self.sprite_pattern_addr_exec(system, sprite);
            let sprite_pattern_table_addr_upper = sprite_pattern_table_addr_lower + 8;
            let sprite_data_lower = video_system.read_u8(&mut system.cassette, sprite_pattern_table_addr_lower);
            let sprite_data_upper = video_system.read_u8(&mut system.cassette, sprite_pattern_table_addr_upper);
            // the pixel's value in the pattern
            let shift = (7 - tile_offset_x) as u8;
            let sprite_palette_offset = (((sprite_data_upper >> shift) & 0x01u8) << 1u8) | ((sprite_data_lower
                >> shift) & 0x01u8);
            // the palette address: 0x3f10 + palette * 4 + value
            let sprite_palette_addr = (PALETTE_TABLE_BASE_ADDR + PALETTE_SPRITE_OFFSET) + (sprite.attr.palette_id as u16
                * PALETTE_ENTRY_SIZE) + (sprite_palette_offset as u16);
            Some(video_system.read_u8(&mut system.cassette, sprite_palette_addr))
        } else {
            None
        }
    }

    /// The sprite layers (behind, in front) at pixel `pixel_x` of the line.
    fn sprite_layers(&self, system: &mut System, video_system: &VideoSystem, pixel_x: usize) -> (r: (Option<u8>, Option<u8>))
        requires
            pixel_x < 256,
            self.sprites_ok_from(*old(system), 0),
        ensures
            *final(system) == *old(system),
            r == self.sprite_scan(*old(system), *video_system, pixel_x as int, 0, None, None),
    {
        let ghost sys0 = *system;
        let mut sprite_palette_data_back: Option<u8> = None;
        let mut sprite_palette_data_front: Option<u8> = None;
        let mut sprite_index: usize = 0;
        while sprite_index < SPRITE_TEMP_SIZE
            invariant_except_break
                0 <= sprite_index <= 8,
                pixel_x < 256,
                *system == sys0,
                self.sprites_ok_from(sys0, sprite_index as int),
                self.sprite_scan(sys0, *video_system, pixel_x as int, sprite_index as int, sprite_palette_data_back, sprite_palette_data_front)
                    == self.sprite_scan(sys0, *video_system, pixel_x as int, 0, None, None),
            ensures
                *system == sys0,
                (sprite_palette_data_back, sprite_palette_data_front) == self.sprite_scan(sys0, *video_system, pixel_x as int, 0, None, None),
            decreases 8 - sprite_index,
        {
            if let Some(sprite) = self.sprite_temps[sprite_index] {
                if let Some(sprite_palette_data) = self.sprite_pixel(system, video_system, sprite, pixel_x) {
                    // the attribute says which side of the background it goes to
                    if sprite.attr.is_draw_front {
                        sprite_palette_data_front = Some(sprite_palette_data);
                    } else {
                        sprite_palette_data_back = Some(sprite_palette_data);
                    }
                }
            } else {
                // the registers are packed at the front: nothing more to do
                break;
            }
            sprite_index = sprite_index + 1;
        }
        (sprite_palette_data_back, sprite_palette_data_front)
    }
}

impl Ppu {
    /// Draws pixel `tile_base_x * 8 + i` of the line from the background data
    /// of its tile column and the sprites.
    #[verifier::rlimit(40)]
    fn draw_pixel(
        &self,
        system: &mut System,
        video_system: &VideoSystem,
        fb: &mut FrameBuffer,
        tile_base_x: u16,
        i: u16,
        bg_palette_id: u8,
        bg_data_lower: u8,
        bg_data_upper: u8,
    )
        requires
            tile_base_x < 32,
            i < 8,
            self.draw_ok(*old(system), *video_system),
            bg_palette_id == self.bg_palette_id(*old(system), *video_system, tile_base_x as int),
            bg_data_lower == video_system.read_spec(old(system).cassette, self.bg_pattern_addr(*old(system), *video_system, tile_base_x as int) as u16),
            bg_data_upper == video_system.read_spec(old(system).cassette, (self.bg_pattern_addr(*old(system), *video_system, tile_base_x as int) + 8) as u16),
        ensures
            *final(system) == *old(system),
            ({
                let x = tile_base_x * 8 + i;
                let y = self.current_line as int;
                let pal = self.pixel_palette(*old(system), *video_system, x);
                &&& pal is Some ==> final(fb)[y][x]@ == color_bytes(palette_color(pal.unwrap() & 0x3fu8))
                &&& forall|yy: int, xx: int|
                    0 <= yy < 240 && 0 <= xx < 256 && !(yy == y && xx == x) ==> #[trigger] final(fb)[yy][xx]
                        == old(fb)[yy][xx]
                &&& pal is None ==> *final(fb) == *old(fb)
            }),
    {
        let ghost sys0 = *system;
        // the position on the screen
        let pixel_x = (tile_base_x * PIXEL_PER_TILE + i) as usize;
        let pixel_y = self.current_line as usize;
        // the background
        let shift = (7 - i) as u8;
        let bg_palette_offset = (((bg_data_upper >> shift) & 0x01u8) << 1u8) | ((bg_data_lower >> shift) & 0x01u8);
        // 0x3f00 + palette * 4 + value
        let bg_palette_addr = (PALETTE_TABLE_BASE_ADDR + PALETTE_BG_OFFSET) + (bg_palette_id as u16 * PALETTE_ENTRY_SIZE)
            + (bg_palette_offset as u16);
        // the background's left-end clipping
        let is_bg_clipping = system.read_ppu_is_clip_bg_leftend() && (pixel_x < 8);
        let bg_palette_data: Option<u8> = if is_bg_clipping {
            None
        } else {
            Some(video_system.read_u8(&mut system.cassette, bg_palette_addr))
        };
        proof {
            assert(pixel_x as int / 8 == tile_base_x as int);
            assert(pixel_x as int % 8 == i as int);
            assert(bg_palette_data == self.bg_pixel(sys0, *video_system, pixel_x as int));
        }
        // the sprites (those of the line were loaded beforehand)
        let (sprite_palette_data_back, sprite_palette_data_front) = self.sprite_layers(system, video_system, pixel_x);
        // the layers in order: back sprite, background, front sprite
        let top = if sprite_palette_data_front.is_some() {
            sprite_palette_data_front
        } else if bg_palette_data.is_some() {
            bg_palette_data
        } else {
            sprite_palette_data_back
        };
        if let Some(color_index) = top {
            let c = Color::from(color_index);
            fb[pixel_y][pixel_x] = [c.0, c.1, c.2];
            proof {
                assert(fb[pixel_y as int][pixel_x as int]@ =~= color_bytes(c));
            }
        }
    }

    /// Draws the line into the frame buffer.
    /// `tile_base_x`: the tile column without scroll; the scrolled one
    /// picks the name table (of the four) and the position in it.
    fn draw(&mut self, system: &mut System, video_system: &mut VideoSystem, fb: &mut FrameBuffer)
        requires
            old(self).draw_ok(*old(system), *old(video_system)),
        ensures
            *final(self) == *old(self),
            *final(system) == *old(system),
            *final(video_system) == *old(video_system),
            old(self).drawn(*old(system), *old(video_system), *old(fb), *final(fb)),
    {
        let ghost sys0 = *system;
        let ghost fb0 = *fb;
        let mut tile_base_x: u16 = 0;
        while tile_base_x < SCREEN_TILE_WIDTH
            invariant
                0 <= tile_base_x <= 32,
                *system == sys0,
                self.draw_ok(sys0, *video_system),
                forall|y: int, x: int|
                    0 <= y < 240 && 0 <= x < 256 ==> (#[trigger] fb[y][x])@ == (if y == self.current_line && x
                        < tile_base_x * 8 && self.pixel_palette(sys0, *video_system, x) is Some {
                        color_bytes(palette_color(self.pixel_palette(sys0, *video_system, x).unwrap() & 0x3fu8))
                    } else {
                        fb0[y][x]@
                    }),
            decreases 32 - tile_base_x,
        {
            proof {
                assert(video_addr_ok(sys0.cassette.nametable_mirror, self.nametable_addr(sys0, tile_base_x as int)));
            }
            let (bg_palette_id, bg_data_lower, bg_data_upper) = self.bg_tile(system, video_system, tile_base_x);
            let mut i: u16 = 0;
            while i < PIXEL_PER_TILE
                invariant
                    0 <= i <= 8,
                    tile_base_x < 32,
                    *system == sys0,
                    self.draw_ok(sys0, *video_system),
                    bg_palette_id == self.bg_palette_id(sys0, *video_system, tile_base_x as int),
                    bg_data_lower == video_system.read_spec(sys0.cassette, self.bg_pattern_addr(sys0, *video_system, tile_base_x as int) as u16),
                    bg_data_upper == video_system.read_spec(sys0.cassette, (self.bg_pattern_addr(sys0, *video_system, tile_base_x as int) + 8) as u16),
                    forall|y: int, x: int|
                        0 <= y < 240 && 0 <= x < 256 ==> (#[trigger] fb[y][x])@ == (if y == self.current_line
                            && x < tile_base_x * 8 + i && self.pixel_palette(sys0, *video_system, x) is Some {
                            color_bytes(palette_color(self.pixel_palette(sys0, *video_system, x).unwrap() & 0x3fu8))
                        } else {
                            fb0[y][x]@
                        }),
                decreases 8 - i,
            {
                let ghost fb1 = *fb;
                self.draw_pixel(system, video_system, fb, tile_base_x, i, bg_palette_id, bg_data_lower, bg_data_upper);
                proof {
                    let cx = tile_base_x * 8 + i;
                    assert forall|y: int, x: int| 0 <= y < 240 && 0 <= x < 256 implies (#[trigger] fb[y][x])@ == (if y
                        == self.current_line && x < cx + 1 && self.pixel_palette(sys0, *video_system, x) is Some {
                        color_bytes(palette_color(self.pixel_palette(sys0, *video_system, x).unwrap() & 0x3fu8))
                    } else {
                        fb0[y][x]@
                    }) by {
                        assert(fb1[y][x]@ == (if y == self.current_line && x < cx && self.pixel_palette(sys0, *video_system, x) is Some {
                            color_bytes(palette_color(self.pixel_palette(sys0, *video_system, x).unwrap() & 0x3fu8))
                        } else {
                            fb0[y][x]@
                        }));
                    }
                }
                i = i + 1;
            }
            tile_base_x = tile_base_x + 1;
        }
    }
}

impl Ppu {
    /// The PPU and the bus after the setup of a line: the scroll values are
    /// taken over, a running DMA is finished, and a newly requested DMA is
    /// started (its OAM destination taken from OAM_ADDR); `None` where a DMA
    /// cannot run.
    pub open spec fn line_setup_spec(self, sys: System) -> Option<(Ppu, System)> {
        let p1 = Ppu { current_scroll_x: self.fetch_scroll_x, current_scroll_y: self.fetch_scroll_y, ..self };
        let r2 = if p1.is_dma_running {
            if p1.run_dma_ok(sys, false) {
                Some(p1.run_dma_spec(sys, false))
            } else {
                None
            }
        } else {
            Some((p1, sys))
        };
        match r2 {
            None => None,
            Some((p2, s2)) => {
                let ((is_dma_req, dma_cpu_src_addr), s3) = s2.read_oam_dma_spec();
                if is_dma_req {
                    let p3 = Ppu { dma_cpu_src_addr: dma_cpu_src_addr, dma_oam_dst_addr: s3.ppu_reg[3], ..p2 };
                    if p3.run_dma_ok(s3, true) {
                        Some(p3.run_dma_spec(s3, true))
                    } else {
                        None
                    }
                } else {
                    Some((p2, s3))
                }
            },
        }
    }

    /// The PPU and the bus that draw the line, when it is visible: after the
    /// setup and the sprite fetch.
    pub open spec fn line_draw_state(self, sys: System) -> Option<(Ppu, System)> {
        match self.line_setup_spec(sys) {
            None => None,
            Some((p4, s4)) => if self.current_line < 240 {
                Some(p4.fetch_sprite_spec(s4))
            } else {
                None
            },
        }
    }

    /// One line: the setup, then by the line number a visible line fetches
    /// its sprites and is drawn; line 241 sets the VBLANK flag; on lines 241
    /// to 260 an NMI is raised while NMI is enabled and the VBLANK flag set;
    /// line 261 clears the VBLANK flag. Then the line counter advances,
    /// wrapping after 261. `None` where the line cannot be processed: a DMA
    /// read that the bus does not answer, a line that cannot be drawn, an
    /// NMI that cannot be taken, or a line number past 261.
    pub open spec fn update_line_spec(self, cpu: Cpu, sys: System, video: VideoSystem) -> Option<(Ppu, Cpu, System)> {
        let line = self.current_line;
        let next_line = ((line + 1) % 262) as u16;
        match self.line_setup_spec(sys) {
            None => None,
            Some((p4, s4)) => if line < 240 {
                let (p5, s5) = p4.fetch_sprite_spec(s4);
                if p5.draw_ok(s5, video) {
                    Some((Ppu { current_line: next_line, ..p5 }, cpu, s5))
                } else {
                    None
                }
            } else if line == 240 {
                Some((Ppu { current_line: next_line, ..p4 }, cpu, s4))
            } else if line < 261 {
                let s5 = if line == 241 {
                    s4.with_ppu_reg(2, flag_update(s4.ppu_reg[2], 0x80, true))
                } else {
                    s4
                };
                if s5.ppu_reg[0] & 0x80u8 == 0x80u8 && s5.ppu_reg[2] & 0x80u8 == 0x80u8 {
                    if cpu.interrupt_ok(s5, Interrupt::NMI) {
                        let (c6, s6) = cpu.interrupt_spec(s5, Interrupt::NMI);
                        Some((Ppu { current_line: next_line, ..p4 }, c6, s6))
                    } else {
                        None
                    }
                } else {
                    Some((Ppu { current_line: next_line, ..p4 }, cpu, s5))
                }
            } else if line == 261 {
                Some((Ppu { current_line: next_line, ..p4 }, cpu, s4.with_ppu_reg(2, flag_update(s4.ppu_reg[2], 0x80, false))))
            } else {
                None
            },
        }
    }

    /// The state just before a step's line update, and whether the step
    /// completes a line: the scroll registers are latched, a pending PPU_DATA
    /// write or read is served through the video bus (advancing PPU_ADDR), a
    /// pending OAM_DATA write or read is served, and the CPU cycles are
    /// added (a line every 113). `None` where a PPU_DATA access has no
    /// video memory behind it or the cycle count overflows.
    pub open spec fn step_pre_line(self, cpu_cyc: usize, sys: System, video: VideoSystem) -> Option<(Ppu, System, VideoSystem, bool)> {
        let ((_, scroll_x, scroll_y), s1) = sys.read_ppu_scroll_spec();
        let p1 = Ppu { fetch_scroll_x: scroll_x, fetch_scroll_y: scroll_y, ..self };
        let ((_, ppu_addr), s2) = s1.read_ppu_addr_spec();
        let ((is_read_ppu_req, is_write_ppu_req, ppu_data), s3) = s2.read_ppu_data_spec();
        if (is_write_ppu_req || is_read_ppu_req) && !video_addr_ok(s3.cassette.nametable_mirror, ppu_addr) {
            None
        } else if self.cumulative_cpu_cyc + cpu_cyc > usize::MAX {
            None
        } else {
            let (v4, s4) = if is_write_ppu_req {
                let (v, c) = video.write_spec(s3.cassette, ppu_addr, ppu_data);
                (v, System { cassette: c, ..s3 }.increment_ppu_addr_spec())
            } else {
                (video, s3)
            };
            let s5 = if is_read_ppu_req {
                s4.with_ppu_reg(7, v4.read_spec(s4.cassette, ppu_addr)).increment_ppu_addr_spec()
            } else {
                s4
            };
            let oam_addr = s5.ppu_reg[3];
            let ((is_read_oam_req, is_write_oam_req, oam_data), s6) = s5.read_oam_data_spec();
            let p6 = if is_write_oam_req {
                Ppu { oam: vstd::array::spec_array_update(p1.oam, oam_addr as int, oam_data), ..p1 }
            } else {
                p1
            };
            let s7 = if is_read_oam_req { s6.with_ppu_reg(4, p6.oam[oam_addr as int]) } else { s6 };
            let total_cyc = self.cumulative_cpu_cyc + cpu_cyc;
            Some((Ppu { cumulative_cpu_cyc: (total_cyc % 113) as usize, ..p6 }, s7, v4, total_cyc >= 113))
        }
    }

    /// One step of the PPU; `None` where it cannot be carried out.
    pub open spec fn step_spec(self, cpu_cyc: usize, cpu: Cpu, sys: System, video: VideoSystem) -> Option<(Ppu, Cpu, System, VideoSystem)> {
        match self.step_pre_line(cpu_cyc, sys, video) {
            None => None,
            Some((p, s, v, is_line)) => if is_line {
                match p.update_line_spec(cpu, s, v) {
                    None => None,
                    Some((p2, c2, s2)) => Some((p2, c2, s2, v)),
                }
            } else {
                Some((p, cpu, s, v))
            },
        }
    }

    /// The frame buffer after a step: the line drawn when the step completes
    /// a visible line, otherwise unchanged.
    pub open spec fn step_fb(self, cpu_cyc: usize, sys: System, video: VideoSystem, fb: FrameBuffer, fb2: FrameBuffer) -> bool {
        match self.step_pre_line(cpu_cyc, sys, video) {
            Some((p, s, v, true)) => match p.line_draw_state(s) {
                Some((p5, s5)) => p5.drawn(s5, v, fb, fb2),
                None => fb2 == fb,
            },
            _ => fb2 == fb,
        }
    }
}

/// The video bus answers the address (checked).
fn video_addr_checked(mirror: crate::nes::cassette::NameTableMirror, addr: u16) -> (r: bool)
    ensures
        r == video_addr_ok(mirror, addr),
{
    if addr < 0x2000 || addr >= 0x3f00 {
        true
    } else {
        let a = if addr < 0x3000 { addr } else { addr - 0x1000 };
        match mirror {
            crate::nes::cassette::NameTableMirror::FourScreen => (a - 0x2000) / 0x400 < 4,
            _ => true,
        }
    }
}

/// The CPU can take an NMI: there is room for its three pushes and the
/// cartridge answers the vector (checked).
fn nmi_check(cpu: &Cpu, system: &System) -> (r: bool)
    ensures
        r == cpu.interrupt_ok(*system, Interrupt::NMI),
{
    cpu.can_interrupt(system, Interrupt::NMI)
}

impl Ppu {
    /// The name table and attribute addresses of tile column `tile_base_x`.
    fn tile_addrs(&self, system: &System, tile_base_x: u16) -> (r: (u16, u16))
        requires
            tile_base_x < 32,
            self.current_line < 240,
        ensures
            r.0 == self.nametable_addr(*system, tile_base_x as int),
            r.1 == self.attribute_addr(*system, tile_base_x as int),
    {
        let tile_base_y = self.current_line / PIXEL_PER_TILE;
        let tile_global_y = (tile_base_y + self.current_scroll_y as u16) % (SCREEN_TILE_HEIGHT * 2);
        let tile_local_y = tile_global_y % SCREEN_TILE_HEIGHT;
        let is_nametable_position_top = tile_global_y < SCREEN_TILE_HEIGHT;
        let tile_global_x = (tile_base_x + self.current_scroll_x as u16) % (SCREEN_TILE_WIDTH * 2);
        let tile_local_x = tile_global_x % SCREEN_TILE_WIDTH;
        let is_nametable_position_left = tile_global_x < SCREEN_TILE_WIDTH;
        let target_nametable_base_addr = system.read_ppu_name_table_base_addr() + (if is_nametable_position_left {
            0x0000u16
        } else {
            0x0400u16
        }) + (if is_nametable_position_top { 0x0000u16 } else { 0x0800u16 });
        (target_nametable_base_addr + (tile_local_y * SCREEN_TILE_WIDTH) + tile_local_x, target_nametable_base_addr
            + ATTRIBUTE_TABLE_OFFSET)
    }

    /// Whether a DMA half can run (checked).
    fn dma_check(&self, system: &System, is_pre_transfer: bool) -> (r: bool)
        ensures
            r == self.run_dma_ok(*system, is_pre_transfer),
    {
        if !((!self.is_dma_running && is_pre_transfer) || (self.is_dma_running && !is_pre_transfer)) {
            return false;
        }
        if (self.dma_cpu_src_addr & 0x00ffu16) != 0 {
            return false;
        }
        let start_offset: u8 = if is_pre_transfer { 0 } else { OAM_DMA_COPY_SIZE_PER_PPU_STEP };
        let cpu_start_addr: u16 = self.dma_cpu_src_addr.wrapping_add(start_offset as u16);
        proof {
            crate::cpu_instruction::lemma_wrapping_add_u16(self.dma_cpu_src_addr, start_offset as u16);
        }
        let transfer_size: u16 = if is_pre_transfer { 0xaa } else { 0x56 };
        let mut offset: u16 = 0;
        while offset < transfer_size
            invariant
                0 <= offset <= transfer_size,
                transfer_size == Ppu::dma_size(is_pre_transfer),
                cpu_start_addr == self.dma_cpu_start(is_pre_transfer),
                forall|k: int| 0 <= k < offset ==> #[trigger] system.addr_ok(((cpu_start_addr + k) % 0x10000) as u16),
            decreases transfer_size - offset,
        {
            proof {
                crate::cpu_instruction::lemma_wrapping_add_u16(cpu_start_addr, offset);
            }
            if !system.is_addr_ok(cpu_start_addr.wrapping_add(offset)) {
                return false;
            }
            offset = offset + 1;
        }
        true
    }

    /// Whether a sprite can be drawn (checked).
    fn sprite_check(&self, system: &System, sprite: Sprite) -> (r: bool)
        requires
            self.current_line < 240,
        ensures
            r == self.sprite_ok(*system, sprite),
    {
        if system.read_ppu_is_clip_sprite_leftend() && sprite.x == 0 {
            return true;
        }
        if !((sprite.y as u16) < self.current_line) {
            return false;
        }
        let sprite_offset_y = self.current_line - (sprite.y as u16) - 1;
        if sprite_offset_y >= system.read_ppu_sprite_height() as u16 {
            return false;
        }
        let (sprite_pattern_table_addr, sprite_tile_id): (u16, u8) = match sprite.tile_id {
            TileId::Normal { id } => (system.read_ppu_sprite_pattern_table_addr(), id),
            TileId::Large { pattern_table_addr, upper_tile_id, lower_tile_id } => {
                let is_upper = sprite_offset_y < (SPRITE_NORMAL_HEIGHT as u16);
                let id = if is_upper != sprite.attr.is_vert_flip { upper_tile_id } else { lower_tile_id };
                (pattern_table_addr, id)
            },
        };
        let tile_offset_y: u32 = if !sprite.attr.is_vert_flip {
            (sprite_offset_y % 8) as u32
        } else {
            (7 - (sprite_offset_y % 8)) as u32
        };
        let lower: u32 = (sprite_pattern_table_addr as u32) + (sprite_tile_id as u32) * 16 + tile_offset_y;
        if lower + 8 > 0xffff {
            return false;
        }
        video_addr_checked(system.cassette.nametable_mirror, lower as u16) && video_addr_checked(
            system.cassette.nametable_mirror,
            (lower + 8) as u16,
        )
    }

    /// Whether the line can be drawn (checked).
    fn draw_check(&self, system: &System, video_system: &VideoSystem) -> (r: bool)
        ensures
            r == self.draw_ok(*system, *video_system),
    {
        if self.current_line >= 240 {
            return false;
        }
        let mut tile_base_x: u16 = 0;
        while tile_base_x < SCREEN_TILE_WIDTH
            invariant
                0 <= tile_base_x <= 32,
                self.current_line < 240,
                forall|tx: int|
                    0 <= tx < tile_base_x ==> video_addr_ok(system.cassette.nametable_mirror, #[trigger] self.nametable_addr(*system, tx))
                        && video_addr_ok(system.cassette.nametable_mirror, self.attribute_addr(*system, tx)),
            decreases 32 - tile_base_x,
        {
            let (nametable_addr, attribute_addr) = self.tile_addrs(system, tile_base_x);
            if !video_addr_checked(system.cassette.nametable_mirror, nametable_addr) || !video_addr_checked(
                system.cassette.nametable_mirror,
                attribute_addr,
            ) {
                return false;
            }
            tile_base_x = tile_base_x + 1;
        }
        let mut k: usize = 8;
        let mut is_ok = true;
        // from the last register down, so that each step adds one register
        while k > 0
            invariant
                0 <= k <= 8,
                self.current_line < 240,
                is_ok == self.sprites_ok_from(*system, k as int),
            decreases k,
        {
            k = k - 1;
            match self.sprite_temps[k] {
                None => {
                    is_ok = true;
                },
                Some(s) => {
                    is_ok = is_ok && self.sprite_check(system, s);
                },
            }
        }
        is_ok
    }

    /// Processes one line; returns false where the line cannot be processed
    /// (see `update_line_spec`), and then the state is not meaningful. To be called once 113 CPU
    /// cycles have gathered.
    fn update_line(&mut self, cpu: &mut Cpu, system: &mut System, video_system: &mut VideoSystem, fb: &mut FrameBuffer) -> (ok: bool)
        ensures
            ok == old(self).update_line_spec(*old(cpu), *old(system), *old(video_system)) is Some,
            ok ==> Some((*final(self), *final(cpu), *final(system))) == old(self).update_line_spec(
                *old(cpu),
                *old(system),
                *old(video_system),
            ),
            ok ==> *final(video_system) == *old(video_system),
            ok ==> match old(self).line_draw_state(*old(system)) {
                Some((p5, s5)) => p5.drawn(s5, *old(video_system), *old(fb), *final(fb)),
                None => *final(fb) == *old(fb),
            },
    {
        // the scroll values for this line
        self.current_scroll_x = self.fetch_scroll_x;
        self.current_scroll_y = self.fetch_scroll_y;
        // OAM DMA: finish the running one
        if self.is_dma_running {
            if !self.dma_check(system, false) {
                return false;
            }
            self.run_dma(system, false);
        }
        let (is_dma_req, dma_cpu_src_addr) = system.read_oam_dma();
        if is_dma_req {
            // set up the new DMA and start it
            self.dma_cpu_src_addr = dma_cpu_src_addr;
            self.dma_oam_dst_addr = system.read_ppu_oam_addr();
            if !self.dma_check(system, true) {
                return false;
            }
            self.run_dma(system, true);
        }
        if self.current_line >= RENDER_SCREEN_HEIGHT {
            return false;
        }
        match LineStatus::from(self.current_line) {
            LineStatus::Visible => {
                // the sprites, then the line itself
                self.fetch_sprite(system);
                if !self.draw_check(system, video_system) {
                    return false;
                }
                self.draw(system, video_system, fb);
            },
            LineStatus::PostRender => {},
            LineStatus::VerticalBlanking(is_first) => {
                if is_first {
                    system.write_ppu_is_vblank(true);
                }
                // NMI while the VBLANK flag is set (reading $2002 clears it)
                if system.read_ppu_nmi_enable() && system.read_ppu_is_vblank() {
                    if !nmi_check(cpu, system) {
                        return false;
                    }
                    cpu.interrupt(system, Interrupt::NMI);
                }
            },
            LineStatus::PreRender => {
                // clear the VBLANK flag
                system.write_ppu_is_vblank(false);
            },
        }
        // advance the line counter
        self.current_line = (self.current_line + 1) % RENDER_SCREEN_HEIGHT;
        true
    }

    /// The work of a step before its line update: latches the scroll,
    /// serves the CPU's PPU_DATA and OAM_DATA requests and counts the
    /// cycles. Returns whether a line is due, or `None` where the step
    /// cannot go on.
    fn step_pre_line_exec(&mut self, cpu_cyc: usize, system: &mut System, video_system: &mut VideoSystem) -> (r: Option<bool>)
        ensures
            match old(self).step_pre_line(cpu_cyc, *old(system), *old(video_system)) {
                None => r is None,
                Some((p, s, v, is_line)) => r == Some(is_line) && *final(self) == p && *final(system) == s
                    && *final(video_system) == v,
            },
    {
        // PPU_SCROLL
        let (_, scroll_x, scroll_y) = system.read_ppu_scroll();
        self.fetch_scroll_x = scroll_x;
        self.fetch_scroll_y = scroll_y;
        // serve PPU_ADDR / PPU_DATA
        let (_, ppu_addr) = system.read_ppu_addr();
        let (is_read_ppu_req, is_write_ppu_req, ppu_data) = system.read_ppu_data();
        if (is_write_ppu_req || is_read_ppu_req) && !video_addr_checked(system.cassette.nametable_mirror, ppu_addr) {
            return None;
        }
        if cpu_cyc > usize::MAX - self.cumulative_cpu_cyc {
            return None;
        }
        if is_write_ppu_req {
            video_system.write_u8(&mut system.cassette, ppu_addr, ppu_data);
            system.increment_ppu_addr();
        }
        if is_read_ppu_req {
            let data = video_system.read_u8(&mut system.cassette, ppu_addr);
            system.write_ppu_data(data);
            system.increment_ppu_addr();
        }
        self.serve_oam(system);
        // a line every 113 cycles
        let total_cyc = self.cumulative_cpu_cyc + cpu_cyc;
        self.cumulative_cpu_cyc = total_cyc % CPU_CYCLE_PER_LINE;
        Some(total_cyc >= CPU_CYCLE_PER_LINE)
    }

    /// Serves the CPU's OAM_DATA write or read (mostly done by DMA instead).
    fn serve_oam(&mut self, system: &mut System)
        ensures
            ({
                let oam_addr = old(system).ppu_reg[3];
                let ((is_read_oam_req, is_write_oam_req, oam_data), s6) = old(system).read_oam_data_spec();
                let p6 = if is_write_oam_req {
                    Ppu { oam: vstd::array::spec_array_update(old(self).oam, oam_addr as int, oam_data), ..*old(self) }
                } else {
                    *old(self)
                };
                &&& *final(self) == p6
                &&& *final(system) == if is_read_oam_req { s6.with_ppu_reg(4, p6.oam[oam_addr as int]) } else { s6 }
            }),
    {
        let oam_addr = system.read_ppu_oam_addr();
        let (is_read_oam_req, is_write_oam_req, oam_data) = system.read_oam_data();
        if is_write_oam_req {
            self.oam[oam_addr as usize] = oam_data;
            proof {
                assert(self.oam =~= vstd::array::spec_array_update(old(self).oam, oam_addr as int, oam_data));
            }
        }
        if is_read_oam_req {
            let data = self.oam[oam_addr as usize];
            system.write_oam_data(data);
        }
    }

    /// Runs the PPU for the CPU cycles of one CPU step, serving the CPU's
    /// PPU_DATA and OAM_DATA requests; every 113 cycles a line is processed
    /// (which may raise an NMI on the CPU and draws visible lines into
    /// `fb`). Returns false where the step cannot be carried out (see
    /// `step_spec`), and then the state is not meaningful.
    pub fn try_step(
        &mut self,
        cpu_cyc: usize,
        cpu: &mut Cpu,
        system: &mut System,
        video_system: &mut VideoSystem,
        fb: &mut FrameBuffer,
    ) -> (ok: bool)
        ensures
            ok == old(self).step_spec(cpu_cyc, *old(cpu), *old(system), *old(video_system)) is Some,
            ok ==> Some((*final(self), *final(cpu), *final(system), *final(video_system))) == old(self).step_spec(
                cpu_cyc,
                *old(cpu),
                *old(system),
                *old(video_system),
            ),
            ok ==> old(self).step_fb(cpu_cyc, *old(system), *old(video_system), *old(fb), *final(fb)),
    {
        match self.step_pre_line_exec(cpu_cyc, system, video_system) {
            None => false,
            Some(is_line) => {
                if is_line {
                    self.update_line(cpu, system, video_system, fb)
                } else {
                    true
                }
            },
        }
    }

    /// Runs the PPU for the CPU cycles of one CPU step (see `try_step`).
    /// The cycle counter stays below one line, and the line counter below
    /// 262.
    pub fn step(
        &mut self,
        cpu_cyc: usize,
        cpu: &mut Cpu,
        system: &mut System,
        video_system: &mut VideoSystem,
        fb: &mut FrameBuffer,
    )
        requires
            old(self).step_spec(cpu_cyc, *old(cpu), *old(system), *old(video_system)) is Some,
        ensures
            Some((*final(self), *final(cpu), *final(system), *final(video_system))) == old(self).step_spec(
                cpu_cyc,
                *old(cpu),
                *old(system),
                *old(video_system),
            ),
            old(self).step_fb(cpu_cyc, *old(system), *old(video_system), *old(fb), *final(fb)),
            final(self).cumulative_cpu_cyc < CPU_CYCLE_PER_LINE,
            old(self).current_line < 262 ==> final(self).current_line < 262,
    {
        self.try_step(cpu_cyc, cpu, system, video_system, fb);
    }
}

/// A DMA over WRAM reads without side effects: after `n` bytes (at most
/// 256), OAM entry `i` holds the WRAM byte for its offset from `oam_start`
/// where that offset is below `n`, and is unchanged elsewhere.
proof fn lemma_dma_copy_wram(oam: [u8; OAM_SIZE], sys: System, cpu_start: u16, oam_start: u8, n: nat)
    requires
        cpu_start + n <= 0x2000,
        n <= 256,
    ensures
        dma_copy(oam, sys, cpu_start, oam_start, n).1 == sys,
        forall|i: int|
            0 <= i < 256 ==> #[trigger] dma_copy(oam, sys, cpu_start, oam_start, n).0[i] == (if (i - oam_start) % 256 < n {
                sys.wram[(cpu_start + (i - oam_start) % 256) % 0x800]
            } else {
                oam[i]
            }),
    decreases n,
{
    if n > 0 {
        let k = n - 1;
        lemma_dma_copy_wram(oam, sys, cpu_start, oam_start, k as nat);
        let addr = ((cpu_start + k) % 0x10000) as u16;
        sys.lemma_wram_read(addr, false);
        let (o, s) = dma_copy(oam, sys, cpu_start, oam_start, k as nat);
        let j = (oam_start + k) % 256;
        assert forall|i: int| 0 <= i < 256 implies #[trigger] dma_copy(oam, sys, cpu_start, oam_start, n).0[i] == (if (i
            - oam_start) % 256 < n {
            sys.wram[(cpu_start + (i - oam_start) % 256) % 0x800]
        } else {
            oam[i]
        }) by {
            if i == j {
                assert((i - oam_start) % 256 == k);
            } else {
                assert((i - oam_start) % 256 != k);
            }
        }
    }
}

/// OAM entry dst + k (wrapping) is at offset k from dst, and at the offset
/// of the second DMA half from dst + 0xaa.
proof fn lemma_dma_index(dst: u8, k: int)
    requires
        0 <= k < 256,
    ensures
        ((dst + k) % 256 - dst) % 256 == k,
        ((dst + k) % 256 - ((dst + 0xaa) % 256) as u8) % 256 == if k < 0xaa { k + 0x56 } else { k - 0xaa },
{
    let i: int = if dst + k < 256 { dst + k } else { dst + k - 256 };
    assert((dst + k) % 256 == i);
    let d2: int = if dst + 0xaa < 256 { dst + 0xaa } else { dst + 0xaa - 256 };
    assert((dst + 0xaa) % 256 == d2);
    assert((i - dst) % 256 == k);
    let e: int = if k < 0xaa { k + 0x56 } else { k - 0xaa };
    assert(i - d2 == e || i - d2 == e - 256);
    assert((i - d2) % 256 == e);
}

/// The WRAM byte that a CPU address below 0x2000 stands for.
pub open spec fn wram_at(sys: System, addr: int) -> u8 {
    sys.wram[addr % 0x800]
}

impl Ppu {
    /// A DMA started from a WRAM page copies the page's 256 bytes into OAM
    /// from the destination on (wrapping), in two halves one line apart, and
    /// leaves the bus as it was.
    pub proof fn lemma_dma_copies_page(self, sys: System)
        requires
            !self.is_dma_running,
            self.dma_cpu_src_addr & 0x00ffu16 == 0,
            self.dma_cpu_src_addr < 0x2000,
        ensures
            self.run_dma_ok(sys, true),
            ({
                let (p1, s1) = self.run_dma_spec(sys, true);
                &&& p1.run_dma_ok(s1, false)
                &&& ({
                    let (p2, s2) = p1.run_dma_spec(s1, false);
                    &&& s2 == sys
                    &&& !p2.is_dma_running
                    &&& forall|k: int|
                        0 <= k < 256 ==> p2.oam[(self.dma_oam_dst_addr + k) % 256] == #[trigger] wram_at(
                            sys,
                            self.dma_cpu_src_addr + k,
                        )
                })
            }),
    {
        let src = self.dma_cpu_src_addr;
        let dst = self.dma_oam_dst_addr;
        assert(src + 0x100 <= 0x2000) by (bit_vector)
            requires
                src & 0x00ffu16 == 0,
                src < 0x2000,
        ;
        assert(dma_reads_ok(sys, self.dma_cpu_start(true), 0xaa));
        lemma_dma_copy_wram(self.oam, sys, src, dst, 0xaa);
        let (p1, s1) = self.run_dma_spec(sys, true);
        assert(dma_reads_ok(s1, p1.dma_cpu_start(false), 0x56));
        let dst2 = ((dst + 0xaa) % 256) as u8;
        lemma_dma_copy_wram(p1.oam, s1, (src + 0xaa) as u16, dst2, 0x56);
        let (p2, s2) = p1.run_dma_spec(s1, false);
        assert forall|k: int| 0 <= k < 256 implies p2.oam[(dst + k) % 256] == #[trigger] wram_at(sys, src + k) by {
            lemma_dma_index(dst, k);
        }
    }
}

} // verus!
