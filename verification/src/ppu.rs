use vstd::prelude::*;
use crate::constants::{BYTES_PER_PIXEL, LCD_BYTE_WIDTH, LCD_HEIGHT, LCD_WIDTH};
use crate::cpu::GBModel;

verus! {

broadcast use vstd::array::group_array_axioms;

pub const TILE_SIZE: usize = 16;

pub const TILE_ENTRIES: usize = 384;

pub const TILE_DATA_SIZE: usize = 0x1800;

pub const OAM_ENTRY_SIZE: usize = 4;

pub const OAM_ENTRIES: usize = 40;

pub const OAM_SIZE: usize = 160;

pub const TILE_MAP_SIZE: usize = 0x0400;

/// 8 palettes * 4 colours/palette * 2 bytes/colour
pub const CRAM_SIZE: usize = 64;

pub const FRAME_BUFFER_SIZE: usize = 92160;

pub const SCAN_LINE_DOTS: u32 = 456;

pub const MODE_1_DOTS: u32 = 4560;

pub const MODE_2_DOTS: u32 = 80;

pub const MODE_3_MIN_DOTS: u32 = 172;

/// At most 10 objects are drawn on a line.
pub const MAX_LINE_OBJECTS: usize = 10;

/// The DMG shades (white, light grey, dark grey, black) as frame buffer
/// bytes.
pub open spec fn dmg_shade(index: u16, i: int) -> u8 {
    let c: Seq<u8> = if index == 0 {
        seq![0x0Fu8, 0xBC, 0x9B, 0xFF]
    } else if index == 1 {
        seq![0x0Fu8, 0xAC, 0x8B, 0xFF]
    } else if index == 2 {
        seq![0x30u8, 0x62, 0x30, 0xFF]
    } else {
        seq![0x0Fu8, 0x38, 0x0F, 0xFF]
    };
    c[i]
}

/// The PPU modes.
#[derive(Clone, Copy, Debug, PartialEq, Eq, Structural)]
pub enum Mode {
    HBlank0,
    VBlank1,
    OamScan2,
    Drawing3,
}

/// The STAT mode number of a mode.
pub open spec fn mode_num(mode: Mode) -> u8 {
    match mode {
        Mode::HBlank0 => 0,
        Mode::VBlank1 => 1,
        Mode::OamScan2 => 2,
        Mode::Drawing3 => 3,
    }
}

/// An object (sprite) attribute entry picked up during the OAM scan.
#[derive(Clone, Copy, Debug, PartialEq, Eq, Structural)]
pub struct OAMEntry {
    pub y: usize,
    pub x: usize,
    pub tile_id: usize,
    pub cgb_palette: u8,
    pub cgb_use_bank_1: bool,
    pub dmg_palette: bool,
    pub x_flip: bool,
    pub y_flip: bool,
    pub has_priority: bool,
}

/// The entry decoded from the four OAM bytes y, x, tile and attributes.
pub open spec fn oam_entry_of(b0: u8, b1: u8, b2: u8, attributes: u8) -> OAMEntry {
    OAMEntry {
        y: b0 as usize,
        x: b1 as usize,
        tile_id: b2 as usize,
        cgb_palette: attributes & 0x07,
        cgb_use_bank_1: attributes & 0x08 != 0,
        dmg_palette: attributes & 0x10 != 0,
        x_flip: attributes & 0x20 != 0,
        y_flip: attributes & 0x40 != 0,
        has_priority: attributes & 0x80 == 0,
    }
}

impl OAMEntry {
    pub fn new(b0: u8, b1: u8, b2: u8, attributes: u8) -> (r: Self)
        ensures
            r == oam_entry_of(b0, b1, b2, attributes),
    {
        OAMEntry {
            y: b0 as usize,
            x: b1 as usize,
            tile_id: b2 as usize,
            cgb_palette: attributes & 0x07,
            cgb_use_bank_1: attributes & 0x08 != 0,
            dmg_palette: attributes & 0x10 != 0,
            x_flip: attributes & 0x20 != 0,
            y_flip: attributes & 0x40 != 0,
            has_priority: attributes & 0x80 == 0,
        }
    }

    /// The tile of this object on line `lcd_y`: for 8x16 objects the top or
    /// bottom tile of the pair (swapped when flipped vertically).
    pub open spec fn spec_tile_id(self, lcd_y: usize, obj_size: u8) -> usize {
        if obj_size == 16 {
            if (lcd_y + 8 >= self.y) != self.y_flip {
                self.tile_id | 0x01
            } else {
                self.tile_id & 0xFE
            }
        } else {
            self.tile_id
        }
    }

    /// Computes the object's tile on line `lcd_y`.
    pub fn fetch_tile_id(&self, lcd_y: usize, obj_size: u8) -> (r: usize)
        requires
            lcd_y < 256,
            self.tile_id < 256,
        ensures
            r == self.spec_tile_id(lcd_y, obj_size),
            r < 256,
    {
        proof {
            crate::bits::lemma_tile_pair(self.tile_id);
        }
        if obj_size == 16 {
            if (lcd_y + 8 >= self.y) ^ self.y_flip {
                self.tile_id | 0x01
            } else {
                self.tile_id & 0xFE
            }
        } else {
            self.tile_id
        }
    }
}

/// Colour index (0..=3) of a DMG palette entry.
pub open spec fn spec_apply_palette_dmg(colour_id: u8, palette: u8) -> u16 {
    ((palette & (0x03u8 << (colour_id << 1u8))) >> (colour_id << 1u8)) as u16
}

/// The RGB555 colour of entry `colour_id` of CGB palette `palette_id`,
/// little-endian in colour RAM.
pub open spec fn spec_apply_palette_cgb(colour_id: u8, cram: Seq<u8>, palette_id: u8) -> u16 {
    let i = (palette_id as int) * 8 + (colour_id as int) * 2;
    (cram[i] as u16 | ((cram[i + 1] as u16) << 8u16)) as u16
}

/// 5-bit channel scaled to 8 bits, rounded.
pub open spec fn scale5(c: u16) -> u8 {
    ((c * 255 + 15) / 31) as u8
}

/// The frame buffer bytes (blue, green, red, alpha) of an RGB555 colour.
pub open spec fn spec_rgb555(color: u16, i: int) -> u8 {
    if i == 0 {
        scale5((color >> 10u16) & 0x1F)
    } else if i == 1 {
        scale5((color >> 5u16) & 0x1F)
    } else if i == 2 {
        scale5(color & 0x1F)
    } else {
        0xFF
    }
}

/// Returns the DMG colour index selected by `palette` for `colour_id`.
pub fn apply_palette_dmg(colour_id: u8, palette: u8) -> (r: u16)
    requires
        colour_id <= 3,
    ensures
        r == spec_apply_palette_dmg(colour_id, palette),
        r <= 3,
{
    proof {
        crate::bits::lemma_palette_index(colour_id, palette);
    }
    let id = colour_id << 1u8;
    ((palette & (0x03u8 << id)) >> id) as u16
}

/// Returns the RGB555 colour of entry `colour_id` of CGB palette `palette_id`.
pub fn apply_palette_cgb(colour_id: u8, cram: &[u8; CRAM_SIZE], palette_id: u8) -> (r: u16)
    requires
        colour_id <= 3,
        palette_id <= 7,
    ensures
        r == spec_apply_palette_cgb(colour_id, cram@, palette_id),
{
    let index_0 = (palette_id as usize) * 8 + (colour_id as usize) * 2;
    let index_1 = index_0 + 1;
    cram[index_0] as u16 | ((cram[index_1] as u16) << 8u16)
}

/// Converts an RGB555 colour to frame buffer bytes.
pub fn rgb555_to_argb8888(color: u16) -> (r: [u8; BYTES_PER_PIXEL])
    ensures
        forall|i: int| 0 <= i < 4 ==> r@[i] == spec_rgb555(color, i),
{
    proof {
        crate::bits::lemma_u16_five_bits(color);
    }
    let r5 = color & 0x1F;
    let g5 = (color >> 5u16) & 0x1F;
    let b5 = (color >> 10u16) & 0x1F;
    let r8 = (r5 * 255 + 15) / 31;
    let g8 = (g5 * 255 + 15) / 31;
    let b8 = (b5 * 255 + 15) / 31;
    [b8 as u8, g8 as u8, r8 as u8, 0xFF]
}

/// Returns the frame buffer bytes of a DMG shade.
pub fn dmg_colour(index: u16) -> (r: [u8; BYTES_PER_PIXEL])
    ensures
        forall|i: int| 0 <= i < 4 ==> r@[i] == dmg_shade(index, i),
{
    if index == 0 {
        [0x0F, 0xBC, 0x9B, 0xFF]
    } else if index == 1 {
        [0x0F, 0xAC, 0x8B, 0xFF]
    } else if index == 2 {
        [0x30, 0x62, 0x30, 0xFF]
    } else {
        [0x0F, 0x38, 0x0F, 0xFF]
    }
}

/// Whether `addr` is one of the PPU's I/O registers.
pub open spec fn ppu_io_addr(addr: usize) -> bool {
    (0xFF40 <= addr <= 0xFF4B) || addr == 0xFF4F || (0xFF68 <= addr <= 0xFF6C)
}

/// Whether `addr` is in VRAM.
pub open spec fn vram_addr(addr: usize) -> bool {
    0x8000 <= addr <= 0x9FFF
}

/// Whether `addr` is in OAM.
pub open spec fn oam_addr(addr: usize) -> bool {
    0xFE00 <= addr <= 0xFE9F
}

/// A palette index register after a data write: when auto-increment (bit 7)
/// is on, the index (bits 0..=5) advances, wrapping within the 64 bytes, and
/// bit 7 stays set.
pub open spec fn palette_index_after_write(index: u8) -> u8 {
    if index & 0x80 != 0 { (index & 0x80) | ((((index + 1) % 256) as u8) & 0x3F) } else { index }
}

/// The stable ordering of objects by their x coordinate: those with x == 0
/// first, then x == 1, and so on, each group in buffer order.
pub open spec fn objs_with_x(s: Seq<OAMEntry>, k: int) -> Seq<OAMEntry>
    decreases s.len(),
{
    if s.len() == 0 {
        s
    } else {
        let r = objs_with_x(s.drop_last(), k);
        if s.last().x == k { r.push(s.last()) } else { r }
    }
}

/// The objects with x below `k`, grouped by x in increasing order.
pub open spec fn sorted_by_x_below(s: Seq<OAMEntry>, k: int) -> Seq<OAMEntry>
    decreases k,
{
    if k <= 0 {
        Seq::empty()
    } else {
        sorted_by_x_below(s, k - 1) + objs_with_x(s, k - 1)
    }
}

/// The objects sorted by x, ties kept in buffer order.
pub open spec fn sort_by_x(s: Seq<OAMEntry>) -> Seq<OAMEntry> {
    sorted_by_x_below(s, 256)
}

/// The picture processing unit.
pub struct Ppu {
    pub model: GBModel,
    pub tile_data0: [u8; TILE_DATA_SIZE],
    pub tile_map0: [u8; TILE_MAP_SIZE],
    pub tile_map1: [u8; TILE_MAP_SIZE],
    pub oam: [u8; OAM_SIZE],
    pub lcdc: u8,
    pub stat: u8,
    pub scy: u8,
    pub scx: u8,
    pub ly: u8,
    pub lyc: u8,
    pub dma: u8,
    pub bgp: u8,
    pub obp0: u8,
    pub obp1: u8,
    pub wy: u8,
    pub wx: u8,
    /// The LCD screen: 144 rows of 160 pixels of 4 bytes.
    pub frame_buffer: Vec<u8>,
    pub stat_triggered: bool,
    pub entered_vblank: bool,
    pub stat_line: bool,
    pub mode: Mode,
    pub mode_elapsed_dots: u32,
    pub mode_3_dots: u32,
    pub cur_pixel_x: usize,
    pub wy_cond: bool,
    pub wx_cond: bool,
    pub line_has_window: bool,
    pub win_counter: usize,
    pub obj_buffer_index: usize,
    /// The objects found on the current line.
    pub obj_buffer: Vec<OAMEntry>,
    pub last_vblank_scanline: u32,
    // CGB only
    pub vbk: u8,
    pub bgpi: u8,
    pub obpi: u8,
    pub opri: u8,
    pub tile_data1: [u8; TILE_DATA_SIZE],
    pub attr_map0: [u8; TILE_MAP_SIZE],
    pub attr_map1: [u8; TILE_MAP_SIZE],
    pub cram_bg: [u8; CRAM_SIZE],
    pub cram_obj: [u8; CRAM_SIZE],
    /// Set on entering HBlank (for HBlank DMA on CGB).
    pub entered_hblank: bool,
}

/// The PPU as plain values, memories as sequences.
pub struct PpuState {
    pub model: GBModel,
    pub tile_data0: Seq<u8>,
    pub tile_map0: Seq<u8>,
    pub tile_map1: Seq<u8>,
    pub oam: Seq<u8>,
    pub lcdc: u8,
    pub stat: u8,
    pub scy: u8,
    pub scx: u8,
    pub ly: u8,
    pub lyc: u8,
    pub dma: u8,
    pub bgp: u8,
    pub obp0: u8,
    pub obp1: u8,
    pub wy: u8,
    pub wx: u8,
    pub frame_buffer: Seq<u8>,
    pub stat_triggered: bool,
    pub entered_vblank: bool,
    pub stat_line: bool,
    pub mode: Mode,
    pub mode_elapsed_dots: u32,
    pub mode_3_dots: u32,
    pub cur_pixel_x: usize,
    pub wy_cond: bool,
    pub wx_cond: bool,
    pub line_has_window: bool,
    pub win_counter: usize,
    pub obj_buffer_index: usize,
    pub obj_buffer: Seq<OAMEntry>,
    pub last_vblank_scanline: u32,
    pub vbk: u8,
    pub bgpi: u8,
    pub obpi: u8,
    pub opri: u8,
    pub tile_data1: Seq<u8>,
    pub attr_map0: Seq<u8>,
    pub attr_map1: Seq<u8>,
    pub cram_bg: Seq<u8>,
    pub cram_obj: Seq<u8>,
    pub entered_hblank: bool,
}

impl View for Ppu {
    type V = PpuState;

    open spec fn view(&self) -> PpuState {
        PpuState {
            model: self.model,
            tile_data0: self.tile_data0@,
            tile_map0: self.tile_map0@,
            tile_map1: self.tile_map1@,
            oam: self.oam@,
            lcdc: self.lcdc,
            stat: self.stat,
            scy: self.scy,
            scx: self.scx,
            ly: self.ly,
            lyc: self.lyc,
            dma: self.dma,
            bgp: self.bgp,
            obp0: self.obp0,
            obp1: self.obp1,
            wy: self.wy,
            wx: self.wx,
            frame_buffer: self.frame_buffer@,
            stat_triggered: self.stat_triggered,
            entered_vblank: self.entered_vblank,
            stat_line: self.stat_line,
            mode: self.mode,
            mode_elapsed_dots: self.mode_elapsed_dots,
            mode_3_dots: self.mode_3_dots,
            cur_pixel_x: self.cur_pixel_x,
            wy_cond: self.wy_cond,
            wx_cond: self.wx_cond,
            line_has_window: self.line_has_window,
            win_counter: self.win_counter,
            obj_buffer_index: self.obj_buffer_index,
            obj_buffer: self.obj_buffer@,
            last_vblank_scanline: self.last_vblank_scanline,
            vbk: self.vbk,
            bgpi: self.bgpi,
            obpi: self.obpi,
            opri: self.opri,
            tile_data1: self.tile_data1@,
            attr_map0: self.attr_map0@,
            attr_map1: self.attr_map1@,
            cram_bg: self.cram_bg@,
            cram_obj: self.cram_obj@,
            entered_hblank: self.entered_hblank,
        }
    }
}

/// The PPU at power-on: memories cleared, LCD off, in VBlank on line 0.
pub open spec fn initial_ppu(model: GBModel) -> PpuState {
    PpuState {
        model,
        tile_data0: Seq::new(TILE_DATA_SIZE as nat, |i: int| 0u8),
        tile_map0: Seq::new(TILE_MAP_SIZE as nat, |i: int| 0u8),
        tile_map1: Seq::new(TILE_MAP_SIZE as nat, |i: int| 0u8),
        oam: Seq::new(OAM_SIZE as nat, |i: int| 0u8),
        lcdc: 0,
        stat: 0,
        scy: 0,
        scx: 0,
        ly: 0,
        lyc: 0,
        dma: 0,
        bgp: 0,
        obp0: 0,
        obp1: 0,
        wy: 0,
        wx: 0,
        frame_buffer: zero_frame(),
        stat_triggered: false,
        entered_vblank: false,
        stat_line: false,
        mode: Mode::VBlank1,
        mode_elapsed_dots: 0,
        mode_3_dots: 0,
        cur_pixel_x: 0,
        wy_cond: false,
        wx_cond: false,
        line_has_window: false,
        win_counter: 0,
        obj_buffer_index: 0,
        obj_buffer: Seq::empty(),
        last_vblank_scanline: 0,
        vbk: 0,
        bgpi: 0,
        obpi: 0,
        opri: 0,
        tile_data1: Seq::new(TILE_DATA_SIZE as nat, |i: int| 0u8),
        attr_map0: Seq::new(TILE_MAP_SIZE as nat, |i: int| 0u8),
        attr_map1: Seq::new(TILE_MAP_SIZE as nat, |i: int| 0u8),
        cram_bg: Seq::new(CRAM_SIZE as nat, |i: int| 0u8),
        cram_obj: Seq::new(CRAM_SIZE as nat, |i: int| 0u8),
        entered_hblank: false,
    }
}

/// The blank screen.
pub open spec fn zero_frame() -> Seq<u8> {
    Seq::new(FRAME_BUFFER_SIZE as nat, |i: int| 0u8)
}

/// The smaller of `v` and 5.
pub open spec fn min5(v: int) -> int {
    if v < 5 { v } else { 5 }
}

/// Where a tile's 16 bytes start in a bank of tile data: tile ids index
/// from 0x8000, or (signed) from 0x9000 in the other addressing mode.
pub open spec fn tile_base(addr_mode: bool, tile_id: u8) -> int {
    if !addr_mode {
        tile_id as int * 16
    } else if tile_id < 128 {
        (256 + tile_id as int) * 16
    } else {
        tile_id as int * 16
    }
}

/// Index of the tile map entry covering background position (x, y).
pub open spec fn tile_map_index(x: int, y: int) -> int {
    x / 8 + (y / 8) * 32
}

impl PpuState {
    pub open spec fn lcd_disabled(self) -> bool {
        self.lcdc & 0x80 == 0
    }

    pub open spec fn is_cgb(self) -> bool {
        self.model == GBModel::CGB
    }

    pub open spec fn uses_bank1(self) -> bool {
        self.vbk > 0 && self.is_cgb()
    }

    pub open spec fn obj_enabled(self) -> bool {
        self.lcdc & 0x02 != 0
    }

    pub open spec fn obj_size(self) -> u8 {
        if self.lcdc & 0x04 == 0 { 8 } else { 16 }
    }

    /// The window is drawn when LCDC bit 5 is set (on DMG only while the
    /// background is on, bit 0).
    pub open spec fn win_enabled(self) -> bool {
        if self.model == GBModel::DMG && self.lcdc & 0x01 == 0 {
            false
        } else {
            self.lcdc & 0x20 != 0
        }
    }

    /// The length in dots of the current mode.
    pub open spec fn mode_end(self) -> int {
        match self.mode {
            Mode::HBlank0 => SCAN_LINE_DOTS - self.mode_3_dots - MODE_2_DOTS,
            Mode::VBlank1 => MODE_1_DOTS as int,
            Mode::OamScan2 => MODE_2_DOTS as int,
            Mode::Drawing3 => self.mode_3_dots as int,
        }
    }

    /// What stays true of a running PPU: line and counters in range, the
    /// buffered objects those of the current line, and in VBlank the line
    /// counter in step with the dots elapsed.
    pub closed spec fn wf(self) -> bool {
        &&& self.wf_base()
        &&& self.mode_elapsed_dots < self.mode_end()
        &&& (self.mode == Mode::VBlank1 ==> {
            &&& self.last_vblank_scanline == self.mode_elapsed_dots % SCAN_LINE_DOTS
            &&& self.ly + 10 <= 154 + self.mode_elapsed_dots / SCAN_LINE_DOTS
        })
    }

    pub open spec fn spec_can_access_oam(self) -> bool {
        self.lcd_disabled() || (self.mode != Mode::Drawing3 && self.mode != Mode::OamScan2)
    }

    pub open spec fn spec_read_vram(self, addr: usize) -> u8 {
        if addr <= 0x97FF {
            if self.uses_bank1() { self.tile_data1[addr - 0x8000] } else { self.tile_data0[addr - 0x8000] }
        } else if addr <= 0x9BFF {
            if self.uses_bank1() { self.attr_map0[addr - 0x9800] } else { self.tile_map0[addr - 0x9800] }
        } else {
            if self.uses_bank1() { self.attr_map1[addr - 0x9C00] } else { self.tile_map1[addr - 0x9C00] }
        }
    }

    pub open spec fn spec_write_vram(self, addr: usize, byte: u8) -> PpuState {
        if addr <= 0x97FF {
            if self.uses_bank1() {
                PpuState { tile_data1: self.tile_data1.update(addr - 0x8000, byte), ..self }
            } else {
                PpuState { tile_data0: self.tile_data0.update(addr - 0x8000, byte), ..self }
            }
        } else if addr <= 0x9BFF {
            if self.uses_bank1() {
                PpuState { attr_map0: self.attr_map0.update(addr - 0x9800, byte), ..self }
            } else {
                PpuState { tile_map0: self.tile_map0.update(addr - 0x9800, byte), ..self }
            }
        } else {
            if self.uses_bank1() {
                PpuState { attr_map1: self.attr_map1.update(addr - 0x9C00, byte), ..self }
            } else {
                PpuState { tile_map1: self.tile_map1.update(addr - 0x9C00, byte), ..self }
            }
        }
    }

    pub open spec fn spec_read_oam(self, addr: usize) -> u8 {
        if self.spec_can_access_oam() { self.oam[addr - 0xFE00] } else { 0xFF }
    }

    pub open spec fn spec_write_oam(self, addr: usize, byte: u8) -> PpuState {
        if self.spec_can_access_oam() {
            PpuState { oam: self.oam.update(addr - 0xFE00, byte), ..self }
        } else {
            self
        }
    }

    pub open spec fn spec_read_io(self, addr: usize) -> u8 {
        if addr == 0xFF40 {
            self.lcdc
        } else if addr == 0xFF41 {
            if self.lcd_disabled() { self.stat & 0xFC } else { self.stat }
        } else if addr == 0xFF42 {
            self.scy
        } else if addr == 0xFF43 {
            self.scx
        } else if addr == 0xFF44 {
            if self.lcd_disabled() { 0 } else { self.ly }
        } else if addr == 0xFF45 {
            self.lyc
        } else if addr == 0xFF46 {
            self.dma
        } else if addr == 0xFF47 {
            self.bgp
        } else if addr == 0xFF48 {
            self.obp0
        } else if addr == 0xFF49 {
            self.obp1
        } else if addr == 0xFF4A {
            self.wy
        } else if addr == 0xFF4B {
            self.wx
        } else if addr == 0xFF4F {
            self.vbk & 0xFE
        } else if addr == 0xFF68 {
            self.bgpi
        } else if addr == 0xFF69 {
            self.cram_bg[(self.bgpi & 0x3F) as int]
        } else if addr == 0xFF6A {
            self.obpi
        } else if addr == 0xFF6B {
            self.cram_obj[(self.obpi & 0x3F) as int]
        } else {
            self.opri
        }
    }

    pub open spec fn spec_write_io(self, addr: usize, byte: u8) -> PpuState {
        if addr == 0xFF40 {
            if self.lcdc & 0x80 == 0 && byte & 0x80 != 0 {
                PpuState { lcdc: byte, frame_buffer: zero_frame(), ..self }
            } else {
                PpuState { lcdc: byte, ..self }
            }
        } else if addr == 0xFF41 {
            PpuState { stat: (byte & 0xF8) | (self.stat & 0x07), ..self }
        } else if addr == 0xFF42 {
            PpuState { scy: byte, ..self }
        } else if addr == 0xFF43 {
            PpuState { scx: byte, ..self }
        } else if addr == 0xFF44 {
            self
        } else if addr == 0xFF45 {
            PpuState { lyc: byte, ..self }
        } else if addr == 0xFF46 {
            PpuState { dma: byte, ..self }
        } else if addr == 0xFF47 {
            PpuState { bgp: byte, ..self }
        } else if addr == 0xFF48 {
            PpuState { obp0: byte, ..self }
        } else if addr == 0xFF49 {
            PpuState { obp1: byte, ..self }
        } else if addr == 0xFF4A {
            PpuState { wy: byte, ..self }
        } else if addr == 0xFF4B {
            PpuState { wx: byte, ..self }
        } else if addr == 0xFF4F {
            PpuState { vbk: byte, ..self }
        } else if addr == 0xFF68 {
            PpuState { bgpi: byte, ..self }
        } else if addr == 0xFF69 {
            PpuState {
                cram_bg: self.cram_bg.update((self.bgpi & 0x3F) as int, byte),
                bgpi: palette_index_after_write(self.bgpi),
                ..self
            }
        } else if addr == 0xFF6A {
            PpuState { obpi: byte, ..self }
        } else if addr == 0xFF6B {
            PpuState {
                cram_obj: self.cram_obj.update((self.obpi & 0x3F) as int, byte),
                obpi: palette_index_after_write(self.obpi),
                ..self
            }
        } else {
            PpuState { opri: byte, ..self }
        }
    }

    /// STAT after a step: mode bits, the LY == LYC flag, and the interrupt
    /// line; an interrupt is raised on a rising edge of the line.
    pub open spec fn spec_update_stat(self) -> PpuState {
        let stat0 = (self.stat & 0xFC) | mode_num(self.mode);
        let stat = if self.lyc == self.ly { stat0 | 0x04 } else { stat0 & 0xFB };
        let line = (self.lyc == self.ly && stat & 0x40 != 0)
            || (self.mode == Mode::HBlank0 && stat & 0x20 != 0)
            || (self.mode == Mode::VBlank1 && stat & 0x10 != 0)
            || (self.mode == Mode::OamScan2 && stat & 0x08 != 0);
        PpuState { stat, stat_line: line, stat_triggered: !self.stat_line && line, ..self }
    }

    /// VBlank: a new line every 456 dots; line 153 reads as 0 after its
    /// first 4 dots.
    pub open spec fn spec_vblank_advance(self, dots: u32) -> PpuState {
        let ly1: int = if self.last_vblank_scanline + dots >= SCAN_LINE_DOTS { self.ly + 1 } else { self.ly as int };
        let last = ((self.last_vblank_scanline + dots) % (SCAN_LINE_DOTS as int)) as u32;
        let ly2: u8 = if ly1 == 153 && last >= 4 { 0 } else { ly1 as u8 };
        PpuState { ly: ly2, last_vblank_scanline: last, ..self }
    }

    /// One OAM entry examined: kept when the current line crosses it.
    pub open spec fn spec_scan_one(self) -> PpuState {
        let i = self.obj_buffer_index as int;
        let y = self.oam[4 * i];
        let hit = self.ly + 16 >= y && self.ly + 16 < y + self.obj_size();
        PpuState {
            obj_buffer: if hit {
                self.obj_buffer.push(oam_entry_of(self.oam[4 * i], self.oam[4 * i + 1], self.oam[4 * i + 2], self.oam[4 * i + 3]))
            } else {
                self.obj_buffer
            },
            obj_buffer_index: (self.obj_buffer_index + 1) as usize,
            ..self
        }
    }

    /// The OAM scan over `fetches` entries (fewer once all 40 are seen or
    /// 10 objects are found).
    pub open spec fn spec_oam_scan(self, fetches: nat) -> PpuState
        decreases fetches,
    {
        if fetches == 0 || self.obj_buffer_index >= OAM_ENTRIES || self.obj_buffer.len() >= MAX_LINE_OBJECTS {
            self
        } else {
            self.spec_scan_one().spec_oam_scan((fetches - 1) as nat)
        }
    }

    /// Colour id (0..=3) of pixel (tile_x, tile_y) of a tile.
    pub open spec fn spec_fetch_tile_pixel(
        self,
        addr_mode: bool,
        tile_id: u8,
        tile_x: usize,
        tile_y: usize,
        x_flip: bool,
        y_flip: bool,
        bank: bool,
    ) -> u8 {
        let data = if bank && self.is_cgb() { self.tile_data1 } else { self.tile_data0 };
        let row = if y_flip { (7 - (tile_y & 7)) * 2 } else { (tile_y & 7) * 2 };
        let mask: u8 = if x_flip { 1u8 << ((tile_x & 7) as u8) } else { 0x80u8 >> ((tile_x & 7) as u8) };
        let lo: u8 = if data[tile_base(addr_mode, tile_id) + row] & mask != 0 { 1 } else { 0 };
        let hi: u8 = if data[tile_base(addr_mode, tile_id) + row + 1] & mask != 0 { 1 } else { 0 };
        (hi * 2 + lo) as u8
    }

    /// Whether the window covers the pixel being drawn.
    pub open spec fn window_active(self) -> bool {
        self.win_enabled() && self.wx_cond && self.wy_cond
    }

    /// Background (or window) map coordinates of an LCD pixel.
    pub open spec fn bgwin_coords(self, lcd_x: usize, lcd_y: usize) -> (usize, usize) {
        if self.window_active() {
            ((lcd_x + 7 - self.wx) as usize, self.win_counter)
        } else {
            (((lcd_x + self.scx) % 0xFF) as usize, ((lcd_y + self.scy) % 0xFF) as usize)
        }
    }

    pub open spec fn spec_bgwin_tile_id(self, index: int, is_bg: bool) -> u8 {
        let bit: u8 = if is_bg { 0x08 } else { 0x40 };
        if self.lcdc & bit == 0 { self.tile_map0[index] } else { self.tile_map1[index] }
    }

    pub open spec fn spec_bgwin_attribute(self, index: int, is_bg: bool) -> u8 {
        let bit: u8 = if is_bg { 0x08 } else { 0x40 };
        if self.lcdc & bit == 0 { self.attr_map0[index] } else { self.attr_map1[index] }
    }

    /// The background/window colour of an LCD pixel, with (on CGB) the
    /// tile's priority bit and whether its colour id is 0.
    pub open spec fn spec_render_bgwin(self, lcd_x: usize, lcd_y: usize) -> (u16, bool, bool) {
        let is_bg = !self.window_active();
        let (x, y) = self.bgwin_coords(lcd_x, lcd_y);
        let index = tile_map_index(x as int, y as int);
        let tile_id = self.spec_bgwin_tile_id(index, is_bg);
        if !self.is_cgb() {
            if self.lcdc & 0x01 == 0 {
                (0, false, false)
            } else {
                let id = self.spec_fetch_tile_pixel(self.lcdc & 0x10 == 0, tile_id, x, y, false, false, false);
                (spec_apply_palette_dmg(id, self.bgp), false, false)
            }
        } else {
            let attr = self.spec_bgwin_attribute(index, is_bg);
            let id = self.spec_fetch_tile_pixel(
                self.lcdc & 0x10 == 0, tile_id, x, y, attr & 0x20 != 0, attr & 0x40 != 0, attr & 0x08 != 0);
            (spec_apply_palette_cgb(id, self.cram_bg, attr & 0x07), attr & 0x80 != 0, id == 0)
        }
    }

    /// The colour of an LCD pixel after the objects from `i` on: the first
    /// object with an opaque pixel there decides.
    pub open spec fn spec_render_obj_from(
        self,
        i: int,
        colour: u16,
        lcd_x: usize,
        lcd_y: usize,
        bg_priority: bool,
        bg_is_0: bool,
    ) -> u16
        decreases self.obj_buffer.len() - i,
    {
        if i >= self.obj_buffer.len() || i < 0 || !self.obj_enabled() {
            colour
        } else {
            let obj = self.obj_buffer[i];
            if !(obj.x <= lcd_x + 8 && lcd_x < obj.x) {
                self.spec_render_obj_from(i + 1, colour, lcd_x, lcd_y, bg_priority, bg_is_0)
            } else {
                let tile_id = obj.spec_tile_id(lcd_y, self.obj_size());
                let id = self.spec_fetch_tile_pixel(
                    false,
                    tile_id as u8,
                    (lcd_x + 8 - obj.x) as usize,
                    (lcd_y + 16 - obj.y) as usize,
                    obj.x_flip,
                    obj.y_flip,
                    obj.cgb_use_bank_1 && self.is_cgb(),
                );
                if id == 0 {
                    self.spec_render_obj_from(i + 1, colour, lcd_x, lcd_y, bg_priority, bg_is_0)
                } else if !self.is_cgb() {
                    if colour == 0 || obj.has_priority {
                        spec_apply_palette_dmg(id, if !obj.dmg_palette { self.obp0 } else { self.obp1 })
                    } else {
                        colour
                    }
                } else {
                    if bg_is_0 || self.lcdc & 0x01 == 0 || (obj.has_priority && !bg_priority) {
                        spec_apply_palette_cgb(id, self.cram_obj, obj.cgb_palette)
                    } else {
                        colour
                    }
                }
            }
        }
    }

    /// The colour of an LCD pixel: DMG shade index or CGB RGB555.
    pub open spec fn spec_render_pixel(self, lcd_x: usize, lcd_y: usize) -> u16 {
        let (c, p, z) = self.spec_render_bgwin(lcd_x, lcd_y);
        self.spec_render_obj_from(0, c, lcd_x, lcd_y, p, z)
    }

    /// Byte `k` of the frame buffer encoding of a colour.
    pub open spec fn colour_byte(self, colour: u16, k: int) -> u8 {
        if self.is_cgb() { spec_rgb555(colour, k) } else { dmg_shade(colour, k) }
    }

    /// One pixel drawn at the current position.
    pub open spec fn spec_draw_one(self) -> PpuState {
        let s = PpuState {
            wy_cond: self.wy_cond || self.wy == self.ly,
            wx_cond: self.wx <= self.cur_pixel_x + 7,
            ..self
        };
        let colour = s.spec_render_pixel(s.cur_pixel_x, s.ly as usize);
        let base = s.ly * LCD_BYTE_WIDTH + s.cur_pixel_x * BYTES_PER_PIXEL;
        PpuState {
            frame_buffer: s.frame_buffer
                .update(base, s.colour_byte(colour, 0))
                .update(base + 1, s.colour_byte(colour, 1))
                .update(base + 2, s.colour_byte(colour, 2))
                .update(base + 3, s.colour_byte(colour, 3)),
            line_has_window: s.line_has_window || s.window_active(),
            cur_pixel_x: (s.cur_pixel_x + 1) as usize,
            ..s
        }
    }

    /// Drawing over `dots` dots: one pixel a dot until the line is done.
    pub open spec fn spec_draw(self, dots: nat) -> PpuState
        decreases dots,
    {
        if self.cur_pixel_x >= LCD_WIDTH || dots == 0 {
            self
        } else {
            self.spec_draw_one().spec_draw((dots - 1) as nat)
        }
    }

    /// `dots` dots within the current mode.
    pub open spec fn spec_step_mode(self, dots: u32) -> PpuState {
        if dots == 0 {
            self
        } else {
            let s = match self.mode {
                Mode::VBlank1 => self.spec_vblank_advance(dots),
                Mode::OamScan2 => self.spec_oam_scan(((dots + 1) / 2) as nat),
                Mode::Drawing3 => self.spec_draw(dots as nat),
                Mode::HBlank0 => self,
            };
            s.spec_update_stat()
        }
    }

    /// The extra dots mode 3 takes for an object.
    pub open spec fn obj_penalty(self, obj: OAMEntry) -> int {
        let offset: int = if self.win_enabled() && self.wy_cond && (obj.x + 7) % 256 <= self.wx {
            0xFF - self.wx
        } else {
            self.scx as int
        };
        11 - min5((obj.x + offset) % 8)
    }

    /// The penalties of the first `n` buffered objects.
    pub open spec fn penalty_sum(self, n: int) -> int
        decreases n,
    {
        if n <= 0 { 0 } else { self.penalty_sum(n - 1) + self.obj_penalty(self.obj_buffer[n - 1]) }
    }

    /// The length of mode 3 for the current line.
    pub open spec fn spec_mode_3_dots(self) -> int {
        MODE_3_MIN_DOTS + self.scx % 8 + (if self.win_enabled() && self.wy_cond { 6int } else { 0 })
            + self.penalty_sum(self.obj_buffer.len() as int)
    }

    /// The change of mode at the end of the current one.
    pub open spec fn spec_next_mode(self) -> PpuState {
        match self.mode {
            Mode::HBlank0 => {
                let ly = (self.ly + 1) as u8;
                let s = PpuState { cur_pixel_x: 0, obj_buffer: Seq::empty(), obj_buffer_index: 0, ly, ..self };
                if ly == LCD_HEIGHT {
                    PpuState {
                        wy_cond: false,
                        win_counter: 0,
                        entered_vblank: true,
                        last_vblank_scanline: 0,
                        mode: Mode::VBlank1,
                        ..s
                    }
                } else {
                    PpuState {
                        win_counter: (self.win_counter + if self.line_has_window { 1usize } else { 0 }) as usize,
                        line_has_window: false,
                        mode: Mode::OamScan2,
                        ..s
                    }
                }
            },
            Mode::VBlank1 => PpuState { ly: 0, mode: Mode::OamScan2, ..self },
            Mode::OamScan2 => {
                let s = PpuState {
                    wx_cond: false,
                    obj_buffer_index: 0,
                    obj_buffer: if !self.is_cgb() || self.opri != 0 {
                        sort_by_x(self.obj_buffer)
                    } else {
                        self.obj_buffer
                    },
                    ..self
                };
                PpuState { mode_3_dots: s.spec_mode_3_dots() as u32, mode: Mode::Drawing3, ..s }
            },
            Mode::Drawing3 => PpuState { entered_hblank: true, mode: Mode::HBlank0, ..self },
        }
    }

    /// `dots` dots of the running PPU: the current mode advances, and when
    /// its end is reached the next mode begins and takes the rest.
    #[verifier::opaque]
    pub open spec fn spec_advance(self, dots: u32) -> PpuState {
        let next = self.mode_elapsed_dots + dots;
        let end = self.mode_end();
        if next < end {
            PpuState { mode_elapsed_dots: next as u32, ..self.spec_step_mode(dots) }
        } else {
            let a = self.spec_step_mode((end - self.mode_elapsed_dots) as u32);
            PpuState { mode_elapsed_dots: (next - end) as u32, ..a.spec_next_mode().spec_step_mode((next - end) as u32) }
        }
    }

    /// The PPU over `cycles` M-cycles (4 dots each): nothing while the LCD
    /// is off.
    pub open spec fn spec_step(self, cycles: u8) -> PpuState {
        if self.lcd_disabled() {
            self
        } else {
            PpuState { stat_triggered: false, ..self }.spec_advance((cycles * 4) as u32)
        }
    }
}

/// A buffered object is one of the current line.
pub open spec fn obj_fits(obj: OAMEntry, ly: u8) -> bool {
    &&& obj.y <= ly + 16
    &&& obj.x < 256
    &&& obj.y < 256
    &&& obj.tile_id < 256
    &&& obj.cgb_palette <= 7
}

/// The objects of `s` with x == k keep their order and their properties.
proof fn lemma_objs_with_x(s: Seq<OAMEntry>, k: int, ly: u8)
    requires
        forall|i: int| 0 <= i < s.len() ==> obj_fits(#[trigger] s[i], ly),
    ensures
        forall|j: int| 0 <= j < objs_with_x(s, k).len() ==> obj_fits(#[trigger] objs_with_x(s, k)[j], ly),
    decreases s.len(),
{
    if s.len() > 0 {
        let d = s.drop_last();
        assert forall|i: int| 0 <= i < d.len() implies obj_fits(#[trigger] d[i], ly) by {
            assert(d[i] == s[i]);
        }
        lemma_objs_with_x(d, k, ly);
        assert(obj_fits(s[s.len() - 1], ly));
        let r = objs_with_x(d, k);
        if s.last().x == k {
            assert forall|j: int| 0 <= j < r.push(s.last()).len() implies obj_fits(#[trigger] r.push(s.last())[j], ly) by {
                if j < r.len() {
                    assert(r.push(s.last())[j] == r[j]);
                }
            }
        }
    }
}

/// Sorting keeps what holds of every object.
proof fn lemma_sorted_fits(s: Seq<OAMEntry>, k: int, ly: u8)
    requires
        forall|i: int| 0 <= i < s.len() ==> obj_fits(#[trigger] s[i], ly),
    ensures
        forall|j: int| 0 <= j < sorted_by_x_below(s, k).len() ==> obj_fits(#[trigger] sorted_by_x_below(s, k)[j], ly),
    decreases k,
{
    if k > 0 {
        lemma_sorted_fits(s, k - 1, ly);
        lemma_objs_with_x(s, k - 1, ly);
        let a = sorted_by_x_below(s, k - 1);
        let b = objs_with_x(s, k - 1);
        assert forall|j: int| 0 <= j < (a + b).len() implies obj_fits(#[trigger] (a + b)[j], ly) by {
            if j < a.len() {
                assert((a + b)[j] == a[j]);
            } else {
                assert((a + b)[j] == b[j - a.len()]);
            }
        }
    }
}

/// Appending an object to the input adds it to the group of its x.
proof fn lemma_sorted_push(s: Seq<OAMEntry>, e: OAMEntry, k: int)
    requires
        k >= 0,
    ensures
        sorted_by_x_below(s.push(e), k).len() == sorted_by_x_below(s, k).len() + (if e.x < k { 1int } else { 0 }),
    decreases k,
{
    if k > 0 {
        lemma_sorted_push(s, e, k - 1);
        assert(s.push(e).drop_last() =~= s);
    }
}

/// Sorting by x keeps the number of objects.
proof fn lemma_sorted_len(s: Seq<OAMEntry>)
    requires
        forall|i: int| 0 <= i < s.len() ==> (#[trigger] s[i]).x < 256,
    ensures
        sort_by_x(s).len() == s.len(),
    decreases s.len(),
{
    if s.len() == 0 {
        assert(sorted_by_x_below(s, 256).len() == 0) by {
            lemma_sorted_empty(s, 256);
        }
    } else {
        let d = s.drop_last();
        assert forall|i: int| 0 <= i < d.len() implies (#[trigger] d[i]).x < 256 by {
            assert(d[i] == s[i]);
        }
        lemma_sorted_len(d);
        assert(d.push(s.last()) =~= s);
        lemma_sorted_push(d, s.last(), 256);
    }
}

proof fn lemma_sorted_empty(s: Seq<OAMEntry>, k: int)
    requires
        s.len() == 0,
    ensures
        sorted_by_x_below(s, k).len() == 0,
    decreases k,
{
    if k > 0 {
        lemma_sorted_empty(s, k - 1);
    }
}

/// The dot arithmetic of VBlank: the position in the line and the line
/// count follow the dots elapsed.
proof fn lemma_vblank_dots(e: int, last: int, dots: int)
    requires
        0 <= e,
        0 <= dots < 456,
        last == e % 456,
    ensures
        (last + dots) % 456 == (e + dots) % 456,
        last + dots >= 456 ==> (e + dots) / 456 == e / 456 + 1,
        last + dots < 456 ==> (e + dots) / 456 == e / 456,
{
    let q = e / 456;
    vstd::arithmetic::div_mod::lemma_fundamental_div_mod(e, 456);
    if last + dots >= 456 {
        vstd::arithmetic::div_mod::lemma_fundamental_div_mod_converse(e + dots, 456, q + 1, last + dots - 456);
        vstd::arithmetic::div_mod::lemma_fundamental_div_mod_converse(last + dots, 456, 1, last + dots - 456);
    } else {
        vstd::arithmetic::div_mod::lemma_fundamental_div_mod_converse(e + dots, 456, q, last + dots);
        vstd::arithmetic::div_mod::lemma_fundamental_div_mod_converse(last + dots, 456, 0, last + dots);
    }
}

/// The blank screen.
fn blank_frame() -> (r: Vec<u8>)
    ensures
        r@ == zero_frame(),
{
    let mut v: Vec<u8> = Vec::new();
    let mut i: usize = 0;
    while i < FRAME_BUFFER_SIZE
        invariant
            i <= FRAME_BUFFER_SIZE,
            v@ == Seq::new(i as nat, |j: int| 0u8),
        decreases FRAME_BUFFER_SIZE - i,
    {
        v.push(0);
        i += 1;
        assert(v@ =~= Seq::new(i as nat, |j: int| 0u8));
    }
    v
}

/// The STAT mode number of a mode.
pub fn mode_to_num(mode: &Mode) -> (r: u8)
    ensures
        r == mode_num(*mode),
{
    match mode {
        Mode::HBlank0 => 0,
        Mode::VBlank1 => 1,
        Mode::OamScan2 => 2,
        Mode::Drawing3 => 3,
    }
}

impl PpuState {
    /// What holds between the steps of a mode: `wf` without the relation
    /// of the elapsed dots to the mode.
    pub closed spec fn wf_base(self) -> bool {
        &&& self.tile_data0.len() == TILE_DATA_SIZE
        &&& self.tile_data1.len() == TILE_DATA_SIZE
        &&& self.tile_map0.len() == TILE_MAP_SIZE
        &&& self.tile_map1.len() == TILE_MAP_SIZE
        &&& self.attr_map0.len() == TILE_MAP_SIZE
        &&& self.attr_map1.len() == TILE_MAP_SIZE
        &&& self.oam.len() == OAM_SIZE
        &&& self.cram_bg.len() == CRAM_SIZE
        &&& self.cram_obj.len() == CRAM_SIZE
        &&& self.frame_buffer.len() == FRAME_BUFFER_SIZE
        &&& self.ly <= 154
        &&& (self.mode != Mode::VBlank1 ==> self.ly < 144)
        &&& (self.mode != Mode::VBlank1 ==> self.win_counter <= self.ly)
        &&& (self.mode == Mode::VBlank1 ==> self.win_counter == 0 && self.obj_buffer.len() == 0)
        &&& self.mode_3_dots <= 300
        &&& (self.mode == Mode::Drawing3 ==> self.mode_3_dots >= MODE_3_MIN_DOTS)
        &&& self.cur_pixel_x <= LCD_WIDTH
        &&& self.obj_buffer.len() <= MAX_LINE_OBJECTS
        &&& self.obj_buffer_index <= OAM_ENTRIES
        &&& (forall|i: int| 0 <= i < self.obj_buffer.len() ==> obj_fits(#[trigger] self.obj_buffer[i], self.ly))
        &&& self.last_vblank_scanline < SCAN_LINE_DOTS
    }
}

impl Ppu {
    pub open spec fn wf(&self) -> bool {
        self@.wf()
    }

    /// A PPU at power-on for the given model.
    pub fn new(model: GBModel) -> (r: Ppu)
        ensures
            r@ == initial_ppu(model),
            r.wf(),
    {
        let r = Ppu {
            model,
            tile_data0: [0u8; TILE_DATA_SIZE],
            tile_map0: [0u8; TILE_MAP_SIZE],
            tile_map1: [0u8; TILE_MAP_SIZE],
            oam: [0u8; OAM_SIZE],
            lcdc: 0,
            stat: 0,
            scy: 0,
            scx: 0,
            ly: 0,
            lyc: 0,
            dma: 0,
            bgp: 0,
            obp0: 0,
            obp1: 0,
            wy: 0,
            wx: 0,
            frame_buffer: blank_frame(),
            stat_triggered: false,
            entered_vblank: false,
            stat_line: false,
            mode: Mode::VBlank1,
            mode_elapsed_dots: 0,
            mode_3_dots: 0,
            cur_pixel_x: 0,
            wy_cond: false,
            wx_cond: false,
            line_has_window: false,
            win_counter: 0,
            obj_buffer_index: 0,
            obj_buffer: Vec::new(),
            last_vblank_scanline: 0,
            vbk: 0,
            bgpi: 0,
            obpi: 0,
            opri: 0,
            tile_data1: [0u8; TILE_DATA_SIZE],
            attr_map0: [0u8; TILE_MAP_SIZE],
            attr_map1: [0u8; TILE_MAP_SIZE],
            cram_bg: [0u8; CRAM_SIZE],
            cram_obj: [0u8; CRAM_SIZE],
            entered_hblank: false,
        };
        proof {
            assert(r.tile_data0@ =~= Seq::new(TILE_DATA_SIZE as nat, |i: int| 0u8));
            assert(r.tile_data1@ =~= Seq::new(TILE_DATA_SIZE as nat, |i: int| 0u8));
            assert(r.tile_map0@ =~= Seq::new(TILE_MAP_SIZE as nat, |i: int| 0u8));
            assert(r.tile_map1@ =~= Seq::new(TILE_MAP_SIZE as nat, |i: int| 0u8));
            assert(r.attr_map0@ =~= Seq::new(TILE_MAP_SIZE as nat, |i: int| 0u8));
            assert(r.attr_map1@ =~= Seq::new(TILE_MAP_SIZE as nat, |i: int| 0u8));
            assert(r.oam@ =~= Seq::new(OAM_SIZE as nat, |i: int| 0u8));
            assert(r.cram_bg@ =~= Seq::new(CRAM_SIZE as nat, |i: int| 0u8));
            assert(r.cram_obj@ =~= Seq::new(CRAM_SIZE as nat, |i: int| 0u8));
            assert(r@ == initial_ppu(model));
        }
        r
    }

    fn lcd_ppu_disabled(&self) -> (r: bool)
        ensures
            r == self@.lcd_disabled(),
    {
        self.lcdc & 0x80 == 0
    }

    fn win_enabled(&self) -> (r: bool)
        ensures
            r == self@.win_enabled(),
    {
        if self.model == GBModel::DMG && self.lcdc & 0x01 == 0 {
            false
        } else {
            self.lcdc & 0x20 != 0
        }
    }

    fn obj_enabled(&self) -> (r: bool)
        ensures
            r == self@.obj_enabled(),
    {
        self.lcdc & 0x02 != 0
    }

    fn obj_size(&self) -> (r: u8)
        ensures
            r == self@.obj_size(),
    {
        if self.lcdc & 0x04 == 0 { 8 } else { 16 }
    }

    fn is_cgb(&self) -> (r: bool)
        ensures
            r == self@.is_cgb(),
    {
        self.model == GBModel::CGB
    }

    /// Sets STAT's mode and coincidence bits and the STAT interrupt line;
    /// a rising edge of the line triggers the interrupt.
    fn update_stat(&mut self)
        ensures
            final(self)@ == old(self)@.spec_update_stat(),
    {
        let stat = self.stat & 0xFC;
        self.stat = stat | mode_to_num(&self.mode);
        if self.lyc == self.ly {
            self.stat = self.stat | 0x04;
        } else {
            self.stat = self.stat & 0xFB;
        }
        let old_stat_line = self.stat_line;
        self.stat_line = (self.lyc == self.ly && self.stat & 0x40 != 0)
            || (self.mode == Mode::HBlank0 && self.stat & 0x20 != 0)
            || (self.mode == Mode::VBlank1 && self.stat & 0x10 != 0)
            || (self.mode == Mode::OamScan2 && self.stat & 0x08 != 0);
        self.stat_triggered = !old_stat_line && self.stat_line;
    }

    /// The colour id of pixel (tile_x, tile_y) of a tile; `addr_mode`
    /// false indexes tiles from 0x8000, true (signed ids) from 0x9000.
    #[verifier::rlimit(40)]
    fn fetch_tile_pixel(
        &self,
        addr_mode: bool,
        tile_id: u8,
        tile_x: usize,
        tile_y: usize,
        x_flip: bool,
        y_flip: bool,
        bank: bool,
    ) -> (r: u8)
        ensures
            r == self@.spec_fetch_tile_pixel(addr_mode, tile_id, tile_x, tile_y, x_flip, y_flip, bank),
            r <= 3,
    {
        let base: usize = if !addr_mode {
            tile_id as usize * 16
        } else if tile_id < 128 {
            (256 + tile_id as usize) * 16
        } else {
            tile_id as usize * 16
        };
        proof {
            crate::bits::lemma_and_le_usize(tile_y, 7);
            crate::bits::lemma_and_le_usize(tile_x, 7);
        }
        let row: usize = if y_flip { (7 - (tile_y & 7)) * 2 } else { (tile_y & 7) * 2 };
        let mask: u8 = if x_flip { 1u8 << ((tile_x & 7) as u8) } else { 0x80u8 >> ((tile_x & 7) as u8) };
        let use_bank1 = bank && self.model == GBModel::CGB;
        let b0 = if use_bank1 { self.tile_data1[base + row] } else { self.tile_data0[base + row] };
        let b1 = if use_bank1 { self.tile_data1[base + row + 1] } else { self.tile_data0[base + row + 1] };
        let lo: u8 = if b0 & mask != 0 { 1 } else { 0 };
        let hi: u8 = if b1 & mask != 0 { 1 } else { 0 };
        hi * 2 + lo
    }

    fn fetch_bgwin_tile_id(&self, index: usize, is_bg: bool) -> (r: u8)
        requires
            index < TILE_MAP_SIZE,
        ensures
            r == self@.spec_bgwin_tile_id(index as int, is_bg),
    {
        let bit: u8 = if is_bg { 0x08 } else { 0x40 };
        if self.lcdc & bit == 0 { self.tile_map0[index] } else { self.tile_map1[index] }
    }

    fn fetch_bgwin_attribute(&self, index: usize, is_bg: bool) -> (r: u8)
        requires
            index < TILE_MAP_SIZE,
        ensures
            r == self@.spec_bgwin_attribute(index as int, is_bg),
    {
        let bit: u8 = if is_bg { 0x08 } else { 0x40 };
        if self.lcdc & bit == 0 { self.attr_map0[index] } else { self.attr_map1[index] }
    }

    fn window_active(&self) -> (r: bool)
        ensures
            r == self@.window_active(),
    {
        self.win_enabled() && self.wx_cond && self.wy_cond
    }

    /// The background/window colour of an LCD pixel, the tile's priority
    /// bit and whether its colour id is 0 (CGB).
    fn render_bgwin_pixel(&self, lcd_x: usize, lcd_y: usize) -> (r: (u16, bool, bool))
        requires
            self@.wf_base(),
            self.mode == Mode::Drawing3,
            lcd_x < LCD_WIDTH,
            lcd_y == self.ly,
            self.wx_cond ==> self.wx <= lcd_x + 7,
        ensures
            r == self@.spec_render_bgwin(lcd_x, lcd_y),
    {
        let window = self.window_active();
        let is_bg = !window;
        let (x, y): (usize, usize) = if window {
            (lcd_x + 7 - self.wx as usize, self.win_counter)
        } else {
            ((lcd_x + self.scx as usize) % 0xFF, (lcd_y + self.scy as usize) % 0xFF)
        };
        let index = x / 8 + (y / 8) * 32;
        let tile_id = self.fetch_bgwin_tile_id(index, is_bg);
        if self.model == GBModel::DMG {
            if self.lcdc & 0x01 == 0 {
                return (0, false, false);
            }
            let id = self.fetch_tile_pixel(self.lcdc & 0x10 == 0, tile_id, x, y, false, false, false);
            (apply_palette_dmg(id, self.bgp), false, false)
        } else {
            let attributes = self.fetch_bgwin_attribute(index, is_bg);
            let palette = attributes & 0x07;
            proof {
                crate::bits::lemma_and_le_u8(attributes, 0x07);
            }
            let bank = attributes & 0x08 != 0;
            let x_flip = attributes & 0x20 != 0;
            let y_flip = attributes & 0x40 != 0;
            let priority = attributes & 0x80 != 0;
            let id = self.fetch_tile_pixel(self.lcdc & 0x10 == 0, tile_id, x, y, x_flip, y_flip, bank);
            (apply_palette_cgb(id, &self.cram_bg, palette), priority, id == 0)
        }
    }

    /// The colour of an LCD pixel once the objects are drawn over `colour`.
    fn render_obj_pixel(&self, colour: u16, lcd_x: usize, lcd_y: usize, bg_priority: bool, bg_is_0: bool) -> (r: u16)
        requires
            self@.wf_base(),
            lcd_x < LCD_WIDTH,
            lcd_y == self.ly,
        ensures
            r == self@.spec_render_obj_from(0, colour, lcd_x, lcd_y, bg_priority, bg_is_0),
    {
        if !self.obj_enabled() {
            return colour;
        }
        let mut i: usize = 0;
        while i < self.obj_buffer.len()
            invariant
                self@.wf_base(),
                self@.obj_enabled(),
                lcd_x < LCD_WIDTH,
                lcd_y == self.ly,
                i <= self.obj_buffer.len(),
                self@.spec_render_obj_from(i as int, colour, lcd_x, lcd_y, bg_priority, bg_is_0)
                    == self@.spec_render_obj_from(0, colour, lcd_x, lcd_y, bg_priority, bg_is_0),
            decreases self.obj_buffer.len() - i,
        {
            let obj = self.obj_buffer[i];
            assert(obj_fits(self@.obj_buffer[i as int], self.ly));
            if obj.x <= lcd_x + 8 && lcd_x < obj.x {
                let tile_id = obj.fetch_tile_id(lcd_y, self.obj_size());
                let use_bank_1 = obj.cgb_use_bank_1 && self.model == GBModel::CGB;
                let id = self.fetch_tile_pixel(
                    false, tile_id as u8, lcd_x + 8 - obj.x, lcd_y + 16 - obj.y, obj.x_flip, obj.y_flip, use_bank_1);
                if id != 0 {
                    if self.model == GBModel::DMG {
                        if colour == 0 || obj.has_priority {
                            let palette = if !obj.dmg_palette { self.obp0 } else { self.obp1 };
                            return apply_palette_dmg(id, palette);
                        }
                        return colour;
                    } else {
                        if bg_is_0 || self.lcdc & 0x01 == 0 || (obj.has_priority && !bg_priority) {
                            return apply_palette_cgb(id, &self.cram_obj, obj.cgb_palette);
                        }
                        return colour;
                    }
                }
            }
            i += 1;
        }
        colour
    }

    /// The colour of an LCD pixel: a DMG shade index or a CGB RGB555 value.
    fn render_pixel(&self, lcd_x: usize, lcd_y: usize) -> (r: u16)
        requires
            self@.wf_base(),
            self.mode == Mode::Drawing3,
            lcd_x < LCD_WIDTH,
            lcd_y == self.ly,
            self.wx_cond ==> self.wx <= lcd_x + 7,
        ensures
            r == self@.spec_render_pixel(lcd_x, lcd_y),
    {
        let (colour, bg_priority, bg_is_0) = self.render_bgwin_pixel(lcd_x, lcd_y);
        self.render_obj_pixel(colour, lcd_x, lcd_y, bg_priority, bg_is_0)
    }

    /// Draws the pixel at the current position and moves on.
    fn draw_pixel(&mut self)
        requires
            old(self)@.wf_base(),
            old(self).mode == Mode::Drawing3,
            old(self).cur_pixel_x < LCD_WIDTH,
        ensures
            final(self)@ == old(self)@.spec_draw_one(),
            final(self)@.wf_base(),
            final(self).mode == old(self).mode,
            final(self).mode_3_dots == old(self).mode_3_dots,
            final(self).mode_elapsed_dots == old(self).mode_elapsed_dots,
            final(self).ly == old(self).ly,
            final(self).last_vblank_scanline == old(self).last_vblank_scanline,
    {
        self.wy_cond = self.wy_cond || self.wy == self.ly;
        self.wx_cond = (self.wx as usize) <= self.cur_pixel_x + 7;
        let x = self.cur_pixel_x;
        let y = self.ly as usize;
        let colour = self.render_pixel(x, y);
        let window = self.window_active();
        let bytes: [u8; BYTES_PER_PIXEL] = if self.model == GBModel::CGB {
            rgb555_to_argb8888(colour)
        } else {
            dmg_colour(colour)
        };
        let base = y * LCD_BYTE_WIDTH + x * BYTES_PER_PIXEL;
        self.frame_buffer.set(base, bytes[0]);
        self.frame_buffer.set(base + 1, bytes[1]);
        self.frame_buffer.set(base + 2, bytes[2]);
        self.frame_buffer.set(base + 3, bytes[3]);
        self.line_has_window = self.line_has_window || window;
        self.cur_pixel_x = x + 1;
    }

    /// Mode 3 over `dots` dots: a pixel a dot until the line is drawn.
    fn draw(&mut self, dots: u32)
        requires
            old(self)@.wf_base(),
            old(self).mode == Mode::Drawing3,
        ensures
            final(self)@ == old(self)@.spec_draw(dots as nat),
            final(self)@.wf_base(),
            final(self).mode == old(self).mode,
            final(self).mode_3_dots == old(self).mode_3_dots,
            final(self).mode_elapsed_dots == old(self).mode_elapsed_dots,
            final(self).ly == old(self).ly,
            final(self).last_vblank_scanline == old(self).last_vblank_scanline,
    {
        let mut left = dots;
        while self.cur_pixel_x < LCD_WIDTH && left > 0
            invariant
                self@.wf_base(),
                self.mode == Mode::Drawing3,
                self.mode_3_dots == old(self).mode_3_dots,
                self.mode_elapsed_dots == old(self).mode_elapsed_dots,
                self.ly == old(self).ly,
                self.last_vblank_scanline == old(self).last_vblank_scanline,
                self@.spec_draw(left as nat) == old(self)@.spec_draw(dots as nat),
            decreases left,
        {
            self.draw_pixel();
            left -= 1;
        }
    }

    /// Examines the next OAM entry: it is buffered when the current line
    /// crosses it.
    fn scan_entry(&mut self)
        requires
            old(self)@.wf_base(),
            old(self).mode == Mode::OamScan2,
            old(self).obj_buffer_index < OAM_ENTRIES,
            old(self).obj_buffer.len() < MAX_LINE_OBJECTS,
        ensures
            final(self)@ == old(self)@.spec_scan_one(),
            final(self)@.wf_base(),
            final(self).mode == old(self).mode,
            final(self).mode_3_dots == old(self).mode_3_dots,
            final(self).mode_elapsed_dots == old(self).mode_elapsed_dots,
            final(self).ly == old(self).ly,
            final(self).last_vblank_scanline == old(self).last_vblank_scanline,
    {
        let i = self.obj_buffer_index * 4;
        let obj_y = self.oam[i];
        let size = self.obj_size();
        if (self.ly as u16) + 16 >= obj_y as u16 && (self.ly as u16) + 16 < (obj_y as u16) + (size as u16) {
            let e = OAMEntry::new(self.oam[i], self.oam[i + 1], self.oam[i + 2], self.oam[i + 3]);
            proof {
                crate::bits::lemma_and_le_u8(self.oam[i as int + 3], 0x07);
            }
            self.obj_buffer.push(e);
            proof {
                assert forall|j: int| 0 <= j < self.obj_buffer@.len() implies obj_fits(#[trigger] self.obj_buffer@[j], self.ly) by {
                    if j < old(self).obj_buffer@.len() {
                        assert(self.obj_buffer@[j] == old(self).obj_buffer@[j]);
                    }
                }
            }
        }
        self.obj_buffer_index += 1;
    }

    /// Mode 2 over `fetches` OAM entries: entries crossing the current line
    /// are buffered, at most 10.
    fn oam_scan(&mut self, fetches: u32)
        requires
            old(self)@.wf_base(),
            old(self).mode == Mode::OamScan2,
        ensures
            final(self)@ == old(self)@.spec_oam_scan(fetches as nat),
            final(self)@.wf_base(),
            final(self).mode == old(self).mode,
            final(self).mode_3_dots == old(self).mode_3_dots,
            final(self).mode_elapsed_dots == old(self).mode_elapsed_dots,
            final(self).ly == old(self).ly,
            final(self).last_vblank_scanline == old(self).last_vblank_scanline,
    {
        let mut f = fetches;
        while f > 0 && self.obj_buffer_index < OAM_ENTRIES && self.obj_buffer.len() < MAX_LINE_OBJECTS
            invariant
                self@.wf_base(),
                self.mode == Mode::OamScan2,
                self.mode_3_dots == old(self).mode_3_dots,
                self.mode_elapsed_dots == old(self).mode_elapsed_dots,
                self.ly == old(self).ly,
                self.last_vblank_scanline == old(self).last_vblank_scanline,
                self@.spec_oam_scan(f as nat) == old(self)@.spec_oam_scan(fetches as nat),
            decreases f,
        {
            self.scan_entry();
            f -= 1;
        }
    }

    /// Steps `dots` dots within the current mode.
    fn step_mode(&mut self, dots: u32)
        requires
            old(self)@.wf_base(),
            dots <= 80,
            old(self).mode == Mode::VBlank1 ==> old(self).ly <= 153,
        ensures
            final(self)@ == old(self)@.spec_step_mode(dots),
            final(self)@.wf_base(),
            final(self).mode == old(self).mode,
            final(self).mode_3_dots == old(self).mode_3_dots,
            final(self).mode_elapsed_dots == old(self).mode_elapsed_dots,
            old(self).mode != Mode::VBlank1 ==> final(self).ly == old(self).ly,
            old(self).mode != Mode::VBlank1 ==> final(self).last_vblank_scanline == old(self).last_vblank_scanline,
    {
        if dots == 0 {
            return;
        }
        match self.mode {
            Mode::VBlank1 => {
                if self.last_vblank_scanline + dots >= SCAN_LINE_DOTS {
                    self.ly = self.ly + 1;
                }
                self.last_vblank_scanline = (self.last_vblank_scanline + dots) % SCAN_LINE_DOTS;
                if self.ly == 153 && self.last_vblank_scanline >= 4 {
                    self.ly = 0;
                }
            },
            Mode::OamScan2 => {
                self.oam_scan((dots + 1) / 2);
            },
            Mode::Drawing3 => {
                self.draw(dots);
            },
            Mode::HBlank0 => {},
        }
        self.update_stat();
    }

    /// Sorts the object buffer by x, ties kept in OAM order.
    fn sort_obj_buffer(&mut self)
        requires
            forall|i: int| 0 <= i < old(self).obj_buffer.len() ==> (#[trigger] old(self).obj_buffer[i]).x < 256,
        ensures
            final(self)@ == (PpuState { obj_buffer: sort_by_x(old(self)@.obj_buffer), ..old(self)@ }),
    {
        let mut out: Vec<OAMEntry> = Vec::new();
        let mut k: usize = 0;
        while k < 256
            invariant
                k <= 256,
                out@ == sorted_by_x_below(self.obj_buffer@, k as int),
            decreases 256 - k,
        {
            let mut i: usize = 0;
            while i < self.obj_buffer.len()
                invariant
                    k < 256,
                    i <= self.obj_buffer.len(),
                    out@ == sorted_by_x_below(self.obj_buffer@, k as int) + objs_with_x(self.obj_buffer@.take(i as int), k as int),
                decreases self.obj_buffer.len() - i,
            {
                let ghost before = out@;
                if self.obj_buffer[i].x == k {
                    out.push(self.obj_buffer[i]);
                }
                proof {
                    assert(self.obj_buffer@.take(i as int + 1).drop_last() =~= self.obj_buffer@.take(i as int));
                }
                i += 1;
            }
            assert(self.obj_buffer@.take(self.obj_buffer.len() as int) =~= self.obj_buffer@);
            k += 1;
        }
        self.obj_buffer = out;
    }

    /// The length of mode 3 for the current line: 172 dots, plus the
    /// background's fine scroll, the window and each object.
    fn calc_mode_3_dots(&self) -> (r: u32)
        requires
            self@.wf_base(),
        ensures
            r == self@.spec_mode_3_dots(),
            MODE_3_MIN_DOTS <= r <= 300,
    {
        let win = self.win_enabled() && self.wy_cond;
        let mut res: u32 = MODE_3_MIN_DOTS + (self.scx % 8) as u32;
        if win {
            res += 6;
        }
        let ghost start = res;
        let mut i: usize = 0;
        while i < self.obj_buffer.len()
            invariant
                self@.wf_base(),
                win == (self@.win_enabled() && self.wy_cond),
                start == MODE_3_MIN_DOTS + self.scx % 8 + (if win { 6int } else { 0 }),
                i <= self.obj_buffer.len(),
                res == start + self@.penalty_sum(i as int),
                start <= res <= start + 11 * i,
                start <= 185,
            decreases self.obj_buffer.len() - i,
        {
            let obj = self.obj_buffer[i];
            assert(obj_fits(self@.obj_buffer[i as int], self.ly));
            let offset: u8 = if win && (obj.x as u8).wrapping_add(7) <= self.wx { 0xFF - self.wx } else { self.scx };
            let v = (obj.x as u16 + offset as u16) % 8;
            let m: u16 = if v < 5 { v } else { 5 };
            res = res + (11 - m as u32);
            i += 1;
        }
        assert(i <= MAX_LINE_OBJECTS);
        res
    }

    /// The end of HBlank: the next line, or VBlank after the last.
    fn end_hblank(&mut self)
        requires
            old(self)@.wf_base(),
            old(self).mode == Mode::HBlank0,
        ensures
            final(self)@ == old(self)@.spec_next_mode(),
            final(self)@.wf_base(),
    {
        self.cur_pixel_x = 0;
        self.obj_buffer = Vec::new();
        self.obj_buffer_index = 0;
        self.ly = self.ly + 1;
        if self.ly == 144 {
            self.wy_cond = false;
            self.win_counter = 0;
            self.entered_vblank = true;
            self.last_vblank_scanline = 0;
            self.mode = Mode::VBlank1;
        } else {
            self.win_counter = self.win_counter + if self.line_has_window { 1 } else { 0 };
            self.line_has_window = false;
            self.mode = Mode::OamScan2;
        }
    }

    /// The end of the OAM scan: objects sorted by x (unless CGB priority is
    /// by OAM order), and the length of mode 3 fixed.
    #[verifier::rlimit(30)]
    fn end_oam_scan(&mut self)
        requires
            old(self)@.wf_base(),
            old(self).mode == Mode::OamScan2,
        ensures
            final(self)@ == old(self)@.spec_next_mode(),
            final(self)@.wf_base(),
    {
        self.wx_cond = false;
        self.obj_buffer_index = 0;
        if !self.is_cgb() || self.opri != 0 {
            proof {
                lemma_sorted_len(self.obj_buffer@);
                lemma_sorted_fits(self.obj_buffer@, 256, self.ly);
            }
            self.sort_obj_buffer();
        }
        self.mode_3_dots = self.calc_mode_3_dots();
        self.mode = Mode::Drawing3;
    }

    /// Moves on to the next mode.
    fn next_mode(&mut self)
        requires
            old(self)@.wf_base(),
        ensures
            final(self)@ == old(self)@.spec_next_mode(),
            final(self)@.wf_base(),
    {
        match self.mode {
            Mode::HBlank0 => self.end_hblank(),
            Mode::VBlank1 => {
                self.ly = 0;
                self.mode = Mode::OamScan2;
            },
            Mode::OamScan2 => self.end_oam_scan(),
            Mode::Drawing3 => {
                self.entered_hblank = true;
                self.mode = Mode::HBlank0;
            },
        }
    }

    fn mode_end_dots(&self) -> (r: u32)
        requires
            self@.wf_base(),
        ensures
            r == self@.mode_end(),
    {
        match self.mode {
            Mode::HBlank0 => SCAN_LINE_DOTS - self.mode_3_dots - MODE_2_DOTS,
            Mode::VBlank1 => MODE_1_DOTS,
            Mode::OamScan2 => MODE_2_DOTS,
            Mode::Drawing3 => self.mode_3_dots,
        }
    }

    /// `dots` dots that end before the current mode does.
    #[verifier::rlimit(100)]
    #[verifier::spinoff_prover]
    fn advance_within(&mut self, dots: u32)
        requires
            old(self).wf(),
            dots <= 72,
            old(self).mode_elapsed_dots + dots < old(self)@.mode_end(),
        ensures
            final(self)@ == old(self)@.spec_advance(dots),
            final(self).wf(),
    {
        reveal(PpuState::spec_advance);
        let ghost s0 = self@;
        let next = self.mode_elapsed_dots + dots;
        proof {
            if s0.mode == Mode::VBlank1 {
                lemma_vblank_dots(s0.mode_elapsed_dots as int, s0.last_vblank_scanline as int, dots as int);
            }
        }
        self.step_mode(dots);
        self.mode_elapsed_dots = next;
    }

    /// `dots` dots that reach the end of the current mode: the rest are
    /// spent in the next.
    #[verifier::rlimit(100)]
    #[verifier::spinoff_prover]
    fn advance_across(&mut self, dots: u32)
        requires
            old(self).wf(),
            dots <= 72,
            old(self).mode_elapsed_dots + dots >= old(self)@.mode_end(),
        ensures
            final(self)@ == old(self)@.spec_advance(dots),
            final(self).wf(),
    {
        reveal(PpuState::spec_advance);
        let next = self.mode_elapsed_dots + dots;
        let end = self.mode_end_dots();
        let first = end - self.mode_elapsed_dots;
        let ghost s0 = self@;
        self.step_mode(first);
        self.next_mode();
        let ghost s1 = self@;
        self.step_mode(next - end);
        self.mode_elapsed_dots = next - end;
        proof {
            if s0.mode == Mode::HBlank0 && s1.mode == Mode::VBlank1 {
                assert(s1.last_vblank_scanline == 0);
                assert(((next - end) as int) % 456 == (next - end) as int);
                assert(((next - end) as int) / 456 == 0);
            }
        }
    }

    /// Runs the PPU for `cycles` M-cycles (4 dots each). With the LCD off
    /// nothing happens, whatever the count; with it on the count is at most
    /// 18 (a machine step never hands more), so that at most one mode ends.
    pub fn step(&mut self, cycles: u8)
        requires
            old(self).wf(),
            old(self)@.lcd_disabled() || cycles <= 18,
        ensures
            final(self)@ == old(self)@.spec_step(cycles),
            final(self).wf(),
    {
        if self.lcd_ppu_disabled() {
            return;
        }
        self.stat_triggered = false;
        let ghost s = self@;
        assert(s == (PpuState { stat_triggered: false, ..old(self)@ }));
        let dots = cycles as u32 * 4;
        let next = self.mode_elapsed_dots + dots;
        let end = self.mode_end_dots();
        if next < end {
            self.advance_within(dots);
        } else {
            self.advance_across(dots);
        }
    }

    /// Reads VRAM (the CPU may read it even during mode 3); on CGB with VBK
    /// set, bank 1 (tile data and attribute maps).
    pub fn read_vram(&self, addr: usize) -> (r: u8)
        requires
            vram_addr(addr),
        ensures
            r == self@.spec_read_vram(addr),
    {
        let bank1 = self.vbk > 0 && self.model == GBModel::CGB;
        if addr <= 0x97FF {
            if bank1 { self.tile_data1[addr - 0x8000] } else { self.tile_data0[addr - 0x8000] }
        } else if addr <= 0x9BFF {
            if bank1 { self.attr_map0[addr - 0x9800] } else { self.tile_map0[addr - 0x9800] }
        } else {
            if bank1 { self.attr_map1[addr - 0x9C00] } else { self.tile_map1[addr - 0x9C00] }
        }
    }

    /// Writes VRAM (even during mode 3).
    pub fn write_vram(&mut self, addr: usize, byte: u8)
        requires
            vram_addr(addr),
        ensures
            final(self)@ == old(self)@.spec_write_vram(addr, byte),
            old(self).wf() ==> final(self).wf(),
    {
        let bank1 = self.vbk > 0 && self.model == GBModel::CGB;
        if addr <= 0x97FF {
            if bank1 {
                self.tile_data1[addr - 0x8000] = byte;
                assert(self.tile_data1@ =~= old(self).tile_data1@.update(addr - 0x8000, byte));
            } else {
                self.tile_data0[addr - 0x8000] = byte;
                assert(self.tile_data0@ =~= old(self).tile_data0@.update(addr - 0x8000, byte));
            }
        } else if addr <= 0x9BFF {
            if bank1 {
                self.attr_map0[addr - 0x9800] = byte;
                assert(self.attr_map0@ =~= old(self).attr_map0@.update(addr - 0x9800, byte));
            } else {
                self.tile_map0[addr - 0x9800] = byte;
                assert(self.tile_map0@ =~= old(self).tile_map0@.update(addr - 0x9800, byte));
            }
        } else {
            if bank1 {
                self.attr_map1[addr - 0x9C00] = byte;
                assert(self.attr_map1@ =~= old(self).attr_map1@.update(addr - 0x9C00, byte));
            } else {
                self.tile_map1[addr - 0x9C00] = byte;
                assert(self.tile_map1@ =~= old(self).tile_map1@.update(addr - 0x9C00, byte));
            }
        }
    }

    fn can_access_oam(&self) -> (r: bool)
        ensures
            r == self@.spec_can_access_oam(),
    {
        self.lcdc & 0x80 == 0 || (!matches!(self.mode, Mode::Drawing3) && !matches!(self.mode, Mode::OamScan2))
    }

    /// Reads OAM; 0xFF while the PPU is scanning or drawing.
    pub fn read_oam(&self, addr: usize) -> (r: u8)
        requires
            oam_addr(addr),
        ensures
            r == self@.spec_read_oam(addr),
    {
        if self.can_access_oam() {
            self.oam[addr - 0xFE00]
        } else {
            0xFF
        }
    }

    /// Writes OAM; ignored while the PPU is scanning or drawing.
    pub fn write_oam(&mut self, addr: usize, byte: u8)
        requires
            oam_addr(addr),
        ensures
            final(self)@ == old(self)@.spec_write_oam(addr, byte),
            old(self).wf() ==> final(self).wf(),
    {
        if self.can_access_oam() {
            self.oam[addr - 0xFE00] = byte;
            assert(self.oam@ =~= old(self).oam@.update(addr - 0xFE00, byte));
        }
    }

    /// Reads a PPU register.
    pub fn read_io(&self, addr: usize) -> (r: u8)
        requires
            ppu_io_addr(addr),
        ensures
            r == self@.spec_read_io(addr),
    {
        proof {
            crate::bits::lemma_and_le_u8(self.bgpi, 0x3F);
            crate::bits::lemma_and_le_u8(self.obpi, 0x3F);
        }
        match addr {
            0xFF40 => self.lcdc,
            0xFF41 => if self.lcdc & 0x80 == 0 { self.stat & 0xFC } else { self.stat },
            0xFF42 => self.scy,
            0xFF43 => self.scx,
            0xFF44 => if self.lcdc & 0x80 == 0 { 0 } else { self.ly },
            0xFF45 => self.lyc,
            0xFF46 => self.dma,
            0xFF47 => self.bgp,
            0xFF48 => self.obp0,
            0xFF49 => self.obp1,
            0xFF4A => self.wy,
            0xFF4B => self.wx,
            0xFF4F => self.vbk & 0xFE,
            0xFF68 => self.bgpi,
            0xFF69 => self.cram_bg[(self.bgpi & 0x3F) as usize],
            0xFF6A => self.obpi,
            0xFF6B => self.cram_obj[(self.obpi & 0x3F) as usize],
            _ => self.opri,
        }
    }

    /// Writes a PPU register. Turning the LCD on clears the screen; STAT's
    /// low three bits are read-only; palette data writes advance the index
    /// when auto-increment is set.
    #[verifier::rlimit(40)]
    pub fn write_io(&mut self, addr: usize, byte: u8)
        requires
            ppu_io_addr(addr),
        ensures
            final(self)@ == old(self)@.spec_write_io(addr, byte),
            old(self).wf() ==> final(self).wf(),
    {
        proof {
            crate::bits::lemma_and_le_u8(self.bgpi, 0x3F);
            crate::bits::lemma_and_le_u8(self.obpi, 0x3F);
        }
        match addr {
            0xFF40 => {
                if self.lcdc & 0x80 == 0 && byte & 0x80 != 0 {
                    self.reset_lcd();
                }
                self.lcdc = byte;
            },
            0xFF41 => {
                let stat = self.stat & 0x07;
                self.stat = (byte & 0xF8) | stat;
            },
            0xFF42 => self.scy = byte,
            0xFF43 => self.scx = byte,
            0xFF44 => {},
            0xFF45 => self.lyc = byte,
            0xFF46 => self.dma = byte,
            0xFF47 => self.bgp = byte,
            0xFF48 => self.obp0 = byte,
            0xFF49 => self.obp1 = byte,
            0xFF4A => self.wy = byte,
            0xFF4B => self.wx = byte,
            0xFF4F => self.vbk = byte,
            0xFF68 => self.bgpi = byte,
            0xFF69 => {
                self.cram_bg[(self.bgpi & 0x3F) as usize] = byte;
                assert(self.cram_bg@ =~= old(self).cram_bg@.update((old(self).bgpi & 0x3F) as int, byte));
                if self.bgpi & 0x80 != 0 {
                    self.bgpi = (self.bgpi & 0x80) | (self.bgpi.wrapping_add(1) & 0x3F);
                }
            },
            0xFF6A => self.obpi = byte,
            0xFF6B => {
                self.cram_obj[(self.obpi & 0x3F) as usize] = byte;
                assert(self.cram_obj@ =~= old(self).cram_obj@.update((old(self).obpi & 0x3F) as int, byte));
                if self.obpi & 0x80 != 0 {
                    self.obpi = (self.obpi & 0x80) | (self.obpi.wrapping_add(1) & 0x3F);
                }
            },
            _ => self.opri = byte,
        }
    }

    fn reset_lcd(&mut self)
        ensures
            final(self)@ == (PpuState { frame_buffer: zero_frame(), ..old(self)@ }),
    {
        self.frame_buffer = blank_frame();
    }

    /// Writes the DMA register.
    pub fn write_dma(&mut self, byte: u8)
        ensures
            final(self)@ == (PpuState { dma: byte, ..old(self)@ }),
            old(self).wf() ==> final(self).wf(),
    {
        self.dma = byte;
    }

    /// Whether the PPU has entered HBlank since the last call (the flag is
    /// cleared by the call).
    pub fn entered_hblank(&mut self) -> (r: bool)
        ensures
            r == old(self).entered_hblank,
            final(self)@ == (PpuState { entered_hblank: false, ..old(self)@ }),
            old(self).wf() ==> final(self).wf(),
    {
        let ret = self.entered_hblank;
        self.entered_hblank = false;
        ret
    }

    /// Whether a frame has been completed (VBlank entered) since the last
    /// call (the flag is cleared by the call).
    pub fn frame_ready(&mut self) -> (r: bool)
        ensures
            r == old(self).entered_vblank,
            final(self)@ == (PpuState { entered_vblank: false, ..old(self)@ }),
            old(self).wf() ==> final(self).wf(),
    {
        let ret = self.entered_vblank;
        self.entered_vblank = false;
        ret
    }

    /// The colour index (0..=3) that BGP gives colour id `id` (0..=3).
    pub fn bg_palette(&self, id: u8) -> (r: u8)
        requires
            id <= 3,
        ensures
            r as u16 == spec_apply_palette_dmg(id, self.bgp),
    {
        apply_palette_dmg(id, self.bgp) as u8
    }

    pub fn read_lcdc(&self) -> (r: u8) ensures r == self.lcdc, { self.lcdc }

    pub fn write_lcdc(&mut self, byte: u8) ensures *final(self) == (Ppu { lcdc: byte, ..*old(self) }), { self.lcdc = byte; }

    pub fn read_stat(&self) -> (r: u8) ensures r == self.stat, { self.stat }

    /// The bottom three bits are read-only.
    pub fn write_stat(&mut self, byte: u8)
        ensures
            *final(self) == (Ppu { stat: (byte & 0xF8) | (old(self).stat & 0x07), ..*old(self) }),
    {
        let stat = self.stat & 0x07;
        self.stat = (byte & 0xF8) | stat;
    }

    pub fn read_scy(&self) -> (r: u8) ensures r == self.scy, { self.scy }

    pub fn write_scy(&mut self, byte: u8) ensures *final(self) == (Ppu { scy: byte, ..*old(self) }), { self.scy = byte; }

    pub fn read_scx(&self) -> (r: u8) ensures r == self.scx, { self.scx }

    pub fn write_scx(&mut self, byte: u8) ensures *final(self) == (Ppu { scx: byte, ..*old(self) }), { self.scx = byte; }

    pub fn read_ly(&self) -> (r: u8) ensures r == self.ly, { self.ly }

    pub fn read_lyc(&self) -> (r: u8) ensures r == self.lyc, { self.lyc }

    pub fn write_lyc(&mut self, byte: u8) ensures *final(self) == (Ppu { lyc: byte, ..*old(self) }), { self.lyc = byte; }

    pub fn read_dma(&self) -> (r: u8) ensures r == self.dma, { self.dma }

    pub fn read_bgp(&self) -> (r: u8) ensures r == self.bgp, { self.bgp }

    pub fn write_bgp(&mut self, byte: u8) ensures *final(self) == (Ppu { bgp: byte, ..*old(self) }), { self.bgp = byte; }

    pub fn read_obp0(&self) -> (r: u8) ensures r == self.obp0, { self.obp0 }

    pub fn write_obp0(&mut self, byte: u8) ensures *final(self) == (Ppu { obp0: byte, ..*old(self) }), { self.obp0 = byte; }

    pub fn read_obp1(&self) -> (r: u8) ensures r == self.obp1, { self.obp1 }

    pub fn write_obp1(&mut self, byte: u8) ensures *final(self) == (Ppu { obp1: byte, ..*old(self) }), { self.obp1 = byte; }

    pub fn read_wy(&self) -> (r: u8) ensures r == self.wy, { self.wy }

    pub fn write_wy(&mut self, byte: u8) ensures *final(self) == (Ppu { wy: byte, ..*old(self) }), { self.wy = byte; }

    pub fn read_wx(&self) -> (r: u8) ensures r == self.wx, { self.wx }

    pub fn write_wx(&mut self, byte: u8) ensures *final(self) == (Ppu { wx: byte, ..*old(self) }), { self.wx = byte; }
}

/// LY never reads above 153: a running PPU is on a visible line (0..=143)
/// outside VBlank, and on one of the ten VBlank lines inside it.
pub proof fn lemma_ly_in_range(s: PpuState)
    requires
        s.wf(),
    ensures
        s.spec_read_io(0xFF44) <= 153,
{
    if s.mode == Mode::VBlank1 && !s.lcd_disabled() {
        assert(s.mode_elapsed_dots / SCAN_LINE_DOTS <= 9) by (nonlinear_arith)
            requires
                s.mode_elapsed_dots < MODE_1_DOTS,
                MODE_1_DOTS == 10 * SCAN_LINE_DOTS,
                SCAN_LINE_DOTS > 0,
        ;
    }
}

/// The shade `(palette >> 2 * id) & 3` of colour id `id` (0..=3) in a DMG
/// palette register.
proof fn lemma_dmg_shade(id: u8, palette: u8)
    requires
        id <= 3,
    ensures
        spec_apply_palette_dmg(id, palette) == ((palette >> ((id * 2) as u8)) & 3u8) as u16,
{
    assert(((palette & (0x03u8 << (id << 1u8))) >> (id << 1u8)) == ((palette >> ((id * 2) as u8)) & 3u8)) by (bit_vector)
        requires
            id <= 3,
    ;
}

/// On DMG, an object pixel that shows (an opaque colour id, over background
/// colour 0 or with the object's priority) is shaded through OBP1 when bit 4
/// of the object's OAM attributes is set and through OBP0 when it is clear:
/// the shade is `(palette >> 2 * id) & 3` for the pixel's colour id.
pub proof fn lemma_dmg_object_palette(
    s: PpuState,
    i: int,
    colour: u16,
    lcd_x: usize,
    lcd_y: usize,
    bg_priority: bool,
    bg_is_0: bool,
    b0: u8,
    b1: u8,
    b2: u8,
    attributes: u8,
)
    requires
        !s.is_cgb(),
        s.obj_enabled(),
        0 <= i < s.obj_buffer.len(),
        s.obj_buffer[i] == oam_entry_of(b0, b1, b2, attributes),
        b1 <= lcd_x + 8 && lcd_x < b1,
        colour == 0 || attributes & 0x80 == 0,
        s.spec_fetch_tile_pixel(
            false,
            s.obj_buffer[i].spec_tile_id(lcd_y, s.obj_size()) as u8,
            (lcd_x + 8 - b1) as usize,
            (lcd_y + 16 - b0) as usize,
            attributes & 0x20 != 0,
            attributes & 0x40 != 0,
            false,
        ) != 0,
    ensures
        ({
            let id = s.spec_fetch_tile_pixel(
                false,
                s.obj_buffer[i].spec_tile_id(lcd_y, s.obj_size()) as u8,
                (lcd_x + 8 - b1) as usize,
                (lcd_y + 16 - b0) as usize,
                attributes & 0x20 != 0,
                attributes & 0x40 != 0,
                false,
            );
            let palette = if attributes & 0x10 != 0 { s.obp1 } else { s.obp0 };
            s.spec_render_obj_from(i, colour, lcd_x, lcd_y, bg_priority, bg_is_0)
                == ((palette >> ((id * 2) as u8)) & 3u8) as u16
        }),
{
    let obj = s.obj_buffer[i];
    let id = s.spec_fetch_tile_pixel(
        false,
        obj.spec_tile_id(lcd_y, s.obj_size()) as u8,
        (lcd_x + 8 - obj.x) as usize,
        (lcd_y + 16 - obj.y) as usize,
        obj.x_flip,
        obj.y_flip,
        obj.cgb_use_bank_1 && s.is_cgb(),
    );
    assert(id <= 3);
    lemma_dmg_shade(id, if !obj.dmg_palette { s.obp0 } else { s.obp1 });
}

/// On DMG the background and window are blank (shade 0) while LCDC bit 0 is
/// clear; otherwise a pixel of colour id `id` is shaded through BGP as
/// `(BGP >> 2 * id) & 3`.
pub proof fn lemma_dmg_background_palette(s: PpuState, lcd_x: usize, lcd_y: usize)
    requires
        !s.is_cgb(),
    ensures
        ({
            let (c, _p, _z) = s.spec_render_bgwin(lcd_x, lcd_y);
            let is_bg = !s.window_active();
            let (x, y) = s.bgwin_coords(lcd_x, lcd_y);
            let tile_id = s.spec_bgwin_tile_id(tile_map_index(x as int, y as int), is_bg);
            let id = s.spec_fetch_tile_pixel(s.lcdc & 0x10 == 0, tile_id, x, y, false, false, false);
            &&& s.lcdc & 0x01 == 0 ==> c == 0
            &&& s.lcdc & 0x01 != 0 ==> c == ((s.bgp >> ((id * 2) as u8)) & 3u8) as u16
        }),
{
    let is_bg = !s.window_active();
    let (x, y) = s.bgwin_coords(lcd_x, lcd_y);
    let tile_id = s.spec_bgwin_tile_id(tile_map_index(x as int, y as int), is_bg);
    let id = s.spec_fetch_tile_pixel(s.lcdc & 0x10 == 0, tile_id, x, y, false, false, false);
    assert(id <= 3);
    lemma_dmg_shade(id, s.bgp);
}


/// The PPU's mode sequence: OAM scan (80 dots) is followed by drawing, then
/// by HBlank, the three together taking one 456-dot line; after HBlank the
/// next line begins with OAM scan, except after line 143, where VBlank
/// begins (4560 dots, ten lines); after VBlank, line 0 begins with OAM scan.
/// LY changes only at the end of HBlank (by one) and of VBlank (to 0).
pub proof fn lemma_mode_sequence(s: PpuState)
    requires
        s.wf(),
    ensures
        ({
            let n = s.spec_next_mode();
            &&& s.mode == Mode::OamScan2 ==> n.mode == Mode::Drawing3 && n.ly == s.ly && s.mode_end() == 80
            &&& s.mode == Mode::Drawing3 ==> n.mode == Mode::HBlank0 && n.ly == s.ly
                && n.mode_end() == 456 - 80 - s.mode_end()
            &&& s.mode == Mode::HBlank0 ==> n.ly == s.ly + 1 && n.mode == (if s.ly + 1 == 144 {
                Mode::VBlank1
            } else {
                Mode::OamScan2
            })
            &&& s.mode == Mode::VBlank1 ==> n.mode == Mode::OamScan2 && n.ly == 0 && s.mode_end() == 4560
        }),
{
}

} // verus!
