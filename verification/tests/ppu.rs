use gbemulib::cpu::GBModel;
use gbemulib::ppu::{apply_palette_cgb, apply_palette_dmg, dmg_colour, rgb555_to_argb8888, Mode, OAMEntry, Ppu};

#[test]
fn test_bfg_palette() {
    let mut ppu = Ppu::new(GBModel::DMG);
    ppu.write_bgp(0b11001001);

    assert_eq!(ppu.bg_palette(0), 0b01);
    assert_eq!(ppu.bg_palette(1), 0b10);
    assert_eq!(ppu.bg_palette(2), 0b00);
    assert_eq!(ppu.bg_palette(3), 0b11);

    ppu.write_bgp(0b01110010);

    assert_eq!(ppu.bg_palette(0), 0b10);
    assert_eq!(ppu.bg_palette(1), 0b00);
    assert_eq!(ppu.bg_palette(2), 0b11);
    assert_eq!(ppu.bg_palette(3), 0b01);
}

#[test]
fn palette_formulas() {
    assert_eq!(apply_palette_dmg(0, 0b1110_0100), 0);
    assert_eq!(apply_palette_dmg(3, 0b1110_0100), 3);
    assert_eq!(apply_palette_dmg(2, 0b0001_0000), 1);
    let mut cram = [0u8; 64];
    cram[8 * 2 + 2 * 1] = 0x34;
    cram[8 * 2 + 2 * 1 + 1] = 0x12;
    assert_eq!(apply_palette_cgb(1, &cram, 2), 0x1234);
    // white, pure red, pure blue in RGB555 become BGRA bytes
    assert_eq!(rgb555_to_argb8888(0x7FFF), [0xFF, 0xFF, 0xFF, 0xFF]);
    assert_eq!(rgb555_to_argb8888(0x001F), [0x00, 0x00, 0xFF, 0xFF]);
    assert_eq!(rgb555_to_argb8888(0x7C00), [0xFF, 0x00, 0x00, 0xFF]);
    assert_eq!(rgb555_to_argb8888(0x0010), [0x00, 0x00, 0x84, 0xFF]);
    assert_eq!(dmg_colour(0), [0x0F, 0xBC, 0x9B, 0xFF]);
    assert_eq!(dmg_colour(3), [0x0F, 0x38, 0x0F, 0xFF]);
}

#[test]
fn oam_entry_decoding() {
    let e = OAMEntry::new(20, 30, 0x41, 0b1010_1101);
    assert_eq!(e.y, 20);
    assert_eq!(e.x, 30);
    assert_eq!(e.tile_id, 0x41);
    assert_eq!(e.cgb_palette, 5);
    assert!(e.cgb_use_bank_1);
    assert!(!e.dmg_palette);
    assert!(e.x_flip);
    assert!(!e.y_flip);
    assert!(!e.has_priority);
    // 8x16 objects use the even tile on the top half, odd on the bottom
    assert_eq!(e.fetch_tile_id(4, 16), 0x40);
    assert_eq!(e.fetch_tile_id(12, 16), 0x41);
    assert_eq!(e.fetch_tile_id(4, 8), 0x41);
}

#[test]
fn registers_read_back() {
    let mut ppu = Ppu::new(GBModel::DMG);
    ppu.write_io(0xFF42, 7);
    assert_eq!(ppu.read_io(0xFF42), 7);
    // STAT's low three bits are read-only
    ppu.write_io(0xFF41, 0xFF);
    assert_eq!(ppu.read_io(0xFF41) & 0xF8, 0xF8);
    // LY is read-only and reads 0 with the LCD off
    ppu.write_io(0xFF44, 99);
    assert_eq!(ppu.read_io(0xFF44), 0);
    ppu.write_vram(0x8010, 0xAB);
    assert_eq!(ppu.read_vram(0x8010), 0xAB);
    ppu.write_oam(0xFE04, 0x12);
    assert_eq!(ppu.read_oam(0xFE04), 0x12);
}

#[test]
fn cgb_palette_auto_increment() {
    let mut ppu = Ppu::new(GBModel::CGB);
    ppu.write_io(0xFF68, 0x80 | 0x3F);
    ppu.write_io(0xFF69, 0x11);
    // the index wraps within 64 and keeps the auto-increment bit
    assert_eq!(ppu.read_io(0xFF68), 0x80);
    ppu.write_io(0xFF69, 0x22);
    assert_eq!(ppu.read_io(0xFF68), 0x81);
    ppu.write_io(0xFF68, 0x3F);
    assert_eq!(ppu.read_io(0xFF69), 0x11);
    // with the unused bit 6 set, the increment still keeps bit 7
    ppu.write_io(0xFF6A, 0xFF);
    ppu.write_io(0xFF6B, 0x33);
    assert_eq!(ppu.read_io(0xFF6A), 0x80);
}

#[test]
fn lcd_off_ignores_long_steps() {
    let mut ppu = Ppu::new(GBModel::DMG);
    assert_eq!(ppu.read_io(0xFF40), 0);
    ppu.step(255);
    assert_eq!(ppu.read_io(0xFF44), 0);
    assert!(!ppu.entered_hblank());
}

#[test]
fn frame_timing() {
    let mut ppu = Ppu::new(GBModel::DMG);
    ppu.write_io(0xFF40, 0x91);
    // from VBlank on line 0: 10 lines of VBlank, then 144 visible lines
    let mut m_cycles: u32 = 0;
    while !ppu.entered_vblank && m_cycles < 100_000 {
        ppu.step(4);
        m_cycles += 4;
    }
    assert!(ppu.entered_vblank);
    assert_eq!(ppu.mode, Mode::VBlank1);
    assert_eq!(ppu.ly, 144);
    // 4560 dots of VBlank plus 144 lines of 456 dots, in 4-dot M-cycles
    assert_eq!(m_cycles, (4560 + 144 * 456) / 4);
    assert!(ppu.frame_ready());
    assert!(!ppu.frame_ready());
}

#[test]
fn oam_locked_while_scanning() {
    let mut ppu = Ppu::new(GBModel::DMG);
    ppu.write_oam(0xFE00, 0x55);
    ppu.write_io(0xFF40, 0x91);
    while ppu.mode != Mode::OamScan2 {
        ppu.step(1);
    }
    assert_eq!(ppu.read_oam(0xFE00), 0xFF);
    ppu.write_oam(0xFE00, 0x66);
    while ppu.mode != Mode::HBlank0 {
        ppu.step(1);
    }
    assert_eq!(ppu.read_oam(0xFE00), 0x55);
}

#[test]
fn background_pixel_drawn() {
    let mut ppu = Ppu::new(GBModel::DMG);
    // tile 0, row 0: colour id 3 in every pixel
    ppu.write_vram(0x8000, 0xFF);
    ppu.write_vram(0x8001, 0xFF);
    ppu.write_io(0xFF47, 0b1110_0100);
    ppu.write_io(0xFF40, 0x91);
    while ppu.ly != 0 || ppu.mode != Mode::HBlank0 {
        ppu.step(2);
    }
    assert_eq!(&ppu.frame_buffer[0..4], &[0x0F, 0x38, 0x0F, 0xFF]);
    // row 1 of tile 0 is blank: colour id 0 is white
    while ppu.ly != 1 || ppu.mode != Mode::HBlank0 {
        ppu.step(2);
    }
    assert_eq!(&ppu.frame_buffer[640..644], &[0x0F, 0xBC, 0x9B, 0xFF]);
}
