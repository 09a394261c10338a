use gbemulib::cartridge::Cartridge;

/// A ROM image of `2 << rom_code` banks whose every bank starts with its own
/// number (low byte, then high byte), with a valid header.
fn banked_rom(cart_type: u8, rom_code: u8, ram_code: u8) -> Vec<u8> {
    let banks: usize = 2 << rom_code;
    let mut rom = vec![0u8; banks * 0x4000];
    for b in 0..banks {
        rom[b * 0x4000] = b as u8;
        rom[b * 0x4000 + 1] = (b >> 8) as u8;
    }
    rom[0x147] = cart_type;
    rom[0x148] = rom_code;
    rom[0x149] = ram_code;
    let mut x: u8 = 0;
    for i in 0x134..=0x14C {
        x = x.wrapping_sub(rom[i]).wrapping_sub(1);
    }
    rom[0x14D] = x;
    assert!(Cartridge::check_rom(&rom).is_ok());
    rom
}

fn bank_at(cart: &Cartridge, addr: usize) -> usize {
    cart.read_rom(addr) as usize | ((cart.read_rom(addr + 1) as usize) << 8)
}

#[test]
fn mbc1_bits_test() {
    let rom = banked_rom(0x02, 6, 3);
    let mut cart = Cartridge::from_bytes(&rom, 0);
    // BANK1: five bits, zero reads as one, any address in 0x2000..=0x3FFF
    for v in 0..=255u8 {
        let addr = 0x2000 + (v as usize) * 0x1F;
        cart.write_rom(addr, v);
        let low = if v & 0x1F == 0 { 1 } else { (v & 0x1F) as usize };
        assert_eq!(bank_at(&cart, 0x4000), low);
    }
    // BANK2: two bits, placed above BANK1
    cart.write_rom(0x2000, 1);
    for v in 0..=255u8 {
        cart.write_rom(0x4000 + (v as usize) * 0x1F, v);
        assert_eq!(bank_at(&cart, 0x4000), (((v & 3) as usize) << 5) | 1);
    }
    // MODE: one bit; mode 1 maps BANK2 into 0x0000..=0x3FFF too
    cart.write_rom(0x4000, 2);
    for v in 0..=255u8 {
        cart.write_rom(0x6000 + (v as usize) * 0x1F, v);
        let expected = if v & 1 == 1 { 0x40 } else { 0 };
        assert_eq!(bank_at(&cart, 0x0000), expected);
        assert_eq!(bank_at(&cart, 0x4000), 0x41);
    }
    // RAMG: RAM is enabled only by a low nibble of 0xA
    cart.write_rom(0x6000, 0);
    cart.write_rom(0x0000, 0x0A);
    cart.write_ram(0xA000, 0x42);
    for v in 0..=255u8 {
        cart.write_rom((v as usize) * 0x1F, v);
        let expected = if v & 0xF == 0xA { 0x42 } else { 0xFF };
        assert_eq!(cart.read_ram(0xA000), expected);
    }
}

#[test]
fn mbc1_rom_test() {
    for rom_code in 1..=6u8 {
        let banks: usize = 2 << rom_code;
        let rom = banked_rom(0x01, rom_code, 0);
        let mut cart = Cartridge::from_bytes(&rom, 0);
        assert_eq!(bank_at(&cart, 0x0000), 0);
        assert_eq!(bank_at(&cart, 0x4000), 1);
        for b in 0..banks {
            cart.write_rom(0x2000, (b & 0x1F) as u8);
            cart.write_rom(0x4000, (b >> 5) as u8);
            let expected = if b & 0x1F == 0 { b + 1 } else { b };
            assert_eq!(bank_at(&cart, 0x4000), expected);
            assert_eq!(bank_at(&cart, 0x0000), 0);
            if banks > 32 {
                cart.write_rom(0x6000, 1);
                assert_eq!(bank_at(&cart, 0x0000), b & 0x60);
                cart.write_rom(0x6000, 0);
            }
        }
        // bank numbers beyond the ROM wrap around
        cart.write_rom(0x4000, 0);
        cart.write_rom(0x2000, (banks + 2) as u8);
        let low_mask = if banks - 1 < 0x1F { banks - 1 } else { 0x1F };
        let wrapped = if (banks + 2) & 0x1F == 0 { banks + 3 } else { banks + 2 };
        assert_eq!(bank_at(&cart, 0x4000), wrapped & low_mask);
    }
}

#[test]
fn mbc1_ram_test() {
    // a single 8 KiB bank: the bank register does not select RAM
    let mut one = Cartridge::from_bytes(&banked_rom(0x02, 1, 2), 0);
    assert_eq!(one.read_ram(0xA000), 0xFF);
    one.write_ram(0xA000, 0x12);
    one.write_rom(0x0000, 0x0A);
    assert_eq!(one.read_ram(0xA000), 0x00);
    one.write_rom(0x6000, 1);
    one.write_rom(0x4000, 3);
    one.write_ram(0xBFFF, 0x34);
    one.write_rom(0x4000, 0);
    assert_eq!(one.read_ram(0xBFFF), 0x34);

    // four banks, selected by BANK2 in mode 1
    let mut four = Cartridge::from_bytes(&banked_rom(0x02, 1, 3), 0);
    four.write_rom(0x0000, 0x0A);
    four.write_rom(0x6000, 1);
    for bank in 0..4usize {
        four.write_rom(0x4000, bank as u8);
        for i in 0..0x2000usize {
            four.write_ram(0xA000 + i, (bank * 7 + i) as u8);
        }
    }
    for bank in 0..4usize {
        four.write_rom(0x4000, bank as u8);
        for i in 0..0x2000usize {
            assert_eq!(four.read_ram(0xA000 + i), (bank * 7 + i) as u8);
        }
    }
    // mode 0 always uses bank 0
    four.write_rom(0x6000, 0);
    four.write_rom(0x4000, 3);
    assert_eq!(four.read_ram(0xA001), 1);
    // disabling RAM hides it and drops writes
    four.write_rom(0x0000, 0x00);
    four.write_ram(0xA001, 0x99);
    assert_eq!(four.read_ram(0xA001), 0xFF);
    four.write_rom(0x0000, 0x0A);
    assert_eq!(four.read_ram(0xA001), 1);
}

#[test]
fn mbc2_bits_test() {
    let rom = banked_rom(0x05, 3, 0);
    let mut cart = Cartridge::from_bytes(&rom, 0);
    // ROMB: address bit 8 set, four bits, zero reads as one
    for v in 0..=255u8 {
        cart.write_rom(0x2100, v);
        let expected = if v & 0xF == 0 { 1 } else { (v & 0xF) as usize };
        assert_eq!(bank_at(&cart, 0x4000), expected);
    }
    cart.write_rom(0x0100, 5);
    assert_eq!(bank_at(&cart, 0x4000), 5);
    // RAMG: address bit 8 clear, low nibble 0xA enables
    cart.write_rom(0x0000, 0x0A);
    cart.write_ram(0xA000, 0x07);
    for v in 0..=255u8 {
        cart.write_rom(0x3000 | ((v as usize) & 0xFF), v);
        let expected = if v & 0xF == 0xA { 0xF7 } else { 0xFF };
        assert_eq!(cart.read_ram(0xA000), expected);
        assert_eq!(bank_at(&cart, 0x4000), 5);
    }
    // writes above 0x3FFF change nothing
    cart.write_rom(0x0000, 0x0A);
    for addr in [0x4000usize, 0x4100, 0x5FFF, 0x6000, 0x7FFF] {
        cart.write_rom(addr, 0x00);
        cart.write_rom(addr, 0x03);
        assert_eq!(bank_at(&cart, 0x4000), 5);
        assert_eq!(cart.read_ram(0xA000), 0xF7);
    }
}

#[test]
fn mbc2_rom_test() {
    for rom_code in 1..=3u8 {
        let banks: usize = 2 << rom_code;
        let rom = banked_rom(0x05, rom_code, 0);
        let mut cart = Cartridge::from_bytes(&rom, 0);
        for b in 0..banks {
            cart.write_rom(0x2100, b as u8);
            let expected = if b == 0 { 1 } else { b };
            assert_eq!(bank_at(&cart, 0x4000), expected);
            assert_eq!(bank_at(&cart, 0x0000), 0);
        }
        cart.write_rom(0x2100, (banks + 3) as u8);
        assert_eq!(bank_at(&cart, 0x4000), (banks + 3) & 0xF & (banks - 1));
    }
}

#[test]
fn mbc2_ram_test() {
    let rom = banked_rom(0x06, 1, 0);
    let mut cart = Cartridge::from_bytes(&rom, 0);
    assert_eq!(cart.read_ram(0xA000), 0xFF);
    cart.write_rom(0x0000, 0x0A);
    for i in 0..0x200usize {
        cart.write_ram(0xA000 + i, (i * 3) as u8);
    }
    for off in 0..0x2000usize {
        let i = off & 0x1FF;
        assert_eq!(cart.read_ram(0xA000 + off), 0xF0 | (((i * 3) as u8) & 0xF));
    }
    // the 512 half-bytes repeat: a write through an echo lands on the same cell
    cart.write_ram(0xBE05, 0x0C);
    assert_eq!(cart.read_ram(0xA005), 0xFC);
    cart.write_rom(0x0000, 0x00);
    assert_eq!(cart.read_ram(0xA005), 0xFF);
    cart.write_ram(0xA005, 0x01);
    cart.write_rom(0x0000, 0x0A);
    assert_eq!(cart.read_ram(0xA005), 0xFC);
}

#[test]
fn mbc5_rom_test() {
    for rom_code in 1..=8u8 {
        let banks: usize = 2 << rom_code;
        let rom = banked_rom(0x19, rom_code, 0);
        let mut cart = Cartridge::from_bytes(&rom, 0);
        assert_eq!(bank_at(&cart, 0x4000), 1);
        for b in 0..banks {
            cart.write_rom(0x2000, (b & 0xFF) as u8);
            cart.write_rom(0x3000, (b >> 8) as u8);
            assert_eq!(bank_at(&cart, 0x4000), b);
            assert_eq!(bank_at(&cart, 0x0000), 0);
        }
        // bank numbers beyond the ROM wrap around
        cart.write_rom(0x2000, 0xFF);
        assert_eq!(bank_at(&cart, 0x4000), 0xFF & (banks - 1));
    }
}
