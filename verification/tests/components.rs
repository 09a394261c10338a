use gbemulib::apu::length_counter::LengthCounter;
use gbemulib::cartridge::rtc::Rtc;
use gbemulib::cartridge::mbc::ram_save_fits;
use gbemulib::cartridge::header::Header;
use gbemulib::cartridge::{Cartridge, RomError};
use gbemulib::cpu::GBModel;
use gbemulib::bus::Bus;
use gbemulib::joypad::Joypad;
use gbemulib::timer::{Stepper, Timer};

fn rom_of_type(t: u8, rom_size: u8, ram_size: u8, len: usize) -> Vec<u8> {
    let mut rom = vec![0u8; len];
    rom[0x147] = t;
    rom[0x148] = rom_size;
    rom[0x149] = ram_size;
    let mut x: u8 = 0;
    for i in 0x134..=0x14C {
        x = x.wrapping_sub(rom[i]).wrapping_sub(1);
    }
    rom[0x14D] = x;
    rom
}

#[test]
fn rom_errors() {
    assert_eq!(Cartridge::check_rom(&[0u8; 0x100]), Err(RomError::TooShort));
    let mut bad = rom_of_type(0x00, 0, 0, 0x8000);
    bad[0x14D] ^= 1;
    assert_eq!(Cartridge::check_rom(&bad), Err(RomError::HeaderChecksum));
    assert_eq!(Cartridge::check_rom(&rom_of_type(0x20, 0, 0, 0x8000)), Err(RomError::UnimplementedType(0x20)));
    assert_eq!(Cartridge::check_rom(&rom_of_type(0x42, 0, 0, 0x8000)), Err(RomError::UnknownType(0x42)));
    assert_eq!(Cartridge::check_rom(&rom_of_type(0x01, 9, 0, 0x8000)), Err(RomError::InvalidRomSize));
    assert!(Cartridge::check_rom(&rom_of_type(0x00, 0, 0, 0x8000)).is_ok());
    assert!(Cartridge::check_rom(&rom_of_type(0x19, 1, 3, 0x10000)).is_ok());
}

#[test]
fn mbc5_ram_reads_back_what_was_written() {
    let rom = rom_of_type(0x1A, 1, 3, 0x10000);
    let mut cart = Cartridge::from_bytes(&rom, 0);
    // RAM disabled: reads are open bus
    assert_eq!(cart.read_ram(0xA000), 0xFF);
    cart.write_rom(0x0000, 0x0A);
    cart.write_ram(0xA123, 0x5C);
    assert_eq!(cart.read_ram(0xA123), 0x5C);
    // another RAM bank does not see it
    cart.write_rom(0x4000, 0x01);
    assert_eq!(cart.read_ram(0xA123), 0x00);
    cart.write_rom(0x4000, 0x00);
    assert_eq!(cart.read_ram(0xA123), 0x5C);
}

#[test]
fn mbc1_bank_switching() {
    let mut rom = rom_of_type(0x01, 2, 0, 0x20000);
    rom[0x4000 * 3] = 0x33;
    rom[0x4000] = 0x11;
    let mut cart = Cartridge::from_bytes(&rom, 0);
    assert_eq!(cart.read_rom(0x4000), 0x11);
    cart.write_rom(0x2000, 3);
    assert_eq!(cart.read_rom(0x4000), 0x33);
    // bank 0 is mapped as bank 1
    cart.write_rom(0x2000, 0);
    assert_eq!(cart.read_rom(0x4000), 0x11);
}

#[test]
fn mbc2_ram_keeps_low_nibble() {
    let rom = rom_of_type(0x05, 1, 0, 0x10000);
    let mut cart = Cartridge::from_bytes(&rom, 0);
    cart.write_rom(0x0000, 0x0A);
    cart.write_ram(0xA010, 0xAB);
    assert_eq!(cart.read_ram(0xA010), 0xFB);
    // 512 half-bytes repeat through the area
    assert_eq!(cart.read_ram(0xA210), 0xFB);
}

#[test]
fn joypad_selection_and_buttons() {
    let mut j = Joypad::new();
    assert_eq!(j.read_joypad(), 0xFF);
    // select the d-pad (bit 4 low); RIGHT pressed (bit 0 of status low)
    j.write_joypad(0x20);
    assert_eq!(j.read_joypad() & 0x30, 0x20);
    j.update(0b1111_1110);
    assert_eq!(j.read_joypad() & 0x0F, 0x0E);
    assert!(j.interrupt_triggered());
    // writes never change the button lines
    j.write_joypad(0x10);
    assert_eq!(j.read_joypad() & 0x0F, 0x0E);
}

#[test]
fn stepper_counts_periods() {
    let mut s = Stepper::new(0, 256);
    assert_eq!(s.step(255), 0);
    assert_eq!(s.step(1), 1);
    assert_eq!(s.step(600), 2);
    assert_eq!(s.steps_so_far, 88);
}

#[test]
fn timer_div_and_tima() {
    let mut t = Timer::new();
    assert!(!t.step(255));
    assert_eq!(t.read_io(0xFF04), 0);
    assert!(!t.step(1));
    assert_eq!(t.read_io(0xFF04), 1);
    // TAC = 0b101: enabled, every 16 T-cycles; a TMA write takes effect
    // after the next TIMA step
    t.write_io(0xFF06, 0x80);
    t.write_io(0xFF07, 0b101);
    t.write_io(0xFF05, 0xFE);
    assert!(!t.step(16));
    assert_eq!(t.read_io(0xFF05), 0xFF);
    assert_eq!(t.read_io(0xFF06), 0x80);
    assert!(t.step(16));
    assert_eq!(t.read_io(0xFF05), 0x80);
    t.write_io(0xFF04, 0x12);
    assert_eq!(t.read_io(0xFF04), 0);
}

#[test]
fn length_counter_reload() {
    let mut l = LengthCounter::new(64);
    l.set_ticks(0x3F);
    assert_eq!(l.ticks, 1);
    l.set_ticks(0xC0);
    assert_eq!(l.ticks, 64);
    l.set_tick_enable(true);
    l.on_trigger();
    assert!(l.channel_on());
}

#[test]
fn bus_plain_ram() {
    let rom = rom_of_type(0x00, 0, 0, 0x8000);
    let mut bus = Bus::new(Cartridge::from_bytes(&rom, 0), GBModel::DMG);
    bus.write_byte(0xC010, 0x99);
    assert_eq!(bus.read_byte(0xC010), 0x99);
    assert_eq!(bus.read_byte(0xE010), 0x99);
    bus.write_byte(0xFDFF, 0x42);
    assert_eq!(bus.read_byte(0xDDFF), 0x42);
    bus.write_byte(0xFF90, 0x17);
    assert_eq!(bus.read_byte(0xFF90), 0x17);
    bus.write_byte(0xFEB0, 0x17);
    assert_eq!(bus.read_byte(0xFEB0), 0xFF);
    bus.write_byte(0xFFFF, 0x1F);
    assert_eq!(bus.read_byte(0xFFFF), 0x1F);
    bus.write_byte(0xFF0F, 0x00);
    assert_eq!(bus.read_byte(0xFF0F), 0xE0);
    // CGB registers are not there on DMG
    bus.write_byte(0xFF70, 0x02);
    assert_eq!(bus.read_byte(0xFF70), 0xFF);
}

#[test]
fn bus_oam_dma() {
    let rom = rom_of_type(0x00, 0, 0, 0x8000);
    let mut bus = Bus::new(Cartridge::from_bytes(&rom, 0), GBModel::DMG);
    for i in 0..0xA0u16 {
        bus.write_byte(0xC000 + i, i as u8);
    }
    bus.write_byte(0xFF46, 0xC0);
    assert_eq!(bus.read_byte(0xFE00), 0x00);
    // the rest follows one byte per M-cycle
    bus.partial_step(4 * 159);
    assert_eq!(bus.read_byte(0xFE9F), 0x9F);
    assert_eq!(bus.read_byte(0xFE50), 0x50);
    assert_eq!(bus.read_byte(0xFF46), 0xC0);
}

#[test]
fn battery_ram_load_and_save() {
    let rom = rom_of_type(0x03, 1, 3, 0x10000);
    let mut cart = Cartridge::from_bytes(&rom, 0);
    let data: Vec<u8> = (0..0x2005usize).map(|i| (i % 251) as u8).collect();
    cart.load_save(&data);
    cart.write_rom(0x0000, 0x0A);
    assert_eq!(cart.read_ram(0xA007), 7);
    assert_eq!(cart.read_ram(0xA000 + 300), (300 % 251) as u8);
    let saved = cart.save_mbc_state();
    assert_eq!(saved.ram, Some(data[..0x2000].to_vec()));
    assert!(saved.rtc.is_none());

    let rom2 = rom_of_type(0x06, 1, 0, 0x10000);
    let mut cart2 = Cartridge::from_bytes(&rom2, 0);
    let data2: Vec<u8> = (0..0x2000usize).map(|i| (i * 7) as u8).collect();
    cart2.load_save(&data2);
    cart2.write_rom(0x0000, 0x0A);
    assert_eq!(cart2.read_ram(0xA003), 0xF0 | (21 & 0xF));
    let saved2 = cart2.save_mbc_state().ram.unwrap();
    assert_eq!(saved2.len(), 0x2000);
    assert_eq!(saved2[3], 21 & 0xF);
    assert_eq!(saved2[0x300], 0);

    // no battery: nothing to save
    let plain = Cartridge::from_bytes(&rom_of_type(0x01, 1, 0, 0x10000), 0);
    let none = plain.save_mbc_state();
    assert!(none.ram.is_none() && none.rtc.is_none());
}

#[test]
fn rtc_counts_and_saves() {
    let mut rtc = Rtc::new(1000);
    rtc.update_registers_at(1000 + 86400 + 3600 + 60 + 1);
    assert_eq!(rtc.rtc_registers, [1, 1, 1, 1, 0]);
    assert_eq!(rtc.register_time, 1000 + 90061);
    let save = rtc.to_save_at_saved_time();
    assert_eq!(&save[5..13], &(1000u64 + 90061).to_be_bytes());
    let back = Rtc::from_save_at_saved_time(save);
    assert_eq!(back.rtc_registers, rtc.rtc_registers);
    assert_eq!(back.register_time, rtc.register_time);
    // 300 more days carry into the day counter's bit 8
    rtc.update_registers_at(rtc.register_time + 300 * 86400);
    assert_eq!(rtc.rtc_registers[3], (301 % 256) as u8);
    assert_eq!(rtc.rtc_registers[4], 0x01);
    // past 511 days the overflow flag is set
    rtc.update_registers_at(rtc.register_time + 300 * 86400);
    assert_eq!(rtc.rtc_registers[4] & 0x80, 0x80);
    // a write to the selected register reads back
    rtc.set_active_reg(0x0B);
    rtc.write(0x42);
    assert_eq!(rtc.read(), 0x42);
}

#[test]
fn rtc_save_round_trip_and_latch() {
    // a save restored and saved again at its own time comes back unchanged
    let mut save = [0u8; 13];
    save[0] = 59;
    save[1] = 12;
    save[2] = 23;
    save[3] = 0x34;
    save[4] = 0x41;
    save[5..13].copy_from_slice(&5000u64.to_be_bytes());
    let rtc = Rtc::from_save(save, 5000);
    assert_eq!(rtc.to_save(5000), save);
    // a clock behind the saved time counts as no time elapsed
    assert_eq!(Rtc::from_save(save, 10).register_time, 5000);
    // restoring an hour and a second later advances the registers
    let later = Rtc::from_save(save, 5000 + 3601);
    assert_eq!(later.register_time, 5000 + 3601);
    assert_eq!(later.rtc_registers[0], 0);
    assert_eq!(later.rtc_registers[1], 12);
    assert_eq!(later.rtc_registers[2], 0);
    let bytes = later.to_save(5000 + 3601);
    assert_eq!(&bytes[5..13], &(5000u64 + 3601).to_be_bytes());
    // latching shows the advanced registers
    let mut l = Rtc::new(100);
    l.latch_clock_data(100 + 61);
    assert_eq!(l.out_registers, [1, 1, 0, 0, 0]);
    assert_eq!(l.register_time, 161);
    // an MBC3 with a timer latches at the clock handed in
    let rom = rom_of_type(0x10, 1, 3, 0x10000);
    let mut cart = Cartridge::from_bytes(&rom, 1000);
    cart.set_clock(1000 + 120);
    cart.write_rom(0x0000, 0x0A);
    cart.write_rom(0x6000, 0x00);
    cart.write_rom(0x6000, 0x01);
    cart.write_rom(0x4000, 0x09);
    assert_eq!(cart.read_ram(0xA000), 2);
    let saved = cart.save_mbc_state();
    let rtc_bytes = saved.rtc.unwrap();
    assert_eq!(rtc_bytes[1], 2);
    assert_eq!(&rtc_bytes[5..13], &1120u64.to_be_bytes());
}

fn fix_checksum(rom: &mut Vec<u8>) {
    let mut x: u8 = 0;
    for i in 0x134..=0x14C {
        x = x.wrapping_sub(rom[i]).wrapping_sub(1);
    }
    rom[0x14D] = x;
}

#[test]
fn rom_errors_each_check() {
    let mut title = rom_of_type(0x00, 0, 0, 0x8000);
    title[0x134] = 0xFF;
    fix_checksum(&mut title);
    assert_eq!(Cartridge::check_rom(&title), Err(RomError::InvalidTitle));
    title[0x134] = b'A';
    fix_checksum(&mut title);
    assert!(Cartridge::check_rom(&title).is_ok());
    assert_eq!(Cartridge::check_rom(&rom_of_type(0x01, 1, 6, 0x10000)), Err(RomError::InvalidRamSize));
    assert_eq!(Cartridge::check_rom(&rom_of_type(0x00, 0, 0, 0x8001)), Err(RomError::TooLarge));
    assert_eq!(Cartridge::check_rom(&rom_of_type(0x19, 1, 0, 0x10001)), Err(RomError::TooLarge));
    assert_eq!(Cartridge::check_rom(&rom_of_type(0x01, 7, 0, 0x10000)), Err(RomError::TooLarge));
}

#[test]
fn rom_banks_past_the_first_two_hold_the_image() {
    let mut rom = rom_of_type(0x19, 2, 0, 0x18000);
    rom[0x8000] = 0x5A;
    rom[0xBFFF] = 0xA5;
    fix_checksum(&mut rom);
    let mut cart = Cartridge::from_bytes(&rom, 0);
    cart.write_rom(0x2000, 2);
    assert_eq!(cart.read_rom(0x4000), 0x5A);
    assert_eq!(cart.read_rom(0x7FFF), 0xA5);
    // the image is padded with zeros to its 8 banks
    cart.write_rom(0x2000, 7);
    assert_eq!(cart.read_rom(0x4000), 0x00);
}

#[test]
fn controller_descriptions() {
    let describe = |t: u8, rom_size: u8, ram_size: u8, len: usize| {
        Cartridge::from_bytes(&rom_of_type(t, rom_size, ram_size, len), 0).mbc.display()
    };
    assert_eq!(describe(0x00, 0, 0, 0x8000), "No Mbc");
    assert_eq!(describe(0x03, 2, 3, 0x20000), "Mbc1 w/ 8 ROM banks + 4 RAM banks + Battery");
    assert_eq!(describe(0x06, 1, 0, 0x10000), "Mbc2 w/ 4 ROM banks + Battery");
    assert_eq!(describe(0x10, 6, 3, 0x10000), "Mbc3 w/ 128 ROM banks + RTC Timer + 4 RAM banks + Battery");
    assert_eq!(describe(0x1C, 1, 0, 0x10000), "Mbc5 w/ 4 ROM banks + Rumble (not supported)");
}

#[test]
fn ram_saves_that_fit() {
    assert!(ram_save_fits(0x03, 3, 0x8000));
    assert!(!ram_save_fits(0x03, 3, 0x2000));
    assert!(ram_save_fits(0x06, 0, 0x2000));
    assert!(!ram_save_fits(0x06, 0, 0x1FFF));
    assert!(ram_save_fits(0x13, 3, 0x100));
    assert!(ram_save_fits(0x01, 0, 5));
}

#[test]
fn header_hash_is_stable() {
    let rom = rom_of_type(0x01, 1, 0, 0x10000);
    let mut hb = [0u8; 0x50];
    hb.copy_from_slice(&rom[0x100..0x150]);
    let h1 = Header::new(hb).get_hash_string();
    let h2 = Header::new(hb).get_hash_string();
    assert_eq!(h1, h2);
    assert!(!h1.is_empty() && h1.chars().all(|c| c.is_ascii_digit()));
    let mut other = rom.clone();
    other[0x134] = b'Z';
    fix_checksum(&mut other);
    let mut hb2 = [0u8; 0x50];
    hb2.copy_from_slice(&other[0x100..0x150]);
    assert_ne!(Header::new(hb2).get_hash_string(), h1);
}

#[test]
fn manufacturer_code_needs_utf8() {
    let mut rom = rom_of_type(0x01, 1, 0, 0x10000);
    rom[0x13F] = 0xC3;
    rom[0x140] = 0xA9;
    rom[0x141] = b'A';
    rom[0x142] = 0;
    fix_checksum(&mut rom);
    let mut hb = [0u8; 0x50];
    hb.copy_from_slice(&rom[0x100..0x150]);
    assert_eq!(Header::new(hb).manufacturer_code, vec![0xC3, 0xA9, b'A']);
    rom[0x140] = 0x41;
    fix_checksum(&mut rom);
    hb.copy_from_slice(&rom[0x100..0x150]);
    assert!(Header::new(hb).manufacturer_code.is_empty());
}
