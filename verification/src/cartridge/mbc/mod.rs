use vstd::prelude::*;
use crate::cartridge::mbc::mbc1::Mbc1;
use crate::cartridge::mbc::mbc2::Mbc2;
use crate::cartridge::mbc::mbc3::Mbc3;
use crate::cartridge::mbc::mbc5::Mbc5;
use crate::cartridge::mbc::no_mbc::NoMbc;
use crate::cartridge::header::{Header, rom_banks_of, ram_banks_of};
use crate::cartridge::rtc::{Rtc, RTC_SAVE_SIZE};
use crate::text::{decimal_digits, decimal_string};
use vstd::string::StringExecFns;

pub mod mbc1;
pub mod mbc2;
pub mod mbc3;
pub mod mbc5;
pub mod no_mbc;

verus! {

broadcast use vstd::array::axiom_spec_array_update, vstd::array::axiom_array_ext_equal;

pub const ROM_MEMORY_SPACE: usize = 0x8000;

pub const RAM_MEMORY_SPACE: usize = 0x2000;

pub const ROM_BANK_SIZE: usize = 0x4000;

pub const RAM_BANK_SIZE: usize = 0x2000;

/// Cartridge RAM is at most 16 banks of 8 KiB.
pub const MAX_RAM_SIZE: usize = 0x20000;

pub const RAM_START: usize = 0xA000;

pub const RAM_END: usize = 0xBFFF;

/// The byte at `i` of a memory, or 0xFF (open bus) outside it.
pub open spec fn byte_or_open(m: Seq<u8>, i: int) -> u8 {
    if 0 <= i < m.len() { m[i] } else { 0xFF }
}

/// Byte `i` of a ROM image padded with zeros.
pub open spec fn image_byte(bytes: Seq<u8>, i: int) -> u8 {
    if 0 <= i < bytes.len() { bytes[i] } else { 0 }
}

/// Reads byte `i` of a memory, or 0xFF outside it.
pub fn read_or_open(m: &Vec<u8>, i: usize) -> (r: u8)
    ensures
        r == byte_or_open(m@, i as int),
{
    if i < m.len() { m[i] } else { 0xFF }
}

/// Cartridge RAM: a fixed-capacity store of which the first `len` bytes are
/// the cartridge's RAM.
pub open spec fn ram_read(ram: [u8; MAX_RAM_SIZE], len: usize, i: int) -> u8 {
    if 0 <= i < len && i < MAX_RAM_SIZE { ram@[i] } else { 0xFF }
}

/// Cartridge RAM after a write of `byte` at `i`; writes outside the RAM
/// are ignored.
pub open spec fn ram_written(ram: [u8; MAX_RAM_SIZE], len: usize, i: int, byte: u8) -> [u8; MAX_RAM_SIZE] {
    if 0 <= i < len && i < MAX_RAM_SIZE { vstd::array::spec_array_update(ram, i, byte) } else { ram }
}

pub fn ram_read_exec(ram: &[u8; MAX_RAM_SIZE], len: usize, i: usize) -> (r: u8)
    ensures
        r == ram_read(*ram, len, i as int),
{
    if i < len && i < MAX_RAM_SIZE { ram[i] } else { 0xFF }
}

pub fn ram_write_exec(ram: &mut [u8; MAX_RAM_SIZE], len: usize, i: usize, byte: u8)
    ensures
        *final(ram) == ram_written(*old(ram), len, i as int, byte),
{
    if i < len && i < MAX_RAM_SIZE {
        ram[i] = byte;
        assert(*ram =~= vstd::array::spec_array_update(*old(ram), i as int, byte));
    }
}

/// Copies `data` into the start of a zeroed RAM store.
pub fn ram_from_bytes(data: &Vec<u8>) -> (r: [u8; MAX_RAM_SIZE])
    requires
        data@.len() <= MAX_RAM_SIZE,
    ensures
        forall|i: int| 0 <= i < data@.len() ==> r@[i] == data@[i],
        forall|i: int| data@.len() <= i < MAX_RAM_SIZE ==> r@[i] == 0,
{
    let mut ram = [0u8; MAX_RAM_SIZE];
    let mut i: usize = 0;
    while i < data.len()
        invariant
            i <= data@.len() <= MAX_RAM_SIZE,
            forall|j: int| 0 <= j < i ==> ram@[j] == data@[j],
            forall|j: int| i <= j < MAX_RAM_SIZE ==> ram@[j] == 0,
        decreases data@.len() - i,
    {
        ram[i] = data[i];
        i = i + 1;
    }
    ram
}

/// The first `len` bytes of a RAM store.
pub fn ram_prefix(ram: &[u8; MAX_RAM_SIZE], len: usize) -> (r: Vec<u8>)
    requires
        len <= MAX_RAM_SIZE,
    ensures
        r@ == ram@.subrange(0, len as int),
{
    let mut out: Vec<u8> = Vec::new();
    let mut i: usize = 0;
    while i < len
        invariant
            i <= len <= MAX_RAM_SIZE,
            out@ == ram@.subrange(0, i as int),
        decreases len - i,
    {
        out.push(ram[i]);
        i = i + 1;
        assert(out@ =~= ram@.subrange(0, i as int));
    }
    out
}

/// The memory bank controller of a cartridge.
pub enum Mbc {
    NoMbc(NoMbc),
    Mbc1(Mbc1),
    Mbc2(Mbc2),
    Mbc3(Mbc3),
    Mbc5(Mbc5),
}

/// What a battery-backed cartridge has to save.
pub struct SaveData {
    pub ram: Option<Vec<u8>>,
    pub rtc: Option<[u8; RTC_SAVE_SIZE]>,
}

/// The cartridge type codes this library emulates: no MBC, MBC1, MBC2,
/// MBC3 and MBC5 (with their RAM, battery, timer and rumble variants).
pub open spec fn supported_type(t: u8) -> bool {
    t == 0x00 || t == 0x01 || t == 0x02 || t == 0x03 || t == 0x05 || t == 0x06 || t == 0x0F || t == 0x10
        || t == 0x11 || t == 0x12 || t == 0x13 || t == 0x19 || t == 0x1A || t == 0x1B || t == 0x1C
        || t == 0x1D || t == 0x1E
}

/// Whether a cartridge type has a battery.
pub open spec fn type_has_battery(t: u8) -> bool {
    t == 0x03 || t == 0x06 || t == 0x0F || t == 0x10 || t == 0x13 || t == 0x1B || t == 0x1E
}

/// Whether a cartridge type has RAM banks declared by the header.
pub open spec fn type_has_banked_ram(t: u8) -> bool {
    t == 0x02 || t == 0x03 || t == 0x10 || t == 0x12 || t == 0x13 || t == 0x1A || t == 0x1B || t == 0x1D
        || t == 0x1E
}

/// Whether a cartridge type has a real-time clock.
pub open spec fn type_has_rtc(t: u8) -> bool {
    t == 0x0F || t == 0x10
}

/// Whether a ROM image with this header can be loaded: supported type,
/// known size codes, an image no larger than its banks, and (MBC1) at most
/// 128 banks.
pub open spec fn mbc_accepts(bytes: Seq<u8>, t: u8, rom_size: u8, ram_size: u8) -> bool {
    &&& supported_type(t)
    &&& rom_size <= 8
    &&& ram_size <= 5
    &&& (t == 0x00 ==> bytes.len() <= ROM_MEMORY_SPACE)
    &&& (t != 0x00 ==> bytes.len() <= rom_banks_of(rom_size) * ROM_BANK_SIZE)
    &&& ((t == 0x01 || t == 0x02 || t == 0x03) ==> rom_size <= 6)
}

/// Whether saves fit the cartridge: a RAM save of exactly the declared RAM
/// (MBC1, MBC5), of at least one bank (MBC2) or within the RAM capacity
/// (MBC3).
pub open spec fn saves_fit(t: u8, ram_size: u8, saved_ram: Option<Vec<u8>>, saved_rtc: Option<Rtc>) -> bool {
    &&& match saved_ram {
        Some(s) => ram_save_fits_len(t, ram_size, s@.len()),
        None => true,
    }
    &&& (saved_rtc matches Some(c) ==> c.wf())
}

/// Whether a RAM save of `len` bytes fits a cartridge of type `t` with RAM
/// size code `ram_size` (any save fits a type without a battery, which
/// ignores it).
pub open spec fn ram_save_fits_len(t: u8, ram_size: u8, len: nat) -> bool {
    type_has_battery(t) ==> {
        if t == 0x06 {
            len >= RAM_BANK_SIZE
        } else if t == 0x10 || t == 0x13 {
            len <= MAX_RAM_SIZE
        } else if t == 0x0F {
            true
        } else {
            len == ram_banks_of(ram_size) * RAM_BANK_SIZE
        }
    }
}

/// Whether a RAM save of `len` bytes fits a cartridge of type `t` with RAM
/// size code `ram_size`.
pub fn ram_save_fits(t: u8, ram_size: u8, len: usize) -> (r: bool)
    ensures
        r == ram_save_fits_len(t, ram_size, len as nat),
{
    let battery = t == 0x03 || t == 0x06 || t == 0x0F || t == 0x10 || t == 0x13 || t == 0x1B || t == 0x1E;
    if !battery {
        true
    } else if t == 0x06 {
        len >= RAM_BANK_SIZE
    } else if t == 0x10 || t == 0x13 {
        len <= MAX_RAM_SIZE
    } else if t == 0x0F {
        true
    } else {
        let banks: usize = if ram_size == 2 {
            1
        } else if ram_size == 3 {
            4
        } else if ram_size == 4 {
            16
        } else if ram_size == 5 {
            8
        } else {
            0
        };
        len == banks * RAM_BANK_SIZE
    }
}

/// `n` zero bytes.
pub open spec fn zeros(n: nat) -> Seq<u8> {
    Seq::new(n, |i: int| 0u8)
}

/// A ROM image padded with zeros to `len` bytes.
pub open spec fn padded_image(bytes: Seq<u8>, len: nat) -> Seq<u8> {
    bytes + zeros((len - bytes.len()) as nat)
}

/// The RAM a controller starts with: the battery save when there is one,
/// else `len` zero bytes.
pub open spec fn initial_ram(saved_ram: Option<Vec<u8>>, battery: bool, len: nat) -> Seq<u8> {
    if battery && saved_ram is Some { saved_ram->0@ } else { zeros(len) }
}

/// The ROM banks of an image: the image padded with zeros to `banks` banks.
pub fn rom_banks_from_bytes(bytes: &[u8], banks: usize) -> (r: Vec<u8>)
    requires
        banks <= 512,
        bytes@.len() <= banks * ROM_BANK_SIZE,
    ensures
        r@.len() == banks * ROM_BANK_SIZE,
        forall|i: int| 0 <= i < bytes@.len() ==> r@[i] == bytes@[i],
        forall|i: int| bytes@.len() <= i < r@.len() ==> r@[i] == 0,
{
    let total = banks * ROM_BANK_SIZE;
    let mut rom: Vec<u8> = Vec::new();
    let mut i: usize = 0;
    while i < total
        invariant
            i <= total == banks * ROM_BANK_SIZE,
            bytes@.len() <= total,
            rom@.len() == i,
            forall|j: int| 0 <= j < i && j < bytes@.len() ==> rom@[j] == bytes@[j],
            forall|j: int| bytes@.len() <= j < i ==> rom@[j] == 0,
        decreases total - i,
    {
        if i < bytes.len() {
            rom.push(bytes[i]);
        } else {
            rom.push(0);
        }
        i = i + 1;
    }
    rom
}

impl Mbc {
    pub open spec fn wf(self) -> bool {
        match self {
            Mbc::NoMbc(_) => true,
            Mbc::Mbc1(m) => m.wf(),
            Mbc::Mbc2(m) => m.wf(),
            Mbc::Mbc3(m) => m.wf(),
            Mbc::Mbc5(m) => m.wf(),
        }
    }

    /// The RTC register time (0 without an RTC).
    pub open spec fn rtc_time(self) -> u64 {
        match self {
            Mbc::Mbc3(m) => m.rtc_time(),
            _ => 0,
        }
    }

    pub open spec fn spec_read_rom(self, addr: usize) -> u8 {
        match self {
            Mbc::NoMbc(m) => m.rom@[addr as int],
            Mbc::Mbc1(m) => m.spec_read_rom(addr),
            Mbc::Mbc2(m) => m.spec_read_rom(addr),
            Mbc::Mbc3(m) => m.spec_read_rom(addr),
            Mbc::Mbc5(m) => m.spec_read_rom(addr),
        }
    }

    pub open spec fn spec_write_rom(self, addr: usize, byte: u8, now: u64) -> Mbc {
        match self {
            Mbc::NoMbc(m) => self,
            Mbc::Mbc1(m) => Mbc::Mbc1(m.spec_write_rom(addr, byte)),
            Mbc::Mbc2(m) => Mbc::Mbc2(m.spec_write_rom(addr, byte)),
            Mbc::Mbc3(m) => Mbc::Mbc3(m.spec_write_rom(addr, byte, now)),
            Mbc::Mbc5(m) => Mbc::Mbc5(m.spec_write_rom(addr, byte)),
        }
    }

    pub open spec fn spec_read_ram(self, addr: usize) -> u8 {
        match self {
            Mbc::NoMbc(m) => m.ram@[addr - RAM_START],
            Mbc::Mbc1(m) => m.spec_read_ram(addr),
            Mbc::Mbc2(m) => m.spec_read_ram(addr),
            Mbc::Mbc3(m) => m.spec_read_ram(addr),
            Mbc::Mbc5(m) => m.spec_read_ram(addr),
        }
    }

    pub open spec fn spec_write_ram(self, addr: usize, byte: u8) -> Mbc {
        match self {
            Mbc::NoMbc(m) => Mbc::NoMbc(m.spec_write_ram(addr, byte)),
            Mbc::Mbc1(m) => Mbc::Mbc1(m.spec_write_ram(addr, byte)),
            Mbc::Mbc2(m) => Mbc::Mbc2(m.spec_write_ram(addr, byte)),
            Mbc::Mbc3(m) => Mbc::Mbc3(m.spec_write_ram(addr, byte)),
            Mbc::Mbc5(m) => Mbc::Mbc5(m.spec_write_ram(addr, byte)),
        }
    }

    /// The ROM the controller serves, bank after bank (for no MBC, the 32 KiB
    /// of address space).
    pub open spec fn rom_image(self) -> Seq<u8> {
        match self {
            Mbc::NoMbc(m) => m.rom@,
            Mbc::Mbc1(m) => m.rom@,
            Mbc::Mbc2(m) => m.rom@,
            Mbc::Mbc3(m) => m.rom@,
            Mbc::Mbc5(m) => m.rom@,
        }
    }

    /// The number of 16 KiB ROM banks (2 for no MBC).
    pub open spec fn rom_bank_count(self) -> nat {
        match self {
            Mbc::NoMbc(m) => 2,
            Mbc::Mbc1(m) => m.rom_banks as nat,
            Mbc::Mbc2(m) => m.rom_banks as nat,
            Mbc::Mbc3(m) => m.rom_banks as nat,
            Mbc::Mbc5(m) => m.rom_banks as nat,
        }
    }

    /// The time a latch of the RTC now reads (0 without an MBC3).
    pub open spec fn clock_reading(self) -> u64 {
        match self {
            Mbc::Mbc3(m) => m.clock_reading(),
            _ => 0,
        }
    }

    /// The controller after the wall-clock time `now` is handed in.
    pub open spec fn spec_set_clock(self, now: u64) -> Mbc {
        match self {
            Mbc::Mbc3(m) => Mbc::Mbc3(Mbc3 { clock: now, ..m }),
            _ => self,
        }
    }

    /// The bytes of the RTC save of an MBC3 with a clock.
    pub open spec fn rtc_save(self) -> Seq<u8> {
        match self {
            Mbc::Mbc3(m) => match m.rtc {
                Some(c) => c.save_bytes(m.clock),
                None => Seq::empty(),
            },
            _ => Seq::empty(),
        }
    }

    /// The state `make_mbc` gives the controller of cartridge type `t` with
    /// RAM size code `ram_size`: bank registers as at power-on, RAM disabled;
    /// the RAM banks the header declares, holding the battery save if there is
    /// one and zeros otherwise; for MBC3 with a timer, the saved clock or a
    /// new one counting from `now`; for MBC5, rumble on the rumble types.
    pub open spec fn built_as(self, t: u8, ram_size: u8, saved_ram: Option<Vec<u8>>, saved_rtc: Option<Rtc>, now: u64) -> bool {
        match self {
            Mbc::NoMbc(m) => m.ram@ == zeros(RAM_MEMORY_SPACE as nat),
            Mbc::Mbc1(m) => {
                &&& m.has_battery == type_has_battery(t)
                &&& m.has_ram == type_has_banked_ram(t)
                &&& m.has_ram ==> m.ram_banks == ram_banks_of(ram_size)
                    && m.ram_len == ram_banks_of(ram_size) * RAM_BANK_SIZE
                    && m.ram@.subrange(0, m.ram_len as int) == initial_ram(saved_ram, m.has_battery, m.ram_len as nat)
                &&& !m.has_ram ==> m.ram_banks == 0 && m.ram_len == 0
                &&& m.current_rom_bank == 1 && m.current_ram_bank == 0 && !m.ram_enabled && !m.banking_mode
            },
            Mbc::Mbc2(m) => {
                &&& m.has_battery == type_has_battery(t)
                &&& (m.has_battery && saved_ram is Some) ==> (forall|i: int| 0 <= i < mbc2::MBC2_RAM_SIZE
                    ==> m.ram@[i] == saved_ram->0@[i] & 0xF)
                &&& !(m.has_battery && saved_ram is Some) ==> m.ram@ == zeros(mbc2::MBC2_RAM_SIZE as nat)
                &&& m.current_rom_bank == 1 && !m.ram_enabled
            },
            Mbc::Mbc3(m) => {
                &&& m.has_battery == type_has_battery(t)
                &&& m.has_ram == type_has_banked_ram(t)
                &&& m.has_ram ==> m.ram_banks == ram_banks_of(ram_size)
                    && m.ram_len == (if m.has_battery && saved_ram is Some { saved_ram->0@.len() } else { (ram_banks_of(ram_size) * RAM_BANK_SIZE) as nat })
                    && m.ram@.subrange(0, m.ram_len as int) == initial_ram(saved_ram, m.has_battery, m.ram_len as nat)
                &&& !m.has_ram ==> m.ram_banks == 0 && m.ram_len == 0
                &&& type_has_rtc(t) ==> m.rtc == (if saved_rtc is Some { saved_rtc } else { Some(Rtc::spec_new(now)) })
                    && m.clock == now
                &&& !type_has_rtc(t) ==> m.rtc is None && m.clock == 0
                &&& m.current_rom_bank == 1 && m.current_ram_bank == 0
                &&& !m.ram_rtc_enabled && m.prev_latch_write == 0xFF && m.using_ram
            },
            Mbc::Mbc5(m) => {
                &&& m.has_battery == type_has_battery(t)
                &&& m.has_ram == type_has_banked_ram(t)
                &&& m.has_ram ==> m.ram_banks == ram_banks_of(ram_size)
                    && m.ram_len == ram_banks_of(ram_size) * RAM_BANK_SIZE
                    && m.ram@.subrange(0, m.ram_len as int) == initial_ram(saved_ram, m.has_battery, m.ram_len as nat)
                &&& !m.has_ram ==> m.ram_banks == 0 && m.ram_len == 0
                &&& m.rumble == (0x1C <= t <= 0x1E)
                &&& m.current_rom_bank == 1 && m.current_ram_bank == 0 && !m.ram_enabled
            },
        }
    }

    /// Builds the controller that the header's cartridge type names, over
    /// the ROM image, loading the given saves for battery-backed types.
    pub fn make_mbc(bytes: &[u8], header: &Header, saved_ram: Option<Vec<u8>>, saved_rtc: Option<Rtc>, now: u64) -> (r: Mbc)
        requires
            mbc_accepts(bytes@, header.cartridge_type, header.rom_size, header.ram_size),
            saves_fit(header.cartridge_type, header.ram_size, saved_ram, saved_rtc),
        ensures
            r.wf(),
            header.cartridge_type == 0x00 <==> r is NoMbc,
            (header.cartridge_type == 0x01 || header.cartridge_type == 0x02 || header.cartridge_type == 0x03) <==> r is Mbc1,
            (header.cartridge_type == 0x05 || header.cartridge_type == 0x06) <==> r is Mbc2,
            (header.cartridge_type == 0x0F || header.cartridge_type == 0x10 || header.cartridge_type == 0x11
                || header.cartridge_type == 0x12 || header.cartridge_type == 0x13) <==> r is Mbc3,
            (0x19 <= header.cartridge_type <= 0x1E) <==> r is Mbc5,
            r.has_battery() == type_has_battery(header.cartridge_type),
            forall|a: usize| a <= 0x7FFF ==> #[trigger] r.spec_read_rom(a) == image_byte(bytes@, a as int),
            forall|a: usize| RAM_START <= a <= RAM_END ==> #[trigger] r.spec_read_ram(a) == (if r is NoMbc { 0u8 } else { 0xFFu8 }),
            r.built_as(header.cartridge_type, header.ram_size, saved_ram, saved_rtc, now),
            r.rom_bank_count() == (if header.cartridge_type == 0x00 { 2 } else { rom_banks_of(header.rom_size) as nat }),
            r.rom_image() == padded_image(bytes@, r.rom_bank_count() * (ROM_BANK_SIZE as nat)),
    {
        let t = header.cartridge_type();
        if t == 0x00 {
            let m = NoMbc::new(bytes);
            assert(m.ram@ =~= zeros(RAM_MEMORY_SPACE as nat));
            assert(m.rom@ =~= padded_image(bytes@, ROM_MEMORY_SPACE as nat));
            return Mbc::NoMbc(m);
        }
        let rom_banks = header.num_rom_banks();
        let ram_banks = header.num_ram_banks();
        proof {
            vstd::arithmetic::power2::lemma2_to64();
        }
        let rom = rom_banks_from_bytes(bytes, rom_banks);
        assert(rom@ =~= padded_image(bytes@, (rom_banks * ROM_BANK_SIZE) as nat));
        proof {
            assert(rom_banks == 2 || rom_banks == 4 || rom_banks == 8 || rom_banks == 16 || rom_banks == 32
                || rom_banks == 64 || rom_banks == 128 || rom_banks == 256 || rom_banks == 512);
            crate::bits::lemma_odd_low_bit((rom_banks - 1) as usize);
        }
        let r = match t {
            0x01 => {
                let m = Mbc1::new(rom, rom_banks);
                assert(m.has_ram ==> m.ram@.subrange(0, m.ram_len as int) =~= initial_ram(saved_ram, m.has_battery, m.ram_len as nat));
                Mbc::Mbc1(m)
            },
            0x02 => {
                let m = Mbc1::new(rom, rom_banks).with_ram(ram_banks);
                assert(m.has_ram ==> m.ram@.subrange(0, m.ram_len as int) =~= initial_ram(saved_ram, m.has_battery, m.ram_len as nat));
                Mbc::Mbc1(m)
            },
            0x03 => {
                let m = Mbc1::new(rom, rom_banks).with_ram(ram_banks).with_battery(saved_ram);
                assert(m.has_ram ==> m.ram@.subrange(0, m.ram_len as int) =~= initial_ram(saved_ram, m.has_battery, m.ram_len as nat));
                Mbc::Mbc1(m)
            },
            0x05 => {
                let m = Mbc2::new_with_ram(rom, rom_banks);
                assert(!(m.has_battery && saved_ram is Some) ==> m.ram@ =~= zeros(mbc2::MBC2_RAM_SIZE as nat));
                Mbc::Mbc2(m)
            },
            0x06 => {
                let m = Mbc2::new_with_ram(rom, rom_banks).with_battery(saved_ram);
                assert(!(m.has_battery && saved_ram is Some) ==> m.ram@ =~= zeros(mbc2::MBC2_RAM_SIZE as nat));
                Mbc::Mbc2(m)
            },
            0x0F => {
                let m = Mbc3::new(rom, rom_banks).with_rtctimer(now).with_battery(None, saved_rtc);
                assert(m.has_ram ==> m.ram@.subrange(0, m.ram_len as int) =~= initial_ram(saved_ram, m.has_battery, m.ram_len as nat));
                Mbc::Mbc3(m)
            },
            0x10 => {
                let m = Mbc3::new(rom, rom_banks).with_rtctimer(now).with_ram(ram_banks).with_battery(saved_ram, saved_rtc);
                assert(m.has_ram ==> m.ram@.subrange(0, m.ram_len as int) =~= initial_ram(saved_ram, m.has_battery, m.ram_len as nat));
                Mbc::Mbc3(m)
            },
            0x11 => {
                let m = Mbc3::new(rom, rom_banks);
                assert(m.has_ram ==> m.ram@.subrange(0, m.ram_len as int) =~= initial_ram(saved_ram, m.has_battery, m.ram_len as nat));
                Mbc::Mbc3(m)
            },
            0x12 => {
                let m = Mbc3::new(rom, rom_banks).with_ram(ram_banks);
                assert(m.has_ram ==> m.ram@.subrange(0, m.ram_len as int) =~= initial_ram(saved_ram, m.has_battery, m.ram_len as nat));
                Mbc::Mbc3(m)
            },
            0x13 => {
                let m = Mbc3::new(rom, rom_banks).with_ram(ram_banks).with_battery(saved_ram, None);
                assert(m.has_ram ==> m.ram@.subrange(0, m.ram_len as int) =~= initial_ram(saved_ram, m.has_battery, m.ram_len as nat));
                Mbc::Mbc3(m)
            },
            0x19 => {
                let m = Mbc5::new(rom, rom_banks);
                assert(m.has_ram ==> m.ram@.subrange(0, m.ram_len as int) =~= initial_ram(saved_ram, m.has_battery, m.ram_len as nat));
                Mbc::Mbc5(m)
            },
            0x1A => {
                let m = Mbc5::new(rom, rom_banks).with_ram(ram_banks);
                assert(m.has_ram ==> m.ram@.subrange(0, m.ram_len as int) =~= initial_ram(saved_ram, m.has_battery, m.ram_len as nat));
                Mbc::Mbc5(m)
            },
            0x1B => {
                let m = Mbc5::new(rom, rom_banks).with_ram(ram_banks).with_battery(saved_ram);
                assert(m.has_ram ==> m.ram@.subrange(0, m.ram_len as int) =~= initial_ram(saved_ram, m.has_battery, m.ram_len as nat));
                Mbc::Mbc5(m)
            },
            0x1C => {
                let m = Mbc5::new(rom, rom_banks).with_rumble();
                assert(m.has_ram ==> m.ram@.subrange(0, m.ram_len as int) =~= initial_ram(saved_ram, m.has_battery, m.ram_len as nat));
                Mbc::Mbc5(m)
            },
            0x1D => {
                let m = Mbc5::new(rom, rom_banks).with_rumble().with_ram(ram_banks);
                assert(m.has_ram ==> m.ram@.subrange(0, m.ram_len as int) =~= initial_ram(saved_ram, m.has_battery, m.ram_len as nat));
                Mbc::Mbc5(m)
            },
            _ => {
                let m = Mbc5::new(rom, rom_banks).with_rumble().with_ram(ram_banks).with_battery(saved_ram);
                assert(m.has_ram ==> m.ram@.subrange(0, m.ram_len as int) =~= initial_ram(saved_ram, m.has_battery, m.ram_len as nat));
                Mbc::Mbc5(m)
            },
        };
        r
    }

    /// Whether the controller has a battery.
    pub open spec fn has_battery(self) -> bool {
        match self {
            Mbc::NoMbc(_) => false,
            Mbc::Mbc1(m) => m.has_battery,
            Mbc::Mbc2(m) => m.has_battery,
            Mbc::Mbc3(m) => m.has_battery,
            Mbc::Mbc5(m) => m.has_battery,
        }
    }

    /// The RAM bytes that a battery save holds: the whole cartridge RAM of a
    /// battery-backed MBC1, MBC3 or MBC5, and for MBC2 one 8 KiB bank whose
    /// first 512 bytes are the half-bytes.
    pub open spec fn saved_ram(self) -> Option<Seq<u8>> {
        match self {
            Mbc::NoMbc(_) => None,
            Mbc::Mbc1(m) => if m.has_battery && m.has_ram { Some(m.ram@.subrange(0, m.ram_len as int)) } else { None },
            Mbc::Mbc2(m) => if m.has_battery {
                Some(Seq::new(RAM_BANK_SIZE as nat, |i: int| if i < mbc2::MBC2_RAM_SIZE { m.ram@[i] & 0xF } else { 0u8 }))
            } else {
                None
            },
            Mbc::Mbc3(m) => if m.has_battery && m.has_ram { Some(m.ram@.subrange(0, m.ram_len as int)) } else { None },
            Mbc::Mbc5(m) => if m.has_battery && m.has_ram { Some(m.ram@.subrange(0, m.ram_len as int)) } else { None },
        }
    }

    /// Whether a battery save holds an RTC state (a battery-backed MBC3 with
    /// a timer).
    pub open spec fn saves_rtc(self) -> bool {
        self matches Mbc::Mbc3(m) && m.has_battery && m.rtc is Some
    }

    /// Handles bus reads from 0x0000 to 0x7FFF.
    pub fn read_rom(&self, addr: usize) -> (r: u8)
        requires
            self.wf(),
            addr <= 0x7FFF,
        ensures
            r == self.spec_read_rom(addr),
    {
        match self {
            Mbc::NoMbc(m) => m.read_rom(addr),
            Mbc::Mbc1(m) => m.read_rom(addr),
            Mbc::Mbc2(m) => m.read_rom(addr),
            Mbc::Mbc3(m) => m.read_rom(addr),
            Mbc::Mbc5(m) => m.read_rom(addr),
        }
    }

    /// Handles bus writes from 0x0000 to 0x7FFF (control registers).
    pub fn write_rom(&mut self, addr: usize, byte: u8)
        requires
            old(self).wf(),
            addr <= 0x7FFF,
        ensures
            final(self).wf(),
            final(self).rtc_time() >= old(self).rtc_time(),
            *final(self) == old(self).spec_write_rom(addr, byte, final(self).rtc_time()),
            *final(self) == old(self).spec_write_rom(addr, byte, old(self).clock_reading()),
    {
        match self {
            Mbc::NoMbc(_) => {},
            Mbc::Mbc1(m) => m.write_rom(addr, byte),
            Mbc::Mbc2(m) => m.write_rom(addr, byte),
            Mbc::Mbc3(m) => m.write_rom(addr, byte),
            Mbc::Mbc5(m) => m.write_rom(addr, byte),
        }
    }

    /// Handles bus reads from 0xA000 to 0xBFFF.
    pub fn read_ram(&self, addr: usize) -> (r: u8)
        requires
            self.wf(),
            RAM_START <= addr <= RAM_END,
        ensures
            r == self.spec_read_ram(addr),
    {
        match self {
            Mbc::NoMbc(m) => m.read_ram(addr),
            Mbc::Mbc1(m) => m.read_ram(addr),
            Mbc::Mbc2(m) => m.read_ram(addr),
            Mbc::Mbc3(m) => m.read_ram(addr),
            Mbc::Mbc5(m) => m.read_ram(addr),
        }
    }

    /// Handles bus writes from 0xA000 to 0xBFFF.
    pub fn write_ram(&mut self, addr: usize, byte: u8)
        requires
            old(self).wf(),
            RAM_START <= addr <= RAM_END,
        ensures
            final(self).wf(),
            *final(self) == old(self).spec_write_ram(addr, byte),
    {
        match self {
            Mbc::NoMbc(m) => m.write_ram(addr, byte),
            Mbc::Mbc1(m) => m.write_ram(addr, byte),
            Mbc::Mbc2(m) => m.write_ram(addr, byte),
            Mbc::Mbc3(m) => m.write_ram(addr, byte),
            Mbc::Mbc5(m) => m.write_ram(addr, byte),
        }
    }

    /// A line describing the controller: its kind and ROM banks, then its
    /// clock, rumble, RAM banks and battery, where it has them.
    pub open spec fn spec_display(self) -> Seq<char> {
        let ram = |has: bool, banks: usize|
            if has { " + "@ + decimal_digits(banks as nat) + " RAM banks"@ } else { Seq::<char>::empty() };
        let battery = |has: bool| if has { " + Battery"@ } else { Seq::<char>::empty() };
        match self {
            Mbc::NoMbc(_) => "No Mbc"@,
            Mbc::Mbc1(m) => "Mbc1 w/ "@ + decimal_digits(m.rom_banks as nat) + " ROM banks"@ + ram(m.has_ram, m.ram_banks)
                + battery(m.has_battery),
            Mbc::Mbc2(m) => "Mbc2 w/ "@ + decimal_digits(m.rom_banks as nat) + " ROM banks"@ + battery(m.has_battery),
            Mbc::Mbc3(m) => "Mbc3 w/ "@ + decimal_digits(m.rom_banks as nat) + " ROM banks"@
                + (if m.rtc is Some { " + RTC Timer"@ } else { Seq::<char>::empty() }) + ram(m.has_ram, m.ram_banks)
                + battery(m.has_battery),
            Mbc::Mbc5(m) => "Mbc5 w/ "@ + decimal_digits(m.rom_banks as nat) + " ROM banks"@
                + (if m.rumble { " + Rumble (not supported)"@ } else { Seq::<char>::empty() }) + ram(m.has_ram, m.ram_banks)
                + battery(m.has_battery),
        }
    }

    /// Describes the controller (see `spec_display`).
    pub fn display(&self) -> (r: String)
        ensures
            r@ == self.spec_display(),
    {
        let (mut s, rom_banks) = match self {
            Mbc::NoMbc(_) => {
                return String::from_str("No Mbc");
            },
            Mbc::Mbc1(m) => (String::from_str("Mbc1 w/ "), m.rom_banks),
            Mbc::Mbc2(m) => (String::from_str("Mbc2 w/ "), m.rom_banks),
            Mbc::Mbc3(m) => (String::from_str("Mbc3 w/ "), m.rom_banks),
            Mbc::Mbc5(m) => (String::from_str("Mbc5 w/ "), m.rom_banks),
        };
        s.append(decimal_string(rom_banks as u64).as_str());
        s.append(" ROM banks");
        let (ram_banks, battery) = match self {
            Mbc::NoMbc(_) => (None, false),
            Mbc::Mbc1(m) => (if m.has_ram { Some(m.ram_banks) } else { None }, m.has_battery),
            Mbc::Mbc2(m) => (None, m.has_battery),
            Mbc::Mbc3(m) => {
                if m.rtc.is_some() {
                    s.append(" + RTC Timer");
                }
                (if m.has_ram { Some(m.ram_banks) } else { None }, m.has_battery)
            },
            Mbc::Mbc5(m) => {
                if m.rumble {
                    s.append(" + Rumble (not supported)");
                }
                (if m.has_ram { Some(m.ram_banks) } else { None }, m.has_battery)
            },
        };
        if let Some(banks) = ram_banks {
            s.append(" + ");
            s.append(decimal_string(banks as u64).as_str());
            s.append(" RAM banks");
        }
        if battery {
            s.append(" + Battery");
        }
        proof {
            let e = Seq::<char>::empty();
            assert(s@ =~= self.spec_display()) by {
                assert(forall|x: Seq<char>| #![auto] x + e =~= x);
            }
        }
        s
    }

    /// Hands in the wall-clock time (seconds since the UNIX epoch) that the
    /// RTC of an MBC3 reads.
    pub fn set_clock(&mut self, now: u64)
        ensures
            *final(self) == old(self).spec_set_clock(now),
    {
        match self {
            Mbc::Mbc3(m) => m.set_clock(now),
            _ => {},
        }
    }

    /// What the cartridge saves when it has a battery: its RAM and, for MBC3
    /// with a timer, the RTC state.
    pub fn save_state(&self) -> (r: SaveData)
        requires
            self.wf(),
        ensures
            !self.has_battery() ==> r.ram is None && r.rtc is None,
            (r.ram is Some) == (self.saved_ram() is Some),
            r.ram matches Some(v) ==> v@ == self.saved_ram()->0,
            (r.rtc is Some) == self.saves_rtc(),
            r.rtc matches Some(b) ==> b@ == self.rtc_save(),
    {
        match self {
            Mbc::NoMbc(_) => SaveData { ram: None, rtc: None },
            Mbc::Mbc1(m) => SaveData { ram: m.save_state(), rtc: None },
            Mbc::Mbc2(m) => {
                let ram = m.save_state();
                assert(ram is Some ==> ram->0@ =~= self.saved_ram()->0);
                SaveData { ram, rtc: None }
            },
            Mbc::Mbc3(m) => {
                let (ram, rtc) = m.save_state();
                SaveData { ram, rtc }
            },
            Mbc::Mbc5(m) => SaveData { ram: m.save_state(), rtc: None },
        }
    }
}

} // verus!
