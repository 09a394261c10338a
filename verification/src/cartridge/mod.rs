use vstd::prelude::*;
use crate::cartridge::header::{Header, header_is_valid, title_valid, title_is_utf8, HEADER_START, HEADER_SIZE, rom_banks_of};
use crate::cartridge::mbc::{Mbc, SaveData, image_byte, padded_image, mbc_accepts, supported_type, saves_fit, type_has_battery, ram_from_bytes, MAX_RAM_SIZE, ROM_MEMORY_SPACE, ROM_BANK_SIZE, RAM_BANK_SIZE, RAM_START, RAM_END};
use crate::cartridge::rtc::Rtc;
use crate::cartridge::battery::whole_banks;
use crate::cartridge::mbc::mbc1::Mbc1;
use crate::cartridge::mbc::mbc2::{Mbc2, MBC2_RAM_SIZE};

pub mod battery;
pub mod header;
pub mod mbc;
pub mod rtc;

verus! {

pub const BOOTROM_SIZE: usize = 0x100;

/// The 2nd part of the CGB boot ROM (right after the header).
pub const BOOTROM_2_START: usize = 0x200;

pub const BOOTROM_2_END: usize = 0x900;

pub const BOOTROM_2_SIZE: usize = 0x700;

/// Why a ROM image cannot be loaded.
#[derive(Clone, Copy, Debug, PartialEq, Eq, Structural)]
pub enum RomError {
    /// The image is shorter than the header.
    TooShort,
    /// The title is not valid UTF-8.
    InvalidTitle,
    /// The header checksum does not match.
    HeaderChecksum,
    /// A cartridge type that is known but not emulated.
    UnimplementedType(u8),
    /// An unknown cartridge type.
    UnknownType(u8),
    /// A ROM size code above 8.
    InvalidRomSize,
    /// A RAM size code above 5.
    InvalidRamSize,
    /// The image is larger than its declared banks (or than 32 KiB without
    /// an MBC), or an MBC1 image declares more than 128 banks.
    TooLarge,
}

/// The header bytes of a ROM image.
pub open spec fn header_of(bytes: Seq<u8>) -> Seq<u8> {
    bytes.subrange(HEADER_START as int, (HEADER_START + HEADER_SIZE) as int)
}

/// Whether a ROM image can be loaded.
pub open spec fn rom_is_loadable(bytes: Seq<u8>) -> bool {
    &&& bytes.len() >= HEADER_START + HEADER_SIZE
    &&& title_valid(header_of(bytes))
    &&& header_is_valid(header_of(bytes))
    &&& mbc_accepts(bytes, header_of(bytes)[0x47], header_of(bytes)[0x48], header_of(bytes)[0x49])
}

/// Why a ROM image cannot be loaded (the first failed check, in the order
/// `check_rom` makes them), or `None` when it can.
pub open spec fn rom_error(bytes: Seq<u8>) -> Option<RomError> {
    let h = header_of(bytes);
    let t = h[0x47];
    if bytes.len() < HEADER_START + HEADER_SIZE {
        Some(RomError::TooShort)
    } else if !title_valid(h) {
        Some(RomError::InvalidTitle)
    } else if !header_is_valid(h) {
        Some(RomError::HeaderChecksum)
    } else if unimplemented_type(t) {
        Some(RomError::UnimplementedType(t))
    } else if !supported_type(t) {
        Some(RomError::UnknownType(t))
    } else if h[0x48] > 8 {
        Some(RomError::InvalidRomSize)
    } else if h[0x49] > 5 {
        Some(RomError::InvalidRamSize)
    } else if !mbc_accepts(bytes, t, h[0x48], h[0x49]) {
        Some(RomError::TooLarge)
    } else {
        None
    }
}

/// Cartridge types that the header format defines but this emulator does
/// not implement.
pub open spec fn unimplemented_type(t: u8) -> bool {
    t == 0x08 || t == 0x09 || t == 0x0B || t == 0x0C || t == 0x0D || t == 0x20 || t == 0x22 || t == 0xFC
        || t == 0xFD || t == 0xFE || t == 0xFF
}

/// A cartridge: its header, MBC (with ROM, RAM, RTC) and optional boot ROM.
pub struct Cartridge {
    pub bootrom: [u8; BOOTROM_SIZE],
    pub bootrom2: [u8; BOOTROM_2_SIZE],
    pub cgb_bootrom: bool,
    pub bank: u8,
    pub header: Header,
    pub with_bootrom: bool,
    pub mbc: Mbc,
}

impl Cartridge {
    pub open spec fn wf(self) -> bool {
        self.mbc.wf()
    }

    pub open spec fn rtc_time(self) -> u64 {
        self.mbc.rtc_time()
    }

    pub open spec fn spec_read_rom(self, addr: usize) -> u8 {
        if self.bank != 0 {
            self.mbc.spec_read_rom(addr)
        } else if addr < BOOTROM_SIZE {
            self.bootrom@[addr as int]
        } else if self.cgb_bootrom && BOOTROM_2_START <= addr < BOOTROM_2_END {
            self.bootrom2@[addr - BOOTROM_2_START]
        } else {
            self.mbc.spec_read_rom(addr)
        }
    }

    pub open spec fn spec_write_rom(self, addr: usize, byte: u8, now: u64) -> Cartridge {
        Cartridge { mbc: self.mbc.spec_write_rom(addr, byte, now), ..self }
    }

    pub open spec fn spec_read_ram(self, addr: usize) -> u8 {
        self.mbc.spec_read_ram(addr)
    }

    pub open spec fn spec_write_ram(self, addr: usize, byte: u8) -> Cartridge {
        Cartridge { mbc: self.mbc.spec_write_ram(addr, byte), ..self }
    }

    /// `self` is `before` with saved RAM `data` loaded: an MBC1 gets the
    /// whole 8 KiB banks of `data` as its RAM, an MBC2 the low nibbles of its
    /// first 512 bytes; every other part, and every other cartridge, stays.
    pub open spec fn holds_save_of(self, before: Cartridge, data: Seq<u8>) -> bool {
        &&& self == (Cartridge { mbc: self.mbc, ..before })
        &&& before.mbc matches Mbc::Mbc1(m0) ==> (self.mbc matches Mbc::Mbc1(m)
            && m.has_ram
            && m.ram_len == whole_banks(data).len()
            && m.ram@.subrange(0, m.ram_len as int) == whole_banks(data)
            && m == (Mbc1 { ram: m.ram, ram_len: m.ram_len, has_ram: true, ..m0 }))
        &&& before.mbc matches Mbc::Mbc2(m0) ==> (self.mbc matches Mbc::Mbc2(m)
            && (forall|i: int| 0 <= i < MBC2_RAM_SIZE ==> m.ram@[i] == data[i] & 0xF)
            && m == (Mbc2 { ram: m.ram, ..m0 }))
        &&& !(before.mbc is Mbc1 || before.mbc is Mbc2) ==> self.mbc == before.mbc
    }

    /// Checks whether a ROM image can be loaded, and why not.
    pub fn check_rom(bytes: &[u8]) -> (r: Result<(), RomError>)
        ensures
            r is Ok <==> rom_is_loadable(bytes@),
            r == (match rom_error(bytes@) {
                Some(e) => Err(e),
                None => Ok(()),
            }),
    {
        if bytes.len() < HEADER_START + HEADER_SIZE {
            return Err(RomError::TooShort);
        }
        let mut header_bytes = [0u8; HEADER_SIZE];
        let mut i: usize = 0;
        while i < HEADER_SIZE
            invariant
                i <= HEADER_SIZE,
                bytes@.len() >= HEADER_START + HEADER_SIZE,
                forall|j: int| 0 <= j < i ==> header_bytes@[j] == bytes@[HEADER_START + j],
            decreases HEADER_SIZE - i,
        {
            header_bytes[i] = bytes[HEADER_START + i];
            i = i + 1;
        }
        assert(header_bytes@ =~= header_of(bytes@));
        if !title_is_utf8(&header_bytes) {
            return Err(RomError::InvalidTitle);
        }
        if Header::compute_checksum(&header_bytes) != header_bytes[0x4D] {
            return Err(RomError::HeaderChecksum);
        }
        let t = header_bytes[0x47];
        let rom_size = header_bytes[0x48];
        let ram_size = header_bytes[0x49];
        if t == 0x08 || t == 0x09 || t == 0x0B || t == 0x0C || t == 0x0D || t == 0x20 || t == 0x22 || t == 0xFC
            || t == 0xFD || t == 0xFE || t == 0xFF {
            return Err(RomError::UnimplementedType(t));
        }
        if !(t == 0x00 || t == 0x01 || t == 0x02 || t == 0x03 || t == 0x05 || t == 0x06 || t == 0x0F || t == 0x10
            || t == 0x11 || t == 0x12 || t == 0x13 || t == 0x19 || t == 0x1A || t == 0x1B || t == 0x1C
            || t == 0x1D || t == 0x1E) {
            return Err(RomError::UnknownType(t));
        }
        if rom_size > 8 {
            return Err(RomError::InvalidRomSize);
        }
        if ram_size > 5 {
            return Err(RomError::InvalidRamSize);
        }
        proof {
            vstd::arithmetic::power2::lemma2_to64();
        }
        let banks: usize = match rom_size {
            0 => 2,
            1 => 4,
            2 => 8,
            3 => 16,
            4 => 32,
            5 => 64,
            6 => 128,
            7 => 256,
            _ => 512,
        };
        if t == 0x00 && bytes.len() > ROM_MEMORY_SPACE {
            return Err(RomError::TooLarge);
        }
        if t != 0x00 && bytes.len() > banks * ROM_BANK_SIZE {
            return Err(RomError::TooLarge);
        }
        if (t == 0x01 || t == 0x02 || t == 0x03) && rom_size > 6 {
            return Err(RomError::TooLarge);
        }
        Ok(())
    }

    /// Loads a cartridge from a ROM image (without boot ROM or saves).
    pub fn from_bytes(bytes: &[u8], now: u64) -> (r: Self)
        requires
            rom_is_loadable(bytes@),
        ensures
            r.wf(),
            r.header.parsed_from(header_of(bytes@)),
            !r.with_bootrom && !r.cgb_bootrom && r.bank == 1,
            r.mbc.has_battery() == type_has_battery(header_of(bytes@)[0x47]),
            forall|a: usize| a <= 0x7FFF ==> #[trigger] r.spec_read_rom(a) == image_byte(bytes@, a as int),
            forall|a: usize| RAM_START <= a <= RAM_END ==> #[trigger] r.spec_read_ram(a)
                == (if header_of(bytes@)[0x47] == 0x00 { 0u8 } else { 0xFFu8 }),
            r.mbc.built_as(header_of(bytes@)[0x47], header_of(bytes@)[0x49], None, None, now),
            r.mbc.rom_bank_count() == (if header_of(bytes@)[0x47] == 0x00 { 2 } else { rom_banks_of(header_of(bytes@)[0x48]) as nat }),
            r.mbc.rom_image() == padded_image(bytes@, r.mbc.rom_bank_count() * (ROM_BANK_SIZE as nat)),
    {
        Cartridge::from_bytes_with_saves(bytes, None, None, now)
    }

    /// Loads a cartridge from a ROM image, restoring battery-backed RAM and
    /// RTC state from earlier saves.
    pub fn from_bytes_with_saves(bytes: &[u8], saved_ram: Option<Vec<u8>>, saved_rtc: Option<Rtc>, now: u64) -> (r: Self)
        requires
            rom_is_loadable(bytes@),
            saves_fit(header_of(bytes@)[0x47], header_of(bytes@)[0x49], saved_ram, saved_rtc),
        ensures
            r.wf(),
            r.header.parsed_from(header_of(bytes@)),
            !r.with_bootrom && !r.cgb_bootrom && r.bank == 1,
            r.mbc.has_battery() == type_has_battery(header_of(bytes@)[0x47]),
            forall|a: usize| a <= 0x7FFF ==> #[trigger] r.spec_read_rom(a) == image_byte(bytes@, a as int),
            forall|a: usize| RAM_START <= a <= RAM_END ==> #[trigger] r.spec_read_ram(a)
                == (if header_of(bytes@)[0x47] == 0x00 { 0u8 } else { 0xFFu8 }),
            r.mbc.built_as(header_of(bytes@)[0x47], header_of(bytes@)[0x49], saved_ram, saved_rtc, now),
            r.mbc.rom_bank_count() == (if header_of(bytes@)[0x47] == 0x00 { 2 } else { rom_banks_of(header_of(bytes@)[0x48]) as nat }),
            r.mbc.rom_image() == padded_image(bytes@, r.mbc.rom_bank_count() * (ROM_BANK_SIZE as nat)),
    {
        let header = Header::from_bytes(bytes);
        let mbc = Mbc::make_mbc(bytes, &header, saved_ram, saved_rtc, now);
        Cartridge {
            bootrom: [0u8; BOOTROM_SIZE],
            bootrom2: [0u8; BOOTROM_2_SIZE],
            mbc,
            cgb_bootrom: false,
            bank: 1,
            header,
            with_bootrom: false,
        }
    }

    /// The length a boot ROM image must have: 0x100 bytes for DMG; for CGB,
    /// 0x900 bytes (the second part sits after a gap for the header).
    pub open spec fn bootrom_len(cgb: bool) -> usize {
        if cgb { 0x900 } else { BOOTROM_SIZE }
    }

    /// Maps a boot ROM image over the cartridge (CGB boot ROM for CGB
    /// cartridges) and starts with it mapped in.
    pub fn with_bootrom(self, image: &[u8]) -> (r: Self)
        requires
            image@.len() == Cartridge::bootrom_len(self.header.cgb_flag & 0x80 != 0),
        ensures
            r.wf() == self.wf(),
            r.with_bootrom && r.bank == 0,
            r.cgb_bootrom == (self.header.cgb_flag & 0x80 != 0),
            r.bootrom@ == image@.subrange(0, BOOTROM_SIZE as int),
            r.cgb_bootrom ==> r.bootrom2@ == image@.subrange(BOOTROM_2_START as int, BOOTROM_2_END as int),
            r.header == self.header && r.mbc == self.mbc,
    {
        let cgb = self.header.cgb_compatible();
        let mut s = self;
        s.bank = 0;
        s.with_bootrom = true;
        s.cgb_bootrom = cgb;
        let mut i: usize = 0;
        while i < BOOTROM_SIZE
            invariant
                i <= BOOTROM_SIZE <= image@.len(),
                forall|j: int| 0 <= j < i ==> s.bootrom@[j] == image@[j],
                s.header == self.header && s.mbc == self.mbc && s.bank == 0 && s.with_bootrom && s.cgb_bootrom == cgb,
            decreases BOOTROM_SIZE - i,
        {
            s.bootrom[i] = image[i];
            i = i + 1;
        }
        assert(s.bootrom@ =~= image@.subrange(0, BOOTROM_SIZE as int));
        if cgb {
            let mut k: usize = BOOTROM_2_START;
            while k < BOOTROM_2_END
                invariant
                    BOOTROM_2_START <= k <= BOOTROM_2_END <= image@.len(),
                    forall|j: int| BOOTROM_2_START <= j < k ==> s.bootrom2@[j - BOOTROM_2_START] == image@[j],
                    s.bootrom@ == image@.subrange(0, BOOTROM_SIZE as int),
                    s.header == self.header && s.mbc == self.mbc && s.bank == 0 && s.with_bootrom && s.cgb_bootrom == cgb,
                decreases BOOTROM_2_END - k,
            {
                s.bootrom2[k - BOOTROM_2_START] = image[k];
                k = k + 1;
            }
            assert(s.bootrom2@ =~= image@.subrange(BOOTROM_2_START as int, BOOTROM_2_END as int));
        }
        s
    }

    /// Whether the cartridge starts with the boot ROM.
    pub fn has_bootrom(&self) -> (r: bool)
        ensures
            r == self.with_bootrom,
    {
        self.with_bootrom
    }

    /// Whether the header marks the cartridge as CGB-compatible.
    pub fn cgb_compatible(&self) -> (r: bool)
        ensures
            r == (self.header.cgb_flag & 0x80 != 0),
    {
        self.header.cgb_compatible()
    }

    /// The title's bytes (NUL bytes removed).
    pub fn get_title(&self) -> (r: Vec<u8>)
        ensures
            r@ == self.header.title@,
    {
        self.header.title()
    }

    /// Writes the BANK register; a non-zero value unmaps the boot ROM.
    pub fn write_bank(&mut self, byte: u8)
        ensures
            *final(self) == (Cartridge { bank: byte, ..*old(self) }),
    {
        self.bank = byte;
    }

    /// Reads the BANK register.
    pub fn read_bank(&self) -> (r: u8)
        ensures
            r == self.bank,
    {
        self.bank
    }

    /// Reads 0x0000..=0x7FFF: the boot ROM while mapped, else the MBC's ROM.
    pub fn read_rom(&self, addr: usize) -> (r: u8)
        requires
            self.wf(),
            addr <= 0x7FFF,
        ensures
            r == self.spec_read_rom(addr),
    {
        if self.bank != 0 {
            self.mbc.read_rom(addr)
        } else {
            if addr < BOOTROM_SIZE {
                self.bootrom[addr]
            } else if self.cgb_bootrom && BOOTROM_2_START <= addr && addr < BOOTROM_2_END {
                self.bootrom2[addr - BOOTROM_2_START]
            } else {
                self.mbc.read_rom(addr)
            }
        }
    }

    /// Hands in the wall-clock time (seconds since the UNIX epoch) that the
    /// cartridge's real-time clock reads.
    pub fn set_clock(&mut self, now: u64)
        ensures
            *final(self) == (Cartridge { mbc: old(self).mbc.spec_set_clock(now), ..*old(self) }),
    {
        self.mbc.set_clock(now);
    }

    /// What the MBC has to save (if it has a battery).
    pub fn save_mbc_state(&self) -> (r: SaveData)
        requires
            self.wf(),
        ensures
            !self.mbc.has_battery() ==> r.ram is None && r.rtc is None,
            (r.ram is Some) == (self.mbc.saved_ram() is Some),
            r.ram matches Some(v) ==> v@ == self.mbc.saved_ram()->0,
            (r.rtc is Some) == self.mbc.saves_rtc(),
            r.rtc matches Some(b) ==> b@ == self.mbc.rtc_save(),
    {
        self.mbc.save_state()
    }

    /// Writes an MBC control register (0x0000..=0x7FFF).
    pub fn write_rom(&mut self, addr: usize, byte: u8)
        requires
            old(self).wf(),
            addr <= 0x7FFF,
        ensures
            final(self).wf(),
            final(self).rtc_time() >= old(self).rtc_time(),
            *final(self) == old(self).spec_write_rom(addr, byte, final(self).rtc_time()),
            *final(self) == old(self).spec_write_rom(addr, byte, old(self).mbc.clock_reading()),
    {
        self.mbc.write_rom(addr, byte);
    }

    /// Reads cartridge RAM (0xA000..=0xBFFF).
    pub fn read_ram(&self, addr: usize) -> (r: u8)
        requires
            self.wf(),
            RAM_START <= addr <= RAM_END,
        ensures
            r == self.spec_read_ram(addr),
    {
        self.mbc.read_ram(addr)
    }

    /// Writes cartridge RAM (0xA000..=0xBFFF).
    pub fn write_ram(&mut self, addr: usize, byte: u8)
        requires
            old(self).wf(),
            RAM_START <= addr <= RAM_END,
        ensures
            final(self).wf(),
            *final(self) == old(self).spec_write_ram(addr, byte),
    {
        self.mbc.write_ram(addr, byte);
    }

    /// Loads saved RAM into an MBC1 or MBC2 cartridge (the save is cut into
    /// whole 8 KiB banks first); other cartridges are left as they are.
    pub fn load_save(&mut self, data: &[u8])
        requires
            old(self).wf(),
            data@.len() <= MAX_RAM_SIZE,
            old(self).mbc is Mbc2 ==> data@.len() >= RAM_BANK_SIZE,
        ensures
            final(self).wf(),
            final(self).holds_save_of(*old(self), data@),
    {
        let ram = crate::cartridge::battery::parse_ram(data);
        match &mut self.mbc {
            Mbc::Mbc1(m) => {
                m.ram = Box::new(ram_from_bytes(&ram));
                m.ram_len = ram.len();
                m.has_ram = true;
                assert(m.ram@.subrange(0, m.ram_len as int) =~= whole_banks(data@));
            },
            Mbc::Mbc2(m) => {
                let ghost m0 = *m;
                let mut i: usize = 0;
                while i < MBC2_RAM_SIZE
                    invariant
                        i <= MBC2_RAM_SIZE,
                        ram@ == whole_banks(data@),
                        ram@.len() >= RAM_BANK_SIZE,
                        data@.len() >= RAM_BANK_SIZE,
                        m.wf(),
                        *m == (Mbc2 { ram: m.ram, ..m0 }),
                        forall|j: int| 0 <= j < i ==> m.ram@[j] == data@[j] & 0xF,
                    decreases MBC2_RAM_SIZE - i,
                {
                    m.ram[i] = ram[i] & 0xF;
                    i = i + 1;
                }
            },
            _ => {},
        }
    }

    /// The identity under which saves are kept (the title's bytes), if the
    /// cartridge has a battery.
    pub fn save_id(&self) -> (r: Option<Vec<u8>>)
        ensures
            self.mbc.has_battery() ==> (r matches Some(v) && v@ == self.header.title@),
            !self.mbc.has_battery() ==> r is None,
    {
        let battery = match &self.mbc {
            Mbc::NoMbc(_) => false,
            Mbc::Mbc1(m) => m.has_battery,
            Mbc::Mbc2(m) => m.has_battery,
            Mbc::Mbc3(m) => m.has_battery,
            Mbc::Mbc5(m) => m.has_battery,
        };
        if battery {
            Some(self.header.title())
        } else {
            None
        }
    }
}

/// What a battery-backed MBC1 cartridge saves after loading saved RAM is
/// the whole 8 KiB banks of that save.
pub proof fn lemma_mbc1_save_after_load(before: Cartridge, after: Cartridge, data: Seq<u8>)
    requires
        before.mbc matches Mbc::Mbc1(m) && m.has_battery,
        after.holds_save_of(before, data),
    ensures
        after.mbc.saved_ram() == Some(whole_banks(data)),
{
}

/// What a battery-backed MBC2 cartridge saves after loading saved RAM holds
/// the low nibbles of the save's first 512 bytes, then zeros.
pub proof fn lemma_mbc2_save_after_load(before: Cartridge, after: Cartridge, data: Seq<u8>)
    requires
        before.mbc matches Mbc::Mbc2(m) && m.has_battery,
        data.len() >= RAM_BANK_SIZE,
        after.holds_save_of(before, data),
    ensures
        after.mbc.saved_ram() matches Some(v) && v.len() == RAM_BANK_SIZE
            && (forall|i: int| 0 <= i < MBC2_RAM_SIZE ==> v[i] == data[i] & 0xF)
            && (forall|i: int| MBC2_RAM_SIZE <= i < RAM_BANK_SIZE ==> v[i] == 0),
{
    let v = after.mbc.saved_ram()->0;
    assert forall|i: int| 0 <= i < MBC2_RAM_SIZE implies v[i] == data[i] & 0xF by {
        crate::bits::lemma_nibble_idem(data[i]);
    }
}

} // verus!
