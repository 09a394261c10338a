use vstd::prelude::*;
use crate::cartridge::mbc::{byte_or_open, read_or_open, ram_read, ram_written, ram_read_exec, ram_write_exec, ram_from_bytes, ram_prefix, MAX_RAM_SIZE, ROM_BANK_SIZE, RAM_BANK_SIZE, RAM_START, RAM_END};
use crate::cartridge::rtc::{Rtc, RTC_SAVE_SIZE, rtc_latched_at, later};

verus! {

broadcast use vstd::array::axiom_spec_array_update, vstd::array::axiom_array_ext_equal;

/// The MBC3 controller: up to 2 MiB of ROM, 32 KiB of RAM and an optional
/// real-time clock.
pub struct Mbc3 {
    pub rom: Vec<u8>,
    pub rom_banks: usize,
    pub has_ram: bool,
    pub ram: Box<[u8; MAX_RAM_SIZE]>,
    pub ram_len: usize,
    pub ram_banks: usize,
    pub rtc: Option<Rtc>,
    pub has_battery: bool,
    pub current_rom_bank: usize,
    pub current_ram_bank: usize,
    pub ram_rtc_enabled: bool,
    pub prev_latch_write: u8,
    pub using_ram: bool,
    /// The latest wall-clock time handed in (seconds since the UNIX epoch),
    /// which the RTC reads when it is latched or saved.
    pub clock: u64,
}

impl Mbc3 {
    pub open spec fn wf(self) -> bool {
        &&& 2 <= self.rom_banks <= 512
        &&& self.rom@.len() == self.rom_banks * ROM_BANK_SIZE
        &&& self.ram_len <= MAX_RAM_SIZE
        &&& self.current_rom_bank < 128
        &&& self.current_ram_bank < 4
        &&& (self.rtc matches Some(r) ==> r.wf())
    }

    /// The RTC's register time (0 without an RTC): after a latch it is the
    /// time the latch read from the clock.
    pub open spec fn rtc_time(self) -> u64 {
        match self.rtc {
            Some(r) => r.register_time,
            None => 0,
        }
    }

    /// The time a latch now reads: the clock, or the register time when the
    /// clock is behind it.
    pub open spec fn clock_reading(self) -> u64 {
        later(self.clock, self.rtc_time())
    }

    pub open spec fn spec_read_rom(self, addr: usize) -> u8 {
        if addr <= 0x3FFF {
            byte_or_open(self.rom@, addr as int)
        } else {
            let bank = if self.current_rom_bank > 1 { self.current_rom_bank } else { 1 };
            byte_or_open(self.rom@, bank * ROM_BANK_SIZE + addr - 0x4000)
        }
    }

    /// The controller after a control register write, where a latch reads
    /// the clock as `now`.
    pub open spec fn spec_write_rom(self, addr: usize, byte: u8, now: u64) -> Mbc3 {
        if addr <= 0x1FFF {
            Mbc3 { ram_rtc_enabled: byte & 0xF == 0xA, ..self }
        } else if addr <= 0x3FFF {
            let b = (byte & 0b111_1111) as usize;
            Mbc3 { current_rom_bank: if b > 1 { b } else { 1 }, ..self }
        } else if addr <= 0x5FFF {
            if byte <= 0x03 {
                Mbc3 { using_ram: true, current_ram_bank: byte as usize, ..self }
            } else if 0x08 <= byte <= 0x0C {
                Mbc3 {
                    using_ram: false,
                    rtc: match self.rtc {
                        Some(r) => Some(Rtc { active_register: (byte - 8) as usize, ..r }),
                        None => None,
                    },
                    ..self
                }
            } else {
                self
            }
        } else {
            let latched = self.prev_latch_write == 0 && byte == 1;
            Mbc3 {
                prev_latch_write: byte,
                rtc: match self.rtc {
                    Some(r) => if latched { Some(rtc_latched_at(r, now)) } else { Some(r) },
                    None => None,
                },
                ..self
            }
        }
    }

    pub open spec fn spec_read_ram(self, addr: usize) -> u8 {
        if !self.ram_rtc_enabled {
            0xFF
        } else if self.using_ram {
            if self.has_ram {
                ram_read(*self.ram, self.ram_len, self.current_ram_bank * RAM_BANK_SIZE + addr - RAM_START)
            } else {
                0xFF
            }
        } else {
            match self.rtc {
                Some(r) => r.out_registers@[r.active_register as int],
                None => 0xFF,
            }
        }
    }

    pub open spec fn spec_write_ram(self, addr: usize, byte: u8) -> Mbc3 {
        if !self.ram_rtc_enabled {
            self
        } else if self.using_ram {
            if self.has_ram {
                Mbc3 {
                    ram: Box::new(ram_written(*self.ram, self.ram_len, self.current_ram_bank * RAM_BANK_SIZE + addr - RAM_START, byte)),
                    ..self
                }
            } else {
                self
            }
        } else {
            match self.rtc {
                Some(r) => Mbc3 {
                    rtc: Some(Rtc {
                        out_registers: vstd::array::spec_array_update(r.out_registers, r.active_register as int, byte),
                        ..r
                    }),
                    ..self
                },
                None => self,
            }
        }
    }

    /// A controller over the given ROM banks (flattened), without RAM or RTC.
    pub fn new(rom: Vec<u8>, rom_banks: usize) -> (r: Self)
        requires
            2 <= rom_banks <= 512,
            rom@.len() == rom_banks * ROM_BANK_SIZE,
        ensures
            r.wf(),
            r.rom@ == rom@ && r.rom_banks == rom_banks,
            !r.has_ram && r.ram_len == 0 && r.ram_banks == 0 && r.rtc is None && !r.has_battery,
            r.current_rom_bank == 1 && r.current_ram_bank == 0,
            !r.ram_rtc_enabled && r.prev_latch_write == 0xFF && r.using_ram,
            r.clock == 0,
    {
        Mbc3 {
            rom,
            rom_banks,
            has_ram: false,
            ram: Box::new([0u8; MAX_RAM_SIZE]),
            ram_len: 0,
            ram_banks: 0,
            rtc: None,
            has_battery: false,
            current_rom_bank: 1,
            current_ram_bank: 0,
            ram_rtc_enabled: false,
            prev_latch_write: 0xFF,
            using_ram: true,
            clock: 0,
        }
    }

    /// Adds a real-time clock that starts counting at `now` (seconds since
    /// the UNIX epoch), which also becomes the clock reading.
    pub fn with_rtctimer(self, now: u64) -> (r: Self)
        requires
            self.wf(),
        ensures
            r.wf(),
            r.rtc == Some(Rtc::spec_new(now)),
            r == (Mbc3 { rtc: r.rtc, clock: now, ..self }),
    {
        Mbc3 { rtc: Some(Rtc::new(now)), clock: now, ..self }
    }

    /// Adds `ram_banks` zeroed RAM banks.
    pub fn with_ram(self, ram_banks: usize) -> (r: Self)
        requires
            self.wf(),
            ram_banks <= 16,
        ensures
            r.wf(),
            r == (Mbc3 { has_ram: true, ram: Box::new([0u8; MAX_RAM_SIZE]), ram_len: (ram_banks * RAM_BANK_SIZE) as usize, ram_banks, ..self }),
    {
        Mbc3 { has_ram: true, ram: Box::new([0u8; MAX_RAM_SIZE]), ram_len: ram_banks * RAM_BANK_SIZE, ram_banks, ..self }
    }

    /// Adds a battery, replacing RAM (if the cartridge has RAM) and the RTC
    /// (if it has one) with their last saves where there are any.
    pub fn with_battery(self, saved_ram: Option<Vec<u8>>, saved_rtc: Option<Rtc>) -> (r: Self)
        requires
            self.wf(),
            saved_ram matches Some(s) ==> s@.len() <= MAX_RAM_SIZE,
            saved_rtc matches Some(c) ==> c.wf(),
        ensures
            r.wf(),
            r.has_battery,
            (self.has_ram && saved_ram is Some) ==> r.ram_len == saved_ram.unwrap()@.len()
                && r.ram@.subrange(0, r.ram_len as int) == saved_ram.unwrap()@,
            !(self.has_ram && saved_ram is Some) ==> r.ram == self.ram && r.ram_len == self.ram_len,
            (self.rtc is Some && saved_rtc is Some) ==> r.rtc == saved_rtc,
            !(self.rtc is Some && saved_rtc is Some) ==> r.rtc == self.rtc,
            r.rom == self.rom && r.rom_banks == self.rom_banks && r.has_ram == self.has_ram && r.ram_banks == self.ram_banks,
            r.current_rom_bank == self.current_rom_bank && r.current_ram_bank == self.current_ram_bank,
            r.ram_rtc_enabled == self.ram_rtc_enabled && r.prev_latch_write == self.prev_latch_write
                && r.using_ram == self.using_ram,
            r.clock == self.clock,
    {
        let mut s = self;
        if s.has_ram {
            match saved_ram {
                Some(ram) => {
                    s.ram = Box::new(ram_from_bytes(&ram));
                    s.ram_len = ram.len();
                    assert(s.ram@.subrange(0, s.ram_len as int) =~= ram@);
                },
                None => {},
            }
        }
        if s.rtc.is_some() {
            match saved_rtc {
                Some(rtc) => s.rtc = Some(rtc),
                None => {},
            }
        }
        s.has_battery = true;
        s
    }

    /// Reads ROM; bank 0 is fixed at 0x0000..=0x3FFF, the selected bank
    /// (never 0) at 0x4000..=0x7FFF.
    pub fn read_rom(&self, addr: usize) -> (r: u8)
        requires
            self.wf(),
            addr <= 0x7FFF,
        ensures
            r == self.spec_read_rom(addr),
    {
        if addr <= 0x3FFF {
            read_or_open(&self.rom, addr)
        } else {
            let bank = if self.current_rom_bank > 1 { self.current_rom_bank } else { 1 };
            read_or_open(&self.rom, bank * ROM_BANK_SIZE + addr - 0x4000)
        }
    }

    /// Writes a control register: RAM/RTC enable, ROM bank, RAM bank or RTC
    /// register select, and the clock latch (a 0 then a 1 latches the clock).
    pub fn write_rom(&mut self, addr: usize, byte: u8)
        requires
            old(self).wf(),
            addr <= 0x7FFF,
        ensures
            final(self).wf(),
            final(self).rtc_time() >= old(self).rtc_time(),
            *final(self) == old(self).spec_write_rom(addr, byte, final(self).rtc_time()),
            *final(self) == old(self).spec_write_rom(addr, byte, old(self).clock_reading()),
    {
        if addr <= 0x1FFF {
            self.ram_rtc_enabled = (byte & 0xF) == 0xA;
        } else if addr <= 0x3FFF {
            proof {
                crate::bits::lemma_and_le_u8(byte, 0b111_1111);
            }
            let b = (byte & 0b111_1111) as usize;
            self.current_rom_bank = if b > 1 { b } else { 1 };
        } else if addr <= 0x5FFF {
            if byte <= 0x03 {
                self.using_ram = true;
                self.current_ram_bank = byte as usize;
            } else if 0x08 <= byte && byte <= 0x0C {
                self.using_ram = false;
                if let Some(mut rtc) = self.rtc {
                    rtc.set_active_reg(byte);
                    self.rtc = Some(rtc);
                }
            }
        } else {
            if self.prev_latch_write == 0 && byte == 1 {
                let now = self.clock;
                if let Some(mut rtc) = self.rtc {
                    rtc.latch_clock_data(now);
                    self.rtc = Some(rtc);
                }
            }
            self.prev_latch_write = byte;
        }
    }

    /// Reads RAM or the selected RTC register; 0xFF while disabled.
    pub fn read_ram(&self, addr: usize) -> (r: u8)
        requires
            self.wf(),
            RAM_START <= addr <= RAM_END,
        ensures
            r == self.spec_read_ram(addr),
    {
        if !self.ram_rtc_enabled {
            return 0xFF;
        }
        if self.using_ram {
            if self.has_ram {
                ram_read_exec(&*self.ram, self.ram_len, self.current_ram_bank * RAM_BANK_SIZE + addr - RAM_START)
            } else {
                0xFF
            }
        } else {
            match &self.rtc {
                Some(rtc) => rtc.read(),
                None => 0xFF,
            }
        }
    }

    /// Writes RAM or the selected RTC register; ignored while disabled.
    pub fn write_ram(&mut self, addr: usize, byte: u8)
        requires
            old(self).wf(),
            RAM_START <= addr <= RAM_END,
        ensures
            final(self).wf(),
            *final(self) == old(self).spec_write_ram(addr, byte),
    {
        if !self.ram_rtc_enabled {
            return;
        }
        if self.using_ram {
            if self.has_ram {
                ram_write_exec(&mut *self.ram, self.ram_len, self.current_ram_bank * RAM_BANK_SIZE + addr - RAM_START, byte);
            }
        } else {
            if let Some(mut rtc) = self.rtc {
                rtc.write(byte);
                self.rtc = Some(rtc);
                proof {
                    assert(rtc.out_registers =~= vstd::array::spec_array_update(old(self).rtc.unwrap().out_registers, rtc.active_register as int, byte));
                }
            }
        }
    }

    /// Hands in the wall-clock time (seconds since the UNIX epoch).
    pub fn set_clock(&mut self, now: u64)
        ensures
            *final(self) == (Mbc3 { clock: now, ..*old(self) }),
    {
        self.clock = now;
    }

    /// What to save when the cartridge has a battery: the RAM (if any) and
    /// the RTC state (if any).
    pub fn save_state(&self) -> (r: (Option<Vec<u8>>, Option<[u8; RTC_SAVE_SIZE]>))
        requires
            self.wf(),
        ensures
            (self.has_battery && self.has_ram) ==> (r.0 matches Some(v) && v@ == self.ram@.subrange(0, self.ram_len as int)),
            !(self.has_battery && self.has_ram) ==> r.0 is None,
            r.1 is Some <==> (self.has_battery && self.rtc is Some),
            r.1 matches Some(b) ==> b@ == self.rtc.unwrap().save_bytes(self.clock),
    {
        if !self.has_battery {
            return (None, None);
        }
        let ram = if self.has_ram { Some(ram_prefix(&*self.ram, self.ram_len)) } else { None };
        let rtc = match &self.rtc {
            Some(rtc) => Some(rtc.to_save(self.clock)),
            None => None,
        };
        (ram, rtc)
    }
}

/// A RAM write reads back, while RAM (not the clock) is selected and
/// enabled and the address lies in the selected bank's part of the RAM.
pub proof fn lemma_mbc3_ram_roundtrip(m: Mbc3, addr: usize, byte: u8)
    requires
        m.wf(),
        RAM_START <= addr <= RAM_END,
        m.ram_rtc_enabled,
        m.using_ram,
        m.has_ram,
        m.current_ram_bank * RAM_BANK_SIZE + addr - RAM_START < m.ram_len,
    ensures
        m.spec_write_ram(addr, byte).spec_read_ram(addr) == byte,
{
}

/// A write to 0x2000..=0x3FFF selects the ROM bank `byte & 0x7F` (a 7-bit
/// number, 0 meaning 1) for 0x4000..=0x7FFF: every byte there then reads
/// from that bank of the ROM (0xFF past its end), while 0x0000..=0x3FFF keeps
/// reading bank 0.
pub proof fn lemma_mbc3_rom_bank(m: Mbc3, addr: usize, byte: u8, now: u64, i: usize)
    requires
        m.wf(),
        0x2000 <= addr <= 0x3FFF,
        i < 0x4000,
    ensures
        ({
            let bank: int = if byte & 0x7F == 0 { 1 } else { (byte & 0x7F) as int };
            let w = m.spec_write_rom(addr, byte, now);
            let j = bank * 0x4000 + i;
            &&& w.spec_read_rom((0x4000 + i) as usize) == (if j < m.rom@.len() { m.rom@[j] } else { 0xFFu8 })
            &&& w.spec_read_rom(i) == m.rom@[i as int]
        }),
{
    crate::bits::lemma_and_le_u8(byte, 0x7F);
}

} // verus!
