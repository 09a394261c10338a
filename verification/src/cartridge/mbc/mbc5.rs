use vstd::prelude::*;
use crate::cartridge::mbc::{byte_or_open, read_or_open, ram_read, ram_written, ram_read_exec, ram_write_exec, ram_from_bytes, ram_prefix, MAX_RAM_SIZE, ROM_BANK_SIZE, RAM_BANK_SIZE, RAM_START, RAM_END};

verus! {

broadcast use vstd::array::axiom_spec_array_update, vstd::array::axiom_array_ext_equal;

/// The MBC5 controller: up to 8 MiB of ROM (9-bit bank number) and 128 KiB
/// of RAM; the rumble motor is recorded but has no effect.
pub struct Mbc5 {
    pub rom: Vec<u8>,
    pub rom_banks: usize,
    pub has_ram: bool,
    pub ram: Box<[u8; MAX_RAM_SIZE]>,
    pub ram_len: usize,
    pub ram_banks: usize,
    pub has_battery: bool,
    pub current_rom_bank: usize,
    pub current_ram_bank: usize,
    pub ram_enabled: bool,
    pub rumble: bool,
}

impl Mbc5 {
    pub open spec fn wf(self) -> bool {
        &&& 2 <= self.rom_banks <= 512
        &&& self.rom@.len() == self.rom_banks * ROM_BANK_SIZE
        &&& self.ram_banks <= 16
        &&& self.ram_len <= MAX_RAM_SIZE
        &&& self.current_rom_bank < 512
        &&& self.current_ram_bank < 16
    }

    pub open spec fn spec_read_rom(self, addr: usize) -> u8 {
        if addr <= 0x3FFF {
            byte_or_open(self.rom@, addr as int)
        } else {
            byte_or_open(
                self.rom@,
                (self.current_rom_bank & ((self.rom_banks - 1) as usize)) * ROM_BANK_SIZE + addr - 0x4000,
            )
        }
    }

    pub open spec fn spec_write_rom(self, addr: usize, byte: u8) -> Mbc5 {
        if addr <= 0x1FFF {
            Mbc5 { ram_enabled: byte & 0xF == 0xA, ..self }
        } else if addr <= 0x2FFF {
            Mbc5 { current_rom_bank: byte as usize, ..self }
        } else if addr <= 0x3FFF {
            Mbc5 { current_rom_bank: self.current_rom_bank | (((byte as usize) & 1) << 8usize), ..self }
        } else if addr <= 0x5FFF {
            if (byte as usize) < self.ram_banks {
                Mbc5 { current_ram_bank: byte as usize, ..self }
            } else {
                self
            }
        } else {
            self
        }
    }

    pub open spec fn spec_read_ram(self, addr: usize) -> u8 {
        if !self.ram_enabled || !self.has_ram {
            0xFF
        } else {
            ram_read(*self.ram, self.ram_len, self.current_ram_bank * RAM_BANK_SIZE + addr - RAM_START)
        }
    }

    pub open spec fn spec_write_ram(self, addr: usize, byte: u8) -> Mbc5 {
        if !self.ram_enabled || !self.has_ram {
            self
        } else {
            Mbc5 {
                ram: Box::new(ram_written(*self.ram, self.ram_len, self.current_ram_bank * RAM_BANK_SIZE + addr - RAM_START, byte)),
                ..self
            }
        }
    }

    /// A controller over the given ROM banks (flattened), without RAM.
    pub fn new(rom: Vec<u8>, rom_banks: usize) -> (r: Self)
        requires
            2 <= rom_banks <= 512,
            rom@.len() == rom_banks * ROM_BANK_SIZE,
        ensures
            r.wf(),
            r.rom@ == rom@ && r.rom_banks == rom_banks,
            !r.has_ram && r.ram_len == 0 && r.ram_banks == 0 && !r.has_battery,
            r.current_rom_bank == 1 && r.current_ram_bank == 0,
            !r.ram_enabled && !r.rumble,
    {
        Mbc5 {
            rom,
            rom_banks,
            has_ram: false,
            ram: Box::new([0u8; MAX_RAM_SIZE]),
            ram_len: 0,
            ram_banks: 0,
            has_battery: false,
            current_rom_bank: 1,
            current_ram_bank: 0,
            ram_enabled: false,
            rumble: false,
        }
    }

    /// Records that the cartridge has a rumble motor.
    pub fn with_rumble(self) -> (r: Self)
        ensures
            r == (Mbc5 { rumble: true, ..self }),
    {
        Mbc5 { rumble: true, ..self }
    }

    /// Adds `ram_banks` zeroed RAM banks.
    pub fn with_ram(self, ram_banks: usize) -> (r: Self)
        requires
            self.wf(),
            ram_banks <= 16,
        ensures
            r.wf(),
            r == (Mbc5 { has_ram: true, ram: Box::new([0u8; MAX_RAM_SIZE]), ram_len: (ram_banks * RAM_BANK_SIZE) as usize, ram_banks, ..self }),
    {
        Mbc5 { has_ram: true, ram: Box::new([0u8; MAX_RAM_SIZE]), ram_len: ram_banks * RAM_BANK_SIZE, ram_banks, ..self }
    }

    /// Adds a battery, loading RAM from the last save if there is one
    /// (which must hold exactly the cartridge's RAM banks), otherwise zeroed
    /// RAM.
    pub fn with_battery(self, saved_ram: Option<Vec<u8>>) -> (r: Self)
        requires
            self.wf(),
            saved_ram matches Some(s) ==> s@.len() == self.ram_banks * RAM_BANK_SIZE,
        ensures
            r.wf(),
            r.has_battery && r.has_ram,
            r.ram_len == self.ram_banks * RAM_BANK_SIZE,
            saved_ram matches Some(s) ==> r.ram@.subrange(0, r.ram_len as int) == s@,
            saved_ram is None ==> r.ram@.subrange(0, r.ram_len as int) == Seq::new(r.ram_len as nat, |i: int| 0u8),
            r.rom == self.rom && r.rom_banks == self.rom_banks && r.ram_banks == self.ram_banks,
            r.current_rom_bank == self.current_rom_bank && r.current_ram_bank == self.current_ram_bank,
            r.ram_enabled == self.ram_enabled && r.rumble == self.rumble,
    {
        let len = self.ram_banks * RAM_BANK_SIZE;
        let ram = match saved_ram {
            Some(s) => Box::new(ram_from_bytes(&s)),
            None => Box::new([0u8; MAX_RAM_SIZE]),
        };
        let r = Mbc5 { has_ram: true, ram, ram_len: len, has_battery: true, ..self };
        assert(saved_ram matches Some(s) ==> r.ram@.subrange(0, len as int) =~= s@);
        assert(saved_ram is None ==> r.ram@.subrange(0, len as int) =~= Seq::new(len as nat, |i: int| 0u8));
        r
    }

    /// Reads ROM; the selected bank is masked to the ROM size.
    pub fn read_rom(&self, addr: usize) -> (r: u8)
        requires
            self.wf(),
            addr <= 0x7FFF,
        ensures
            r == self.spec_read_rom(addr),
    {
        if addr <= 0x3FFF {
            read_or_open(&self.rom, addr)
        } else {
            proof {
                crate::bits::lemma_and_le_usize(self.current_rom_bank, (self.rom_banks - 1) as usize);
            }
            read_or_open(&self.rom, (self.current_rom_bank & (self.rom_banks - 1)) * ROM_BANK_SIZE + addr - 0x4000)
        }
    }

    /// Writes a control register: RAM enable, ROM bank low 8 bits, ROM bank
    /// bit 8 (or-ed in), RAM bank.
    pub fn write_rom(&mut self, addr: usize, byte: u8)
        requires
            old(self).wf(),
            addr <= 0x7FFF,
        ensures
            final(self).wf(),
            *final(self) == old(self).spec_write_rom(addr, byte),
    {
        if addr <= 0x1FFF {
            self.ram_enabled = (byte & 0xF) == 0xA;
        } else if addr <= 0x2FFF {
            self.current_rom_bank = byte as usize;
        } else if addr <= 0x3FFF {
            proof {
                crate::bits::lemma_mbc5_high_bit(self.current_rom_bank, byte as usize);
            }
            self.current_rom_bank = self.current_rom_bank | (((byte as usize) & 1) << 8usize);
        } else if addr <= 0x5FFF {
            if (byte as usize) < self.ram_banks {
                self.current_ram_bank = byte as usize;
            }
        }
    }

    /// Reads RAM; 0xFF while RAM is disabled.
    pub fn read_ram(&self, addr: usize) -> (r: u8)
        requires
            self.wf(),
            RAM_START <= addr <= RAM_END,
        ensures
            r == self.spec_read_ram(addr),
    {
        if !self.ram_enabled || !self.has_ram {
            return 0xFF;
        }
        ram_read_exec(&*self.ram, self.ram_len, self.current_ram_bank * RAM_BANK_SIZE + addr - RAM_START)
    }

    /// Writes RAM; ignored while RAM is disabled.
    pub fn write_ram(&mut self, addr: usize, byte: u8)
        requires
            old(self).wf(),
            RAM_START <= addr <= RAM_END,
        ensures
            final(self).wf(),
            *final(self) == old(self).spec_write_ram(addr, byte),
    {
        if !self.ram_enabled || !self.has_ram {
            return;
        }
        ram_write_exec(&mut *self.ram, self.ram_len, self.current_ram_bank * RAM_BANK_SIZE + addr - RAM_START, byte);
    }

    /// The RAM to save, if the cartridge has a battery and RAM.
    pub fn save_state(&self) -> (r: Option<Vec<u8>>)
        requires
            self.wf(),
        ensures
            (self.has_battery && self.has_ram) ==> (r matches Some(v) && v@ == self.ram@.subrange(0, self.ram_len as int)),
            !(self.has_battery && self.has_ram) ==> r is None,
    {
        if self.has_battery && self.has_ram {
            Some(ram_prefix(&*self.ram, self.ram_len))
        } else {
            None
        }
    }
}

/// A RAM write reads back, while RAM is enabled and the address lies in the
/// selected bank's part of the cartridge RAM.
pub proof fn lemma_mbc5_ram_roundtrip(m: Mbc5, addr: usize, byte: u8)
    requires
        m.wf(),
        RAM_START <= addr <= RAM_END,
        m.ram_enabled,
        m.has_ram,
        m.current_ram_bank * RAM_BANK_SIZE + addr - RAM_START < m.ram_len,
    ensures
        m.spec_write_ram(addr, byte).spec_read_ram(addr) == byte,
{
}

/// Writing `lo` to 0x2000..=0x2FFF and then `hi` to 0x3000..=0x3FFF selects
/// the 9-bit ROM bank `lo + 256 * (hi & 1)` (bank 0 too), cut to the banks
/// there are, for 0x4000..=0x7FFF: every byte there then reads from that
/// bank, while 0x0000..=0x3FFF keeps reading bank 0.
pub proof fn lemma_mbc5_rom_bank(m: Mbc5, a1: usize, lo: u8, a2: usize, hi: u8, i: usize)
    requires
        m.wf(),
        0x2000 <= a1 <= 0x2FFF,
        0x3000 <= a2 <= 0x3FFF,
        i < 0x4000,
    ensures
        ({
            let w = m.spec_write_rom(a1, lo).spec_write_rom(a2, hi);
            let bank: usize = ((lo as int + 256 * (hi % 2)) as usize) & ((m.rom_banks - 1) as usize);
            let j = bank * 0x4000 + i;
            &&& w.spec_read_rom((0x4000 + i) as usize) == (if j < m.rom@.len() { m.rom@[j] } else { 0xFFu8 })
            &&& w.spec_read_rom(i) == m.rom@[i as int]
        }),
{
    let l = lo as usize;
    let h = hi as usize;
    assert((l | ((h & 1) << 8usize)) == ((l + 256 * (h % 2)) as usize)) by (bit_vector)
        requires
            l < 256,
    ;
    assert(hi % 2 == (hi as usize) % 2);
    crate::bits::lemma_and_le_usize(((lo as int + 256 * (hi % 2)) as usize), (m.rom_banks - 1) as usize);
}

} // verus!
