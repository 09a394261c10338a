use vstd::prelude::*;
use crate::cartridge::mbc::{byte_or_open, read_or_open, ram_read, ram_written, ram_read_exec, ram_write_exec, ram_from_bytes, ram_prefix, MAX_RAM_SIZE, ROM_BANK_SIZE, RAM_BANK_SIZE, RAM_START, RAM_END};

verus! {

broadcast use vstd::array::axiom_spec_array_update, vstd::array::axiom_array_ext_equal;

/// The MBC1 controller: up to 2 MiB of ROM and 32 KiB of RAM.
pub struct Mbc1 {
    pub rom: Vec<u8>,
    pub rom_banks: usize,
    pub has_ram: bool,
    pub ram: Box<[u8; MAX_RAM_SIZE]>,
    /// How many bytes of `ram` are the cartridge's RAM.
    pub ram_len: usize,
    pub ram_banks: usize,
    pub has_battery: bool,
    pub current_rom_bank: usize,
    pub current_ram_bank: usize,
    pub ram_enabled: bool,
    pub banking_mode: bool,
}

impl Mbc1 {
    pub open spec fn wf(self) -> bool {
        &&& 2 <= self.rom_banks <= 128
        &&& self.rom@.len() == self.rom_banks * ROM_BANK_SIZE
        &&& self.ram_banks <= 16
        &&& self.ram_len <= MAX_RAM_SIZE
        &&& self.current_rom_bank < 128
        &&& self.current_ram_bank < 16
    }

    pub open spec fn spec_read_rom(self, addr: usize) -> u8 {
        if addr <= 0x3FFF {
            let bank = if self.banking_mode { self.current_rom_bank & 0b110_0000 } else { 0 };
            byte_or_open(self.rom@, bank * ROM_BANK_SIZE + addr)
        } else {
            byte_or_open(self.rom@, self.current_rom_bank * ROM_BANK_SIZE + addr - 0x4000)
        }
    }

    pub open spec fn spec_write_rom(self, addr: usize, byte: u8) -> Mbc1 {
        if addr <= 0x1FFF {
            Mbc1 { ram_enabled: byte & 0xF == 0xA, ..self }
        } else if addr <= 0x3FFF {
            let b = if byte & 0b11111 == 0 { (byte + 1) as u8 } else { byte };
            let rb = (self.rom_banks - 1) as u8;
            let mask = if rb < 0b11111 { rb } else { 0b11111 };
            Mbc1 { current_rom_bank: (b & mask) as usize, ..self }
        } else if addr <= 0x5FFF {
            let s1 = if self.ram_banks > 1 {
                Mbc1 { current_ram_bank: (byte & (self.ram_banks - 1) as u8) as usize, ..self }
            } else {
                self
            };
            if self.rom_banks > 0b11111 {
                let mask = ((((self.rom_banks - 1) as u8) - 0b11111) as u8) >> 5u8;
                Mbc1 {
                    current_rom_bank: (((byte & mask) << 5u8) as usize) | (s1.current_rom_bank & 0b11111),
                    ..s1
                }
            } else {
                s1
            }
        } else {
            if self.ram_banks > 1 || self.rom_banks > 32 {
                Mbc1 { banking_mode: byte & 1 != 0, ..self }
            } else {
                self
            }
        }
    }

    pub open spec fn ram_index(self, addr: usize) -> int {
        let bank = if self.banking_mode { self.current_ram_bank } else { 0 };
        bank * RAM_BANK_SIZE + addr - RAM_START
    }

    pub open spec fn spec_read_ram(self, addr: usize) -> u8 {
        if !self.ram_enabled || !self.has_ram {
            0xFF
        } else {
            ram_read(*self.ram, self.ram_len, self.ram_index(addr))
        }
    }

    pub open spec fn spec_write_ram(self, addr: usize, byte: u8) -> Mbc1 {
        if !self.ram_enabled || !self.has_ram {
            self
        } else {
            Mbc1 { ram: Box::new(ram_written(*self.ram, self.ram_len, self.ram_index(addr), byte)), ..self }
        }
    }

    /// A controller over the given ROM banks (flattened), without RAM.
    pub fn new(rom: Vec<u8>, rom_banks: usize) -> (r: Self)
        requires
            2 <= rom_banks <= 128,
            rom@.len() == rom_banks * ROM_BANK_SIZE,
        ensures
            r.wf(),
            r.rom@ == rom@,
            r.rom_banks == rom_banks,
            !r.has_ram && r.ram_len == 0 && r.ram_banks == 0,
            !r.has_battery,
            r.current_rom_bank == 1 && r.current_ram_bank == 0,
            !r.ram_enabled && !r.banking_mode,
    {
        Mbc1 {
            rom,
            rom_banks,
            has_ram: false,
            ram: Box::new([0u8; MAX_RAM_SIZE]),
            ram_len: 0,
            ram_banks: 0,
            has_battery: false,
            current_rom_bank: 1,
            current_ram_bank: 0,
            ram_enabled: false,
            banking_mode: false,
        }
    }

    /// Adds `ram_banks` zeroed RAM banks.
    pub fn with_ram(self, ram_banks: usize) -> (r: Self)
        requires
            self.wf(),
            ram_banks <= 16,
        ensures
            r.wf(),
            r == (Mbc1 { has_ram: true, ram: Box::new([0u8; MAX_RAM_SIZE]), ram_len: (ram_banks * RAM_BANK_SIZE) as usize, ram_banks, ..self }),
    {
        Mbc1 { has_ram: true, ram: Box::new([0u8; MAX_RAM_SIZE]), ram_len: ram_banks * RAM_BANK_SIZE, ram_banks, ..self }
    }

    /// Adds a battery, loading RAM from the last save if there is one
    /// (which must hold exactly the cartridge's RAM banks), otherwise zeroed
    /// RAM.
    pub fn with_battery(self, saved_ram: Option<Vec<u8>>) -> (r: Self)
        requires
            self.wf(),
            saved_ram matches Some(s) ==> s@.len() == self.ram_banks * RAM_BANK_SIZE,
        ensures
            r.wf(),
            r.has_battery && r.has_ram,
            r.ram_len == self.ram_banks * RAM_BANK_SIZE,
            saved_ram matches Some(s) ==> r.ram@.subrange(0, r.ram_len as int) == s@,
            saved_ram is None ==> r.ram@.subrange(0, r.ram_len as int) == Seq::new(r.ram_len as nat, |i: int| 0u8),
            r.rom == self.rom && r.rom_banks == self.rom_banks && r.ram_banks == self.ram_banks,
            r.current_rom_bank == self.current_rom_bank && r.current_ram_bank == self.current_ram_bank,
            r.ram_enabled == self.ram_enabled && r.banking_mode == self.banking_mode,
    {
        let len = self.ram_banks * RAM_BANK_SIZE;
        let ram = match saved_ram {
            Some(s) => Box::new(ram_from_bytes(&s)),
            None => Box::new([0u8; MAX_RAM_SIZE]),
        };
        let r = Mbc1 { has_ram: true, ram, ram_len: len, has_battery: true, ..self };
        assert(saved_ram matches Some(s) ==> r.ram@.subrange(0, len as int) =~= s@);
        assert(saved_ram is None ==> r.ram@.subrange(0, len as int) =~= Seq::new(len as nat, |i: int| 0u8));
        r
    }

    /// Reads ROM (0x0000..=0x7FFF).
    pub fn read_rom(&self, addr: usize) -> (r: u8)
        requires
            self.wf(),
            addr <= 0x7FFF,
        ensures
            r == self.spec_read_rom(addr),
    {
        if addr <= 0x3FFF {
            let rom_bank = if self.banking_mode { self.current_rom_bank & 0b110_0000 } else { 0 };
            proof {
                crate::bits::lemma_and_le_usize(self.current_rom_bank, 0b110_0000);
            }
            read_or_open(&self.rom, rom_bank * ROM_BANK_SIZE + addr)
        } else {
            read_or_open(&self.rom, self.current_rom_bank * ROM_BANK_SIZE + addr - 0x4000)
        }
    }

    /// Writes a control register (0x0000..=0x7FFF): RAM enable, ROM bank,
    /// RAM bank / upper ROM bank bits, banking mode.
    pub fn write_rom(&mut self, addr: usize, byte: u8)
        requires
            old(self).wf(),
            addr <= 0x7FFF,
        ensures
            final(self).wf(),
            *final(self) == old(self).spec_write_rom(addr, byte),
    {
        if addr <= 0x1FFF {
            self.ram_enabled = (byte & 0xF) == 0xA;
        } else if addr <= 0x3FFF {
            proof {
                crate::bits::lemma_bank_increment(byte, 0);
            }
            let b = if byte & 0b11111 == 0 { byte + 1 } else { byte };
            let rb = self.rom_banks as u8 - 1;
            let mask = if rb < 0b11111 { rb } else { 0b11111 };
            proof {
                crate::bits::lemma_and_le_u8(b, mask);
            }
            self.current_rom_bank = (b & mask) as usize;
        } else if addr <= 0x5FFF {
            if self.ram_banks > 1 {
                proof {
                    crate::bits::lemma_and_le_u8(byte, (self.ram_banks - 1) as u8);
                }
                self.current_ram_bank = (byte & (self.ram_banks as u8 - 1)) as usize;
            }
            if self.rom_banks > 0b11111 {
                proof {
                    crate::bits::lemma_bank_increment(byte, (self.rom_banks - 1) as u8);
                }
                let mask = ((self.rom_banks as u8 - 1) - 0b11111) >> 5u8;
                proof {
                    crate::bits::lemma_mbc1_upper_bank(byte, mask, self.current_rom_bank);
                }
                self.current_rom_bank = (((byte & mask) << 5u8) as usize) | (self.current_rom_bank & 0b11111);
            }
        } else {
            if self.ram_banks > 1 || self.rom_banks > 32 {
                self.banking_mode = (byte & 1) != 0;
            }
        }
    }

    /// Reads RAM (0xA000..=0xBFFF); 0xFF while RAM is disabled.
    pub fn read_ram(&self, addr: usize) -> (r: u8)
        requires
            self.wf(),
            RAM_START <= addr <= RAM_END,
        ensures
            r == self.spec_read_ram(addr),
    {
        if !self.ram_enabled || !self.has_ram {
            return 0xFF;
        }
        let ram_bank = if self.banking_mode { self.current_ram_bank } else { 0 };
        ram_read_exec(&*self.ram, self.ram_len, ram_bank * RAM_BANK_SIZE + addr - RAM_START)
    }

    /// Writes RAM (0xA000..=0xBFFF); ignored while RAM is disabled.
    pub fn write_ram(&mut self, addr: usize, byte: u8)
        requires
            old(self).wf(),
            RAM_START <= addr <= RAM_END,
        ensures
            final(self).wf(),
            *final(self) == old(self).spec_write_ram(addr, byte),
    {
        if !self.ram_enabled || !self.has_ram {
            return;
        }
        let ram_bank = if self.banking_mode { self.current_ram_bank } else { 0 };
        ram_write_exec(&mut *self.ram, self.ram_len, ram_bank * RAM_BANK_SIZE + addr - RAM_START, byte);
    }

    /// The RAM to save, if the cartridge has a battery and RAM.
    pub fn save_state(&self) -> (r: Option<Vec<u8>>)
        requires
            self.wf(),
        ensures
            (self.has_battery && self.has_ram) ==> (r matches Some(v) && v@ == self.ram@.subrange(0, self.ram_len as int)),
            !(self.has_battery && self.has_ram) ==> r is None,
    {
        if self.has_battery && self.has_ram {
            Some(ram_prefix(&*self.ram, self.ram_len))
        } else {
            None
        }
    }
}

/// A RAM write reads back, while RAM is enabled and the address lies in the
/// part of the cartridge RAM that the banking mode selects.
pub proof fn lemma_mbc1_ram_roundtrip(m: Mbc1, addr: usize, byte: u8)
    requires
        m.wf(),
        RAM_START <= addr <= RAM_END,
        m.ram_enabled,
        m.has_ram,
        m.ram_index(addr) < m.ram_len,
    ensures
        m.spec_write_ram(addr, byte).spec_read_ram(addr) == byte,
{
}

/// A write to 0x2000..=0x3FFF selects, for 0x4000..=0x7FFF, the ROM bank
/// given by the low five bits of the byte (0 meaning 1), cut to the banks
/// there are (at most 32): every byte there then reads from that bank (0xFF
/// past the ROM's end).
pub proof fn lemma_mbc1_rom_bank(m: Mbc1, addr: usize, byte: u8, i: usize)
    requires
        m.wf(),
        0x2000 <= addr <= 0x3FFF,
        i < 0x4000,
    ensures
        ({
            let rb = (m.rom_banks - 1) as u8;
            let mask: u8 = if rb < 0x1F { rb } else { 0x1F };
            let bank: u8 = (if byte & 0x1F == 0 { 1u8 } else { byte & 0x1F }) & mask;
            let j = bank * 0x4000 + i;
            m.spec_write_rom(addr, byte).spec_read_rom((0x4000 + i) as usize)
                == (if j < m.rom@.len() { m.rom@[j] } else { 0xFFu8 })
        }),
{
    let rb = (m.rom_banks - 1) as u8;
    let mask: u8 = if rb < 0x1F { rb } else { 0x1F };
    let b = if byte & 0b11111 == 0 { (byte + 1) as u8 } else { byte };
    assert((b & mask) == ((if byte & 0x1F == 0 { 1u8 } else { byte & 0x1F }) & mask)) by (bit_vector)
        requires
            mask <= 0x1F,
            b == (if byte & 0x1F == 0 { (byte + 1) as u8 } else { byte }),
    ;
    crate::bits::lemma_and_le_u8(b, mask);
}

} // verus!
