use vstd::prelude::*;
use crate::cartridge::mbc::{RAM_MEMORY_SPACE, ROM_MEMORY_SPACE, RAM_START};

verus! {

broadcast use vstd::array::axiom_spec_array_update, vstd::array::axiom_array_ext_equal;

/// A 32 KiB ROM with 8 KiB of RAM and no banking.
pub struct NoMbc {
    pub rom: [u8; ROM_MEMORY_SPACE],
    pub ram: [u8; RAM_MEMORY_SPACE],
}

impl NoMbc {
    /// The ROM image padded with zeros, and zeroed RAM.
    pub fn new(rom_bytes: &[u8]) -> (r: Self)
        requires
            rom_bytes@.len() <= ROM_MEMORY_SPACE,
        ensures
            forall|i: int| 0 <= i < rom_bytes@.len() ==> r.rom@[i] == rom_bytes@[i],
            forall|i: int| rom_bytes@.len() <= i < ROM_MEMORY_SPACE ==> r.rom@[i] == 0,
            forall|i: int| 0 <= i < RAM_MEMORY_SPACE ==> r.ram@[i] == 0,
    {
        let mut rom = [0u8; ROM_MEMORY_SPACE];
        let mut i: usize = 0;
        while i < rom_bytes.len()
            invariant
                i <= rom_bytes@.len() <= ROM_MEMORY_SPACE,
                forall|j: int| 0 <= j < i ==> rom@[j] == rom_bytes@[j],
                forall|j: int| i <= j < ROM_MEMORY_SPACE ==> rom@[j] == 0,
            decreases rom_bytes@.len() - i,
        {
            rom[i] = rom_bytes[i];
            i = i + 1;
        }
        NoMbc { rom, ram: [0u8; RAM_MEMORY_SPACE] }
    }

    pub open spec fn spec_write_ram(self, addr: usize, byte: u8) -> NoMbc {
        NoMbc { ram: vstd::array::spec_array_update(self.ram, addr - RAM_START, byte), ..self }
    }

    /// Reads ROM (0x0000..=0x7FFF).
    pub fn read_rom(&self, addr: usize) -> (r: u8)
        requires
            addr < ROM_MEMORY_SPACE,
        ensures
            r == self.rom@[addr as int],
    {
        self.rom[addr]
    }

    /// Reads RAM (0xA000..=0xBFFF).
    pub fn read_ram(&self, addr: usize) -> (r: u8)
        requires
            RAM_START <= addr < RAM_START + RAM_MEMORY_SPACE,
        ensures
            r == self.ram@[addr - RAM_START],
    {
        self.ram[addr - RAM_START]
    }

    /// Writes RAM (0xA000..=0xBFFF).
    pub fn write_ram(&mut self, addr: usize, byte: u8)
        requires
            RAM_START <= addr < RAM_START + RAM_MEMORY_SPACE,
        ensures
            *final(self) == old(self).spec_write_ram(addr, byte),
    {
        self.ram[addr - RAM_START] = byte;
        assert(self.ram =~= vstd::array::spec_array_update(old(self).ram, addr - RAM_START, byte));
    }
}

} // verus!
