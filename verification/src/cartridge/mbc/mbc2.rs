use vstd::prelude::*;
use crate::cartridge::mbc::{byte_or_open, read_or_open, ROM_BANK_SIZE, RAM_BANK_SIZE, RAM_START, RAM_END};

verus! {

broadcast use vstd::array::axiom_spec_array_update, vstd::array::axiom_array_ext_equal;

pub const MBC2_RAM_SIZE: usize = 512;

/// The MBC2 controller: up to 256 KiB of ROM and 512 half-bytes of RAM.
pub struct Mbc2 {
    pub rom: Vec<u8>,
    pub rom_banks: usize,
    pub ram: [u8; MBC2_RAM_SIZE],
    pub has_battery: bool,
    pub current_rom_bank: usize,
    pub ram_enabled: bool,
}

impl Mbc2 {
    pub open spec fn wf(self) -> bool {
        &&& 2 <= self.rom_banks <= 512
        &&& self.rom@.len() == self.rom_banks * ROM_BANK_SIZE
        &&& self.current_rom_bank <= 0xFF
    }

    pub open spec fn spec_read_rom(self, addr: usize) -> u8 {
        if addr <= 0x3FFF {
            byte_or_open(self.rom@, addr as int)
        } else {
            byte_or_open(self.rom@, self.current_rom_bank * ROM_BANK_SIZE + addr - 0x4000)
        }
    }

    pub open spec fn spec_write_rom(self, addr: usize, byte: u8) -> Mbc2 {
        if addr > 0x3FFF {
            self
        } else if addr & 0x100 == 0 {
            Mbc2 { ram_enabled: byte & 0xF == 0xA, ..self }
        } else {
            let b = if byte & 0b1111 == 0 { (byte + 1) as u8 } else { byte };
            Mbc2 { current_rom_bank: (b as usize) & ((self.rom_banks - 1) as usize), ..self }
        }
    }

    /// RAM holds 4-bit values; the upper nibble reads as set.
    pub open spec fn spec_read_ram(self, addr: usize) -> u8 {
        if !self.ram_enabled {
            0xFF
        } else {
            0xF0 | (self.ram@[((addr - RAM_START) as usize & 0b1_1111_1111) as int] & 0xF)
        }
    }

    pub open spec fn spec_write_ram(self, addr: usize, byte: u8) -> Mbc2 {
        if !self.ram_enabled {
            self
        } else {
            Mbc2 {
                ram: vstd::array::spec_array_update(self.ram, ((addr - RAM_START) as usize & 0b1_1111_1111) as int, byte & 0xF),
                ..self
            }
        }
    }

    /// A controller over the given ROM banks (flattened), with its built-in
    /// RAM zeroed.
    pub fn new_with_ram(rom: Vec<u8>, rom_banks: usize) -> (r: Self)
        requires
            2 <= rom_banks <= 512,
            rom@.len() == rom_banks * ROM_BANK_SIZE,
        ensures
            r.wf(),
            r.rom@ == rom@ && r.rom_banks == rom_banks,
            r.ram@ == Seq::new(MBC2_RAM_SIZE as nat, |i: int| 0u8),
            !r.has_battery && r.current_rom_bank == 1 && !r.ram_enabled,
    {
        let r = Mbc2 {
            rom,
            rom_banks,
            ram: [0u8; MBC2_RAM_SIZE],
            has_battery: false,
            current_rom_bank: 1,
            ram_enabled: false,
        };
        assert(r.ram@ =~= Seq::new(MBC2_RAM_SIZE as nat, |i: int| 0u8));
        r
    }

    /// Adds a battery, loading the low nibbles of the first 512 bytes of the
    /// last save if there is one.
    pub fn with_battery(self, saved_ram: Option<Vec<u8>>) -> (r: Self)
        requires
            self.wf(),
            saved_ram matches Some(s) ==> s@.len() >= RAM_BANK_SIZE,
        ensures
            r.wf(),
            r.has_battery,
            saved_ram matches Some(s) ==> forall|i: int| 0 <= i < MBC2_RAM_SIZE ==> r.ram@[i] == s@[i] & 0xF,
            saved_ram is None ==> r.ram == self.ram,
            r.rom == self.rom && r.rom_banks == self.rom_banks,
            r.current_rom_bank == self.current_rom_bank && r.ram_enabled == self.ram_enabled,
    {
        let mut s = self;
        match saved_ram {
            Some(saved) => {
                let mut i: usize = 0;
                while i < MBC2_RAM_SIZE
                    invariant
                        i <= MBC2_RAM_SIZE,
                        saved@.len() >= RAM_BANK_SIZE,
                        s.wf(),
                        s.rom == self.rom && s.rom_banks == self.rom_banks,
                        s.current_rom_bank == self.current_rom_bank && s.ram_enabled == self.ram_enabled,
                        forall|j: int| 0 <= j < i ==> s.ram@[j] == saved@[j] & 0xF,
                    decreases MBC2_RAM_SIZE - i,
                {
                    s.ram[i] = saved[i] & 0xF;
                    i = i + 1;
                }
            },
            None => {},
        }
        s.has_battery = true;
        s
    }

    /// Reads ROM (0x0000..=0x7FFF).
    pub fn read_rom(&self, addr: usize) -> (r: u8)
        requires
            self.wf(),
            addr <= 0x7FFF,
        ensures
            r == self.spec_read_rom(addr),
    {
        if addr <= 0x3FFF {
            read_or_open(&self.rom, addr)
        } else {
            read_or_open(&self.rom, self.current_rom_bank * ROM_BANK_SIZE + addr - 0x4000)
        }
    }

    /// Writes a control register; address bit 8 selects RAM enable (clear)
    /// or ROM bank (set).
    pub fn write_rom(&mut self, addr: usize, byte: u8)
        requires
            old(self).wf(),
            addr <= 0x7FFF,
        ensures
            final(self).wf(),
            *final(self) == old(self).spec_write_rom(addr, byte),
    {
        if addr <= 0x3FFF {
            if addr & 0x100 == 0 {
                self.ram_enabled = (byte & 0xF) == 0xA;
            } else {
                proof {
                    crate::bits::lemma_bank_increment(byte, 0);
                }
                let b = if byte & 0b1111 == 0 { byte + 1 } else { byte };
                let mask = self.rom_banks - 1;
                proof {
                    crate::bits::lemma_and_le_usize(b as usize, mask);
                }
                self.current_rom_bank = b as usize & mask;
            }
        }
    }

    /// Reads RAM; the 512 half-bytes repeat over 0xA000..=0xBFFF.
    pub fn read_ram(&self, addr: usize) -> (r: u8)
        requires
            RAM_START <= addr <= RAM_END,
        ensures
            r == self.spec_read_ram(addr),
    {
        if !self.ram_enabled {
            return 0xFF;
        }
        proof {
            crate::bits::lemma_and_le_usize((addr - RAM_START) as usize, 0b1_1111_1111);
        }
        0xF0 | (self.ram[(addr - RAM_START) & 0b1_1111_1111] & 0xF)
    }

    /// Writes the low nibble of `byte` to RAM.
    pub fn write_ram(&mut self, addr: usize, byte: u8)
        requires
            RAM_START <= addr <= RAM_END,
        ensures
            *final(self) == old(self).spec_write_ram(addr, byte),
    {
        if !self.ram_enabled {
            return;
        }
        proof {
            crate::bits::lemma_and_le_usize((addr - RAM_START) as usize, 0b1_1111_1111);
        }
        let i = (addr - RAM_START) & 0b1_1111_1111;
        self.ram[i] = byte & 0xF;
        assert(self.ram =~= vstd::array::spec_array_update(old(self).ram, i as int, byte & 0xF));
    }

    /// The RAM to save (one 8 KiB bank whose first 512 bytes hold the
    /// half-bytes), if the cartridge has a battery.
    pub fn save_state(&self) -> (r: Option<Vec<u8>>)
        ensures
            self.has_battery ==> (r matches Some(v) && v@.len() == RAM_BANK_SIZE
                && (forall|i: int| 0 <= i < MBC2_RAM_SIZE ==> v@[i] == self.ram@[i] & 0xF)
                && (forall|i: int| MBC2_RAM_SIZE <= i < RAM_BANK_SIZE ==> v@[i] == 0)),
            !self.has_battery ==> r is None,
    {
        if !self.has_battery {
            return None;
        }
        let mut out: Vec<u8> = Vec::new();
        let mut i: usize = 0;
        while i < RAM_BANK_SIZE
            invariant
                i <= RAM_BANK_SIZE,
                out@.len() == i,
                forall|j: int| 0 <= j < i && j < MBC2_RAM_SIZE ==> out@[j] == self.ram@[j] & 0xF,
                forall|j: int| MBC2_RAM_SIZE <= j < i ==> out@[j] == 0,
            decreases RAM_BANK_SIZE - i,
        {
            if i < MBC2_RAM_SIZE {
                out.push(self.ram[i] & 0xF);
            } else {
                out.push(0);
            }
            i = i + 1;
        }
        Some(out)
    }
}

/// A RAM write reads back as the written low nibble with the upper nibble
/// set, while RAM is enabled.
pub proof fn lemma_mbc2_ram_roundtrip(m: Mbc2, addr: usize, byte: u8)
    requires
        RAM_START <= addr <= RAM_END,
        m.ram_enabled,
    ensures
        m.spec_write_ram(addr, byte).spec_read_ram(addr) == 0xF0 | (byte & 0xF),
{
    crate::bits::lemma_and_le_usize((addr - RAM_START) as usize, 0b1_1111_1111);
    crate::bits::lemma_nibble_idem(byte);
}


/// A write to 0x0000..=0x3FFF with address bit 8 set selects the ROM bank
/// given by the low nibble of the byte (0 meaning 1), taken modulo the
/// number of banks, for 0x4000..=0x7FFF: every byte there then reads from
/// that bank, while 0x0000..=0x3FFF keeps reading bank 0. With bit 8 clear
/// the write enables RAM exactly when the low nibble is 0xA, and leaves the
/// bank.
pub proof fn lemma_mbc2_rom_bank(m: Mbc2, addr: usize, byte: u8, i: usize)
    requires
        m.wf(),
        m.rom_banks == 2 || m.rom_banks == 4 || m.rom_banks == 8 || m.rom_banks == 16,
        addr <= 0x3FFF,
        i < 0x4000,
    ensures
        ({
            let w = m.spec_write_rom(addr, byte);
            let nib: int = byte as int % 16;
            let bank: int = (if nib == 0 { 1 } else { nib }) % (m.rom_banks as int);
            &&& (addr / 256) % 2 == 1 ==> w.spec_read_rom((0x4000 + i) as usize) == m.rom@[bank * 0x4000 + i]
            &&& (addr / 256) % 2 == 0 ==> w.ram_enabled == (nib == 10)
                && w.current_rom_bank == m.current_rom_bank
            &&& w.spec_read_rom(i) == m.rom@[i as int]
        }),
{
    let x: usize = byte as usize;
    let y: usize = ((if byte & 0b1111 == 0 { (byte + 1) as u8 } else { byte }) as usize);
    let k: usize = (m.rom_banks - 1) as usize;
    assert((addr & 0x100 == 0) == ((addr / 256) % 2 == 0)
        && (x & 0xF == 0xA) == (x % 16 == 10) && (x & 0xF == 0) == (x % 16 == 0)
        && (x <= 0xFF && (k == 1 || k == 3 || k == 7 || k == 15) ==> (
            (x & 0xF == 0 ==> (((x + 1) as usize) & k) == 1usize % ((k + 1) as usize))
            && (x & 0xF != 0 ==> (x & k) == (x % 16) % ((k + 1) as usize))))) by (bit_vector);
    crate::bits::lemma_u8_nibbles(byte);
    assert(y & k < m.rom_banks) by {
        crate::bits::lemma_and_le_usize(y, k);
    }
}

} // verus!
