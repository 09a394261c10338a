use vstd::prelude::*;
use crate::apu::{Apu, ApuState, SampleFrame};
use crate::cartridge::Cartridge;
use crate::cartridge::mbc::SaveData;
use crate::cpu::{GBModel, Interrupt};
use crate::joypad::Joypad;
use crate::ppu::{Ppu, PpuState};
use crate::timer::Timer;

verus! {

pub const WRAM_SIZE: usize = 0x2000;

pub const HRAM_SIZE: usize = 0x0080;

pub const ROM_START: usize = 0x0000;

pub const ROM_END: usize = 0x7FFF;

pub const VRAM_START: usize = 0x8000;

pub const VRAM_END: usize = 0x9FFF;

pub const RAM_START: usize = 0xA000;

pub const RAM_END: usize = 0xBFFF;

pub const WRAM_START: usize = 0xC000;

pub const WRAM_END: usize = 0xDFFF;

pub const WRAM2_START: usize = 0xE000;

pub const WRAM2_END: usize = 0xFDFF;

pub const OAM_START: usize = 0xFE00;

pub const OAM_END: usize = 0xFE9F;

pub const EMPTY_START: usize = 0xFEA0;

pub const EMPTY_END: usize = 0xFEFF;

pub const HRAM_START: usize = 0xFF80;

pub const HRAM_END: usize = 0xFFFE;

/// An OAM DMA transfer lasts 160 M-cycles, one byte each.
pub const DMA_CYCLES: u16 = 160;

/// The IF bit of an interrupt.
pub open spec fn interrupt_bit(interrupt: Interrupt) -> u8 {
    match interrupt {
        Interrupt::VBlank => 0x01,
        Interrupt::Stat => 0x02,
        Interrupt::Timer => 0x04,
        Interrupt::Serial => 0x08,
        Interrupt::Joypad => 0x10,
    }
}

/// The memory bus: it maps the address space onto the cartridge, the
/// memories and the I/O registers of each component.
pub struct Bus {
    pub model: GBModel,
    pub double_speed: bool,
    /// Every byte written to the serial data register.
    pub serial_output: Vec<u8>,
    pub cartridge: Cartridge,
    pub joypad: Joypad,
    pub apu: Apu,
    pub ppu: Ppu,
    pub wram: [u8; WRAM_SIZE],
    pub timer: Timer,
    pub hram: [u8; HRAM_SIZE],
    pub interrupt_enable: u8,
    pub interrupt_flag: u8,
    pub dma_start: u16,
    pub dma_ticks: u16,
    // CGB only
    pub key1: u8,
    pub hdma1: u8,
    pub hdma2: u8,
    pub hdma3: u8,
    pub hdma4: u8,
    pub hdma5: u8,
    pub rp: u8,
    pub svbk: u8,
}

/// The bus as plain values.
pub struct BusState {
    pub model: GBModel,
    pub double_speed: bool,
    pub serial_output: Seq<u8>,
    pub cartridge: Cartridge,
    pub joypad: Joypad,
    pub apu: ApuState,
    pub ppu: PpuState,
    pub wram: Seq<u8>,
    pub timer: Timer,
    pub hram: Seq<u8>,
    pub interrupt_enable: u8,
    pub interrupt_flag: u8,
    pub dma_start: u16,
    pub dma_ticks: u16,
    pub key1: u8,
    pub hdma1: u8,
    pub hdma2: u8,
    pub hdma3: u8,
    pub hdma4: u8,
    pub hdma5: u8,
    pub rp: u8,
    pub svbk: u8,
}

impl View for Bus {
    type V = BusState;

    closed spec fn view(&self) -> BusState {
        BusState {
            model: self.model,
            double_speed: self.double_speed,
            serial_output: self.serial_output@,
            cartridge: self.cartridge,
            joypad: self.joypad,
            apu: self.apu@,
            ppu: self.ppu@,
            wram: self.wram@,
            timer: self.timer,
            hram: self.hram@,
            interrupt_enable: self.interrupt_enable,
            interrupt_flag: self.interrupt_flag,
            dma_start: self.dma_start,
            dma_ticks: self.dma_ticks,
            key1: self.key1,
            hdma1: self.hdma1,
            hdma2: self.hdma2,
            hdma3: self.hdma3,
            hdma4: self.hdma4,
            hdma5: self.hdma5,
            rp: self.rp,
            svbk: self.svbk,
        }
    }
}

impl BusState {
    pub open spec fn is_cgb(self) -> bool {
        self.model == GBModel::CGB
    }

    pub closed spec fn wf(self) -> bool {
        &&& self.cartridge.wf()
        &&& self.apu.wf()
        &&& self.ppu.wf()
        &&& self.timer.wf()
        &&& self.wram.len() == WRAM_SIZE
        &&& self.hram.len() == HRAM_SIZE
        &&& self.dma_ticks <= DMA_CYCLES
    }

    /// The byte at `addr`; unused addresses read 0xFF.
    #[verifier::opaque]
    pub open spec fn spec_read_byte(self, addr: u16) -> u8 {
        let a = addr as usize;
        if a <= ROM_END {
            self.cartridge.spec_read_rom(a)
        } else if a <= VRAM_END {
            self.ppu.spec_read_vram(a)
        } else if a <= RAM_END {
            self.cartridge.spec_read_ram(a)
        } else if a <= WRAM_END {
            self.wram[a - WRAM_START]
        } else if a <= WRAM2_END {
            self.wram[a - WRAM2_START]
        } else if a <= OAM_END {
            self.ppu.spec_read_oam(a)
        } else if a <= EMPTY_END {
            0xFF
        } else if a == 0xFF00 {
            self.joypad.joypad
        } else if 0xFF04 <= a <= 0xFF07 {
            self.timer.spec_read_io(a)
        } else if a == 0xFF0F {
            self.interrupt_flag
        } else if (0xFF10 <= a <= 0xFF26) || (0xFF30 <= a <= 0xFF3F) {
            self.apu.spec_read_io(a)
        } else if 0xFF40 <= a <= 0xFF4B {
            self.ppu.spec_read_io(a)
        } else if a == 0xFF50 {
            self.cartridge.bank
        } else if self.is_cgb() && a == 0xFF4D {
            self.key1
        } else if self.is_cgb() && a == 0xFF4F {
            self.ppu.spec_read_io(a)
        } else if self.is_cgb() && a == 0xFF55 {
            self.hdma5
        } else if self.is_cgb() && a == 0xFF56 {
            self.rp
        } else if self.is_cgb() && 0xFF68 <= a <= 0xFF6C {
            self.ppu.spec_read_io(a)
        } else if self.is_cgb() && a == 0xFF70 {
            self.svbk
        } else if self.is_cgb() && (a == 0xFF76 || a == 0xFF77) {
            self.apu.spec_read_io(a)
        } else if HRAM_START <= a <= HRAM_END {
            self.hram[a - HRAM_START]
        } else if a == 0xFFFF {
            self.interrupt_enable
        } else {
            0xFF
        }
    }

    /// `n` M-cycles of an OAM DMA transfer (if one is running): a byte
    /// copied to OAM each cycle.
    pub open spec fn spec_step_oam_dma(self, n: nat) -> BusState
        decreases n,
    {
        if n == 0 || self.dma_ticks >= DMA_CYCLES {
            self
        } else {
            let byte = self.spec_read_byte(self.dma_start | self.dma_ticks);
            BusState {
                ppu: self.ppu.spec_write_oam((OAM_START + self.dma_ticks) as usize, byte),
                dma_ticks: (self.dma_ticks + 1) as u16,
                ..self
            }.spec_step_oam_dma((n - 1) as nat)
        }
    }

    /// A write to the DMA register starts a transfer from `byte * 0x100`.
    #[verifier::opaque]
    pub open spec fn spec_write_dma(self, byte: u8) -> BusState {
        BusState {
            ppu: PpuState { dma: byte, ..self.ppu },
            dma_start: ((byte as u16) << 8u16) as u16,
            dma_ticks: 0,
            ..self
        }.spec_step_oam_dma(1)
    }

    /// The bus after writing `byte` to `addr`, with the real-time clock (if
    /// the cartridge has one) reading `now`.
    #[verifier::opaque]
    pub open spec fn spec_write_byte(self, addr: u16, byte: u8, now: u64) -> BusState {
        let a = addr as usize;
        if a <= ROM_END {
            BusState { cartridge: self.cartridge.spec_write_rom(a, byte, now), ..self }
        } else if a <= VRAM_END {
            BusState { ppu: self.ppu.spec_write_vram(a, byte), ..self }
        } else if a <= RAM_END {
            BusState { cartridge: self.cartridge.spec_write_ram(a, byte), ..self }
        } else if a <= WRAM_END {
            BusState { wram: self.wram.update(a - WRAM_START, byte), ..self }
        } else if a <= WRAM2_END {
            BusState { wram: self.wram.update(a - WRAM2_START, byte), ..self }
        } else if a <= OAM_END {
            BusState { ppu: self.ppu.spec_write_oam(a, byte), ..self }
        } else if a <= EMPTY_END {
            self
        } else if a == 0xFF00 {
            BusState { joypad: self.joypad.spec_write(byte), ..self }
        } else if a == 0xFF01 {
            BusState { serial_output: self.serial_output.push(byte), ..self }
        } else if 0xFF04 <= a <= 0xFF07 {
            BusState { timer: self.timer.spec_write_io(a, byte), ..self }
        } else if a == 0xFF0F {
            BusState { interrupt_flag: 0xE0 | byte, ..self }
        } else if (0xFF10 <= a <= 0xFF26) || (0xFF30 <= a <= 0xFF3F) {
            BusState { apu: self.apu.spec_write_io(a, byte), ..self }
        } else if a == 0xFF46 {
            self.spec_write_dma(byte)
        } else if 0xFF40 <= a <= 0xFF4B {
            BusState { ppu: self.ppu.spec_write_io(a, byte), ..self }
        } else if a == 0xFF50 {
            BusState { cartridge: Cartridge { bank: byte, ..self.cartridge }, ..self }
        } else if self.is_cgb() && a == 0xFF4D {
            BusState { key1: byte & 0x7F, ..self }
        } else if self.is_cgb() && a == 0xFF4F {
            BusState { ppu: self.ppu.spec_write_io(a, byte), ..self }
        } else if self.is_cgb() && a == 0xFF51 {
            BusState { hdma1: byte, ..self }
        } else if self.is_cgb() && a == 0xFF52 {
            BusState { hdma2: byte, ..self }
        } else if self.is_cgb() && a == 0xFF53 {
            BusState { hdma3: byte, ..self }
        } else if self.is_cgb() && a == 0xFF54 {
            BusState { hdma4: byte, ..self }
        } else if self.is_cgb() && a == 0xFF55 {
            BusState { hdma5: byte, ..self }
        } else if self.is_cgb() && a == 0xFF56 {
            BusState { rp: byte & 0xFD, ..self }
        } else if self.is_cgb() && 0xFF68 <= a <= 0xFF6C {
            BusState { ppu: self.ppu.spec_write_io(a, byte), ..self }
        } else if self.is_cgb() && a == 0xFF70 {
            BusState { svbk: byte, ..self }
        } else if HRAM_START <= a <= HRAM_END {
            BusState { hram: self.hram.update(a - HRAM_START, byte), ..self }
        } else if a == 0xFFFF {
            BusState { interrupt_enable: byte, ..self }
        } else {
            self
        }
    }

    /// The bus after `partial_step(t)`: `t / 4` M-cycles of DMA, then `t`
    /// T-cycles of the timer (requesting its interrupt on overflow), and a
    /// frame sequencer clock on a falling edge of the watched DIV bit.
    pub closed spec fn spec_partial_step(self, t: u32) -> BusState {
        let a = self.spec_step_oam_dma((t / 4) as nat);
        let (timer, overflow) = a.timer.spec_step(t);
        let b = BusState { timer, ..a };
        let c = if overflow { b.spec_request_interrupt(Interrupt::Timer) } else { b };
        let mask: u8 = if c.double_speed { 0x20 } else { 0x10 };
        if a.timer.div & mask != 0 && timer.div & mask == 0 {
            BusState { apu: c.apu.spec_frame_sequencer_step(), ..c }
        } else {
            c
        }
    }

    /// The bus after `step(t)`: the APU over `t` T-cycles, the PPU over
    /// `t / 4` M-cycles, and the interrupts they raise.
    pub closed spec fn spec_step(self, t: u32) -> BusState {
        let a = BusState { apu: self.apu.spec_step(t), ..self };
        let b = BusState { ppu: a.ppu.spec_step((t / 4) as u8), ..a };
        let c = if b.ppu.entered_vblank { b.spec_request_interrupt(Interrupt::VBlank) } else { b };
        let d = if c.ppu.stat_triggered { c.spec_request_interrupt(Interrupt::Stat) } else { c };
        if d.joypad.interrupt { d.spec_request_interrupt(Interrupt::Joypad) } else { d }
    }

    /// The bus with an interrupt requested in IF.
    pub open spec fn spec_request_interrupt(self, interrupt: Interrupt) -> BusState {
        BusState { interrupt_flag: self.interrupt_flag | interrupt_bit(interrupt), ..self }
    }
}

impl Bus {
    pub open spec fn wf(&self) -> bool {
        self@.wf()
    }

    fn is_cgb(&self) -> (r: bool)
        ensures
            r == self@.is_cgb(),
    {
        self.model == GBModel::CGB
    }

    /// Returns the byte at `addr`; unused addresses read 0xFF.
    pub fn read_byte(&self, addr: u16) -> (r: u8)
        requires
            self.wf(),
        ensures
            r == self@.spec_read_byte(addr),
    {
        reveal(BusState::spec_write_byte);
        reveal(BusState::spec_read_byte);
        let addr = addr as usize;
        if addr <= ROM_END {
            self.cartridge.read_rom(addr)
        } else if addr <= VRAM_END {
            self.ppu.read_vram(addr)
        } else if addr <= RAM_END {
            self.cartridge.read_ram(addr)
        } else if addr <= WRAM_END {
            self.wram[addr - WRAM_START]
        } else if addr <= WRAM2_END {
            self.wram[addr - WRAM2_START]
        } else if addr <= OAM_END {
            self.ppu.read_oam(addr)
        } else if addr <= EMPTY_END {
            0xFF
        } else if addr == 0xFF00 {
            self.joypad.read_joypad()
        } else if 0xFF04 <= addr && addr <= 0xFF07 {
            self.timer.read_io(addr)
        } else if addr == 0xFF0F {
            self.interrupt_flag
        } else if (0xFF10 <= addr && addr <= 0xFF26) || (0xFF30 <= addr && addr <= 0xFF3F) {
            self.apu.read_io(addr)
        } else if 0xFF40 <= addr && addr <= 0xFF4B {
            self.ppu.read_io(addr)
        } else if addr == 0xFF50 {
            self.cartridge.read_bank()
        } else if self.is_cgb() && addr == 0xFF4D {
            self.key1
        } else if self.is_cgb() && addr == 0xFF4F {
            self.ppu.read_io(addr)
        } else if self.is_cgb() && addr == 0xFF55 {
            self.hdma5
        } else if self.is_cgb() && addr == 0xFF56 {
            self.rp
        } else if self.is_cgb() && 0xFF68 <= addr && addr <= 0xFF6C {
            self.ppu.read_io(addr)
        } else if self.is_cgb() && addr == 0xFF70 {
            self.svbk
        } else if self.is_cgb() && (addr == 0xFF76 || addr == 0xFF77) {
            self.apu.read_io(addr)
        } else if HRAM_START <= addr && addr <= HRAM_END {
            self.hram[addr - HRAM_START]
        } else if addr == 0xFFFF {
            self.interrupt_enable
        } else {
            0xFF
        }
    }

    /// Writes `byte` to `addr` if it is writable; a write to the DMA
    /// register starts an OAM DMA transfer.
    pub fn write_byte(&mut self, addr: u16, byte: u8)
        requires
            old(self).wf(),
        ensures
            final(self).wf(),
            final(self)@.cartridge.rtc_time() >= old(self)@.cartridge.rtc_time(),
            final(self)@ == old(self)@.spec_write_byte(addr, byte, final(self)@.cartridge.rtc_time()),
    {
        reveal(BusState::spec_write_byte);
        reveal(BusState::spec_read_byte);
        let addr = addr as usize;
        if addr < 0xFF00 {
            self.write_memory(addr, byte);
        } else {
            self.write_io_register(addr, byte);
        }
    }

    /// Writes the cartridge, VRAM, WRAM (and its echo) or OAM.
    fn write_memory(&mut self, addr: usize, byte: u8)
        requires
            old(self).wf(),
            addr < 0xFF00,
        ensures
            final(self).wf(),
            final(self)@.cartridge.rtc_time() >= old(self)@.cartridge.rtc_time(),
            final(self)@ == old(self)@.spec_write_byte(addr as u16, byte, final(self)@.cartridge.rtc_time()),
    {
        reveal(BusState::spec_write_byte);
        reveal(BusState::spec_read_byte);
        if addr <= VRAM_END {
            self.write_rom_vram(addr, byte);
        } else {
            self.write_ram_oam(addr, byte);
        }
    }

    /// Writes an MBC register or VRAM.
    #[verifier::rlimit(40)]
    fn write_rom_vram(&mut self, addr: usize, byte: u8)
        requires
            old(self).wf(),
            addr <= VRAM_END,
        ensures
            final(self).wf(),
            final(self)@.cartridge.rtc_time() >= old(self)@.cartridge.rtc_time(),
            final(self)@ == old(self)@.spec_write_byte(addr as u16, byte, final(self)@.cartridge.rtc_time()),
    {
        reveal(BusState::spec_write_byte);
        reveal(BusState::spec_read_byte);
        if addr <= ROM_END {
            self.cartridge.write_rom(addr, byte);
        } else {
            self.ppu.write_vram(addr, byte);
        }
    }

    /// Writes cartridge RAM, WRAM (and its echo) or OAM.
    #[verifier::rlimit(40)]
    fn write_ram_oam(&mut self, addr: usize, byte: u8)
        requires
            old(self).wf(),
            VRAM_END < addr < 0xFF00,
        ensures
            final(self).wf(),
            final(self)@.cartridge.rtc_time() >= old(self)@.cartridge.rtc_time(),
            final(self)@ == old(self)@.spec_write_byte(addr as u16, byte, final(self)@.cartridge.rtc_time()),
    {
        reveal(BusState::spec_write_byte);
        reveal(BusState::spec_read_byte);
        if addr <= RAM_END {
            self.cartridge.write_ram(addr, byte);
        } else if addr <= WRAM2_END {
            self.write_wram(addr, byte);
        } else if addr <= OAM_END {
            self.ppu.write_oam(addr, byte);
        }
    }

    /// Writes WRAM or its echo.
    #[verifier::rlimit(40)]
    fn write_wram(&mut self, addr: usize, byte: u8)
        requires
            old(self).wf(),
            WRAM_START <= addr <= WRAM2_END,
        ensures
            final(self).wf(),
            final(self)@.cartridge.rtc_time() >= old(self)@.cartridge.rtc_time(),
            final(self)@ == old(self)@.spec_write_byte(addr as u16, byte, final(self)@.cartridge.rtc_time()),
    {
        reveal(BusState::spec_write_byte);
        reveal(BusState::spec_read_byte);
        if addr <= WRAM_END {
            self.wram[addr - WRAM_START] = byte;
            assert(self.wram@ =~= old(self).wram@.update(addr - WRAM_START, byte));
        } else {
            self.wram[addr - WRAM2_START] = byte;
            assert(self.wram@ =~= old(self).wram@.update(addr - WRAM2_START, byte));
        }
    }


    /// Writes an I/O register, HRAM or IE (0xFF00..=0xFFFF).
    fn write_io_register(&mut self, addr: usize, byte: u8)
        requires
            old(self).wf(),
            0xFF00 <= addr <= 0xFFFF,
        ensures
            final(self).wf(),
            final(self)@.cartridge.mbc == old(self)@.cartridge.mbc,
            final(self)@ == old(self)@.spec_write_byte(addr as u16, byte, old(self)@.cartridge.rtc_time()),
    {
        reveal(BusState::spec_write_byte);
        reveal(BusState::spec_read_byte);
        if addr < 0xFF40 {
            self.write_low_io(addr, byte);
        } else if addr < 0xFF80 {
            self.write_video_io(addr, byte);
        } else if addr <= HRAM_END {
            self.hram[addr - HRAM_START] = byte;
            assert(self.hram@ =~= old(self).hram@.update(addr - HRAM_START, byte));
        } else {
            self.interrupt_enable = byte;
        }
    }

    /// Writes the joypad, serial, timer, IF or sound registers.
    #[verifier::rlimit(40)]
    fn write_low_io(&mut self, addr: usize, byte: u8)
        requires
            old(self).wf(),
            0xFF00 <= addr < 0xFF40,
        ensures
            final(self).wf(),
            final(self)@.cartridge.mbc == old(self)@.cartridge.mbc,
            final(self)@ == old(self)@.spec_write_byte(addr as u16, byte, old(self)@.cartridge.rtc_time()),
    {
        reveal(BusState::spec_write_byte);
        reveal(BusState::spec_read_byte);
        if addr == 0xFF00 {
            self.joypad.write_joypad(byte);
        } else if addr == 0xFF01 {
            self.serial_output.push(byte);
        } else if 0xFF04 <= addr && addr <= 0xFF07 {
            self.timer.write_io(addr, byte);
        } else if addr == 0xFF0F {
            self.interrupt_flag = 0xE0 | byte;
        } else if (0xFF10 <= addr && addr <= 0xFF26) || (0xFF30 <= addr && addr <= 0xFF3F) {
            self.apu.write_io(addr, byte);
        }
    }

    /// Writes the LCD registers, the boot ROM switch and the CGB registers.
    fn write_video_io(&mut self, addr: usize, byte: u8)
        requires
            old(self).wf(),
            0xFF40 <= addr < 0xFF80,
        ensures
            final(self).wf(),
            final(self)@.cartridge.mbc == old(self)@.cartridge.mbc,
            final(self)@ == old(self)@.spec_write_byte(addr as u16, byte, old(self)@.cartridge.rtc_time()),
    {
        reveal(BusState::spec_write_byte);
        reveal(BusState::spec_read_byte);
        if addr <= 0xFF4B {
            self.write_lcd_io(addr, byte);
        } else if addr == 0xFF50 {
            self.cartridge.write_bank(byte);
        } else {
            self.write_cgb_io(addr, byte);
        }
    }

    /// Writes an LCD register (a write to DMA starts a transfer).
    #[verifier::rlimit(40)]
    fn write_lcd_io(&mut self, addr: usize, byte: u8)
        requires
            old(self).wf(),
            0xFF40 <= addr <= 0xFF4B,
        ensures
            final(self).wf(),
            final(self)@.cartridge.mbc == old(self)@.cartridge.mbc,
            final(self)@ == old(self)@.spec_write_byte(addr as u16, byte, old(self)@.cartridge.rtc_time()),
    {
        reveal(BusState::spec_write_byte);
        reveal(BusState::spec_read_byte);
        if addr == 0xFF46 {
            self.write_dma(byte);
        } else {
            self.ppu.write_io(addr, byte);
        }
    }

    /// Writes a CGB register (ignored on DMG).
    #[verifier::rlimit(40)]
    fn write_cgb_io(&mut self, addr: usize, byte: u8)
        requires
            old(self).wf(),
            0xFF4C <= addr < 0xFF80 && addr != 0xFF50,
        ensures
            final(self).wf(),
            final(self)@.cartridge.mbc == old(self)@.cartridge.mbc,
            final(self)@ == old(self)@.spec_write_byte(addr as u16, byte, old(self)@.cartridge.rtc_time()),
    {
        reveal(BusState::spec_write_byte);
        reveal(BusState::spec_read_byte);
        if self.is_cgb() {
            if addr == 0xFF4D {
                self.key1 = byte & 0x7F;
            } else if addr == 0xFF4F {
                self.ppu.write_io(addr, byte);
            } else if addr == 0xFF51 {
                self.hdma1 = byte;
            } else if addr == 0xFF52 {
                self.hdma2 = byte;
            } else if addr == 0xFF53 {
                self.hdma3 = byte;
            } else if addr == 0xFF54 {
                self.hdma4 = byte;
            } else if addr == 0xFF55 {
                self.hdma5 = byte;
            } else if addr == 0xFF56 {
                self.rp = byte & 0xFD;
            } else if 0xFF68 <= addr && addr <= 0xFF6C {
                self.ppu.write_io(addr, byte);
            } else if addr == 0xFF70 {
                self.svbk = byte;
            }
        }
    }

    /// Writes the DMA register and starts an OAM DMA transfer from
    /// `byte * 0x100`, whose first byte is copied at once.
    fn write_dma(&mut self, byte: u8)
        requires
            old(self).wf(),
        ensures
            final(self).wf(),
            final(self)@.cartridge == old(self)@.cartridge,
            final(self)@ == old(self)@.spec_write_dma(byte),
    {
        reveal(BusState::spec_write_dma);
        self.ppu.write_dma(byte);
        self.dma_start = (byte as u16) << 8u16;
        self.dma_ticks = 0;
        self.step_oam_dma(1);
    }

    /// Runs an OAM DMA transfer (if one is running) for `cycles` M-cycles:
    /// one byte is copied to OAM per M-cycle.
    fn step_oam_dma(&mut self, n: u32)
        requires
            old(self).wf(),
        ensures
            final(self).wf(),
            final(self)@.cartridge == old(self)@.cartridge,
            final(self)@ == old(self)@.spec_step_oam_dma(n as nat),
    {
        let mut cycles = n;
        while cycles > 0 && self.dma_ticks < DMA_CYCLES
            invariant
                self.wf(),
                self@.cartridge == old(self)@.cartridge,
                self@.spec_step_oam_dma(cycles as nat) == old(self)@.spec_step_oam_dma(n as nat),
            decreases cycles,
        {
            let dma_index = self.dma_ticks;
            let byte = self.read_byte(self.dma_start | dma_index);
            self.ppu.write_oam(OAM_START + dma_index as usize, byte);
            cycles -= 1;
            self.dma_ticks = self.dma_ticks + 1;
        }
    }

    /// Sets the interrupt's bit in IF, requesting it.
    pub fn request_interrupt(&mut self, interrupt: Interrupt)
        ensures
            final(self)@ == old(self)@.spec_request_interrupt(interrupt),
    {
        let bit: u8 = match interrupt {
            Interrupt::VBlank => 0x01,
            Interrupt::Stat => 0x02,
            Interrupt::Timer => 0x04,
            Interrupt::Serial => 0x08,
            Interrupt::Joypad => 0x10,
        };
        self.interrupt_flag = self.interrupt_flag | bit;
    }

    /// A bus for `cartridge` on the given model, all memories cleared and
    /// no transfer running.
    pub fn new(cartridge: Cartridge, model: GBModel) -> (r: Self)
        requires
            cartridge.wf(),
        ensures
            r.wf(),
            r@.model == model,
            !r@.double_speed,
            r@.serial_output.len() == 0,
            r@.cartridge == cartridge,
            r@.joypad.joypad == 0xFF && !r@.joypad.interrupt,
            r@.apu.model == model && r@.apu.apu_on,
            r@.apu == Apu::spec_initial(model),
            r@.timer == Timer::spec_initial(),
            r@.ppu == crate::ppu::initial_ppu(model),
            r@.wram == Seq::new(WRAM_SIZE as nat, |i: int| 0u8),
            r@.hram == Seq::new(HRAM_SIZE as nat, |i: int| 0u8),
            r@.timer.div == 0 && r@.timer.tima == 0 && r@.timer.tma == 0 && r@.timer.tac == 0,
            r@.interrupt_enable == 0,
            r@.interrupt_flag == 0xE0,
            r@.dma_start == 0,
            r@.dma_ticks == DMA_CYCLES,
            r@.key1 == 0 && r@.hdma1 == 0 && r@.hdma2 == 0 && r@.hdma3 == 0 && r@.hdma4 == 0,
            r@.hdma5 == 0 && r@.rp == 0 && r@.svbk == 0,
    {
        let r = Bus {
            model,
            double_speed: false,
            serial_output: Vec::new(),
            cartridge,
            joypad: Joypad::new(),
            apu: Apu::new(model),
            ppu: Ppu::new(model),
            wram: [0u8; WRAM_SIZE],
            timer: Timer::new(),
            hram: [0u8; HRAM_SIZE],
            interrupt_enable: 0,
            interrupt_flag: 0xE0,
            dma_start: 0,
            dma_ticks: DMA_CYCLES,
            key1: 0,
            hdma1: 0,
            hdma2: 0,
            hdma3: 0,
            hdma4: 0,
            hdma5: 0,
            rp: 0,
            svbk: 0,
        };
        assert(r.wram@ =~= Seq::new(WRAM_SIZE as nat, |i: int| 0u8));
        assert(r.hram@ =~= Seq::new(HRAM_SIZE as nat, |i: int| 0u8));
        r
    }

    /// Steps the components that need M-cycle accuracy over `t_cycles`
    /// T-cycles: the OAM DMA transfer (a byte per M-cycle) and the timer;
    /// the frame sequencer is clocked by a falling edge of DIV bit 4 (bit 5
    /// at double speed). The timer's step counters must not overflow.
    pub fn partial_step(&mut self, t_cycles: u32)
        requires
            old(self).wf(),
            old(self)@.timer.div_stepper.steps_so_far + t_cycles <= u32::MAX,
            old(self)@.timer.tima_stepper.steps_so_far + t_cycles <= u32::MAX,
        ensures
            final(self).wf(),
            final(self)@ == old(self)@.spec_partial_step(t_cycles),
    {
        self.step_oam_dma(t_cycles / 4);
        proof {
            lemma_dma_frame(old(self)@, (t_cycles / 4) as nat);
        }
        let old_div = self.timer.div;
        if self.timer.step(t_cycles) {
            self.request_interrupt(Interrupt::Timer);
        }
        let mask: u8 = if self.double_speed { 0x20 } else { 0x10 };
        if old_div & mask != 0 && self.timer.div & mask == 0 {
            self.apu.frame_sequencer_step();
        }
    }

    /// Steps the components that run at the end of each instruction over
    /// `t_cycles` T-cycles (the APU, then the PPU in M-cycles), and requests
    /// the VBlank, STAT and joypad interrupts they raise. The count is at
    /// most 72 (18 M-cycles), so that the PPU sees at most one of its modes
    /// end; a machine step hands at most 24.
    pub fn step(&mut self, t_cycles: u32)
        requires
            old(self).wf(),
            t_cycles <= 72,
        ensures
            final(self).wf(),
            final(self)@ == old(self)@.spec_step(t_cycles),
    {
        self.apu.step(t_cycles);
        self.ppu.step((t_cycles / 4) as u8);
        if self.ppu.entered_vblank {
            self.request_interrupt(Interrupt::VBlank);
        }
        if self.ppu.stat_triggered {
            self.request_interrupt(Interrupt::Stat);
        }
        if self.joypad.interrupt {
            self.request_interrupt(Interrupt::Joypad);
        }
    }

    /// If a speed switch has been armed (CGB, KEY1 bit 0), disarms it,
    /// switches speed, resets DIV and returns true.
    pub fn speed_switch(&mut self) -> (r: bool)
        ensures
            r == (old(self)@.is_cgb() && old(self)@.key1 & 1 != 0),
            r ==> final(self)@ == (BusState {
                key1: !((old(self)@.key1 & 0xFE) & 0x80) | ((old(self)@.key1 & 0xFE) & 0x7F),
                double_speed: !old(self)@.double_speed,
                timer: Timer { div: 0, ..old(self)@.timer },
                ..old(self)@
            }),
            !r ==> final(self)@ == old(self)@,
    {
        if self.is_cgb() && self.key1 & 1 != 0 {
            self.key1 = self.key1 & 0xFE;
            self.key1 = !(self.key1 & 0x80) | (self.key1 & 0x7F);
            self.double_speed = !self.double_speed;
            self.timer.reset_div();
            return true;
        }
        false
    }

    /// A completed frame (the LCD's bytes) once VBlank has been entered
    /// since the last call; `None` otherwise.
    pub fn get_display_output(&mut self) -> (r: Option<Vec<u8>>)
        requires
            old(self).wf(),
        ensures
            final(self).wf(),
            old(self)@.ppu.entered_vblank ==> {
                &&& r matches Some(v) && v@ == old(self)@.ppu.frame_buffer
                &&& final(self)@ == (BusState { ppu: PpuState { entered_vblank: false, ..old(self)@.ppu }, ..old(self)@ })
            },
            !old(self)@.ppu.entered_vblank ==> r is None && final(self)@ == old(self)@,
    {
        if self.ppu.frame_ready() {
            let frame = self.ppu.frame_buffer.clone();
            assert(frame@ =~= self.ppu.frame_buffer@);
            Some(frame)
        } else {
            None
        }
    }

    /// A full batch of audio sample points, once one has been gathered.
    pub fn get_audio_output(&mut self) -> (r: Option<Vec<SampleFrame>>)
        requires
            old(self).wf(),
        ensures
            final(self).wf(),
            old(self)@.apu.buffer_index < crate::config::AUDIO_SAMPLES ==> r is None && final(self)@ == old(self)@,
            old(self)@.apu.buffer_index >= crate::config::AUDIO_SAMPLES ==> {
                &&& r matches Some(v) && v@ == old(self)@.apu.audio_buffer
                &&& final(self)@ == (BusState { apu: ApuState { buffer_index: 0, ..old(self)@.apu }, ..old(self)@ })
            },
    {
        self.apu.get_audio_output()
    }

    /// Whether the PPU has entered HBlank since the last call.
    pub fn entered_hblank(&mut self) -> (r: bool)
        requires
            old(self).wf(),
        ensures
            final(self).wf(),
            r == old(self)@.ppu.entered_hblank,
            final(self)@ == (BusState { ppu: PpuState { entered_hblank: false, ..old(self)@.ppu }, ..old(self)@ }),
    {
        self.ppu.entered_hblank()
    }

    /// Feeds the buttons' status (a 0 bit is a pressed button) to the joypad.
    pub fn update_joypad(&mut self, status: u8)
        requires
            old(self).wf(),
        ensures
            final(self).wf(),
            final(self)@ == (BusState { joypad: old(self)@.joypad.spec_update(status), ..old(self)@ }),
    {
        self.joypad.update(status);
    }

    /// The bytes written to the serial port so far.
    pub fn get_serial_output(&self) -> (r: Vec<u8>)
        ensures
            r@ == self@.serial_output,
    {
        let out = self.serial_output.clone();
        assert(out@ =~= self.serial_output@);
        out
    }

    /// Hands in the wall-clock time (seconds since the UNIX epoch) that the
    /// cartridge's real-time clock reads.
    pub fn set_clock(&mut self, now: u64)
        requires
            old(self).wf(),
        ensures
            final(self).wf(),
            final(self)@ == (BusState {
                cartridge: Cartridge { mbc: old(self)@.cartridge.mbc.spec_set_clock(now), ..old(self)@.cartridge },
                ..old(self)@
            }),
    {
        self.cartridge.set_clock(now);
    }

    /// What the cartridge has to save (RAM and clock, if it has a battery).
    pub fn save_mbc_state(&self) -> (r: SaveData)
        requires
            self.wf(),
        ensures
            !self@.cartridge.mbc.has_battery() ==> r.ram is None && r.rtc is None,
            (r.ram is Some) == (self@.cartridge.mbc.saved_ram() is Some),
            r.ram matches Some(v) ==> v@ == self@.cartridge.mbc.saved_ram()->0,
            (r.rtc is Some) == self@.cartridge.mbc.saves_rtc(),
            r.rtc matches Some(b) ==> b@ == self@.cartridge.mbc.rtc_save(),
    {
        self.cartridge.save_mbc_state()
    }

    /// Loads saved RAM into the cartridge (MBC1 and MBC2).
    pub fn load_save(&mut self, data: &[u8])
        requires
            old(self).wf(),
            data@.len() <= crate::cartridge::mbc::MAX_RAM_SIZE,
            old(self)@.cartridge.mbc is Mbc2 ==> data@.len() >= crate::cartridge::mbc::RAM_BANK_SIZE,
        ensures
            final(self).wf(),
            final(self)@ == (BusState { cartridge: final(self)@.cartridge, ..old(self)@ }),
            final(self)@.cartridge.holds_save_of(old(self)@.cartridge, data@),
    {
        self.cartridge.load_save(data);
    }

    /// The identity under which the cartridge's saves are kept, if it has
    /// a battery.
    pub fn save_id(&self) -> (r: Option<Vec<u8>>)
        ensures
            self@.cartridge.mbc.has_battery() ==> (r matches Some(v) && v@ == self@.cartridge.header.title@),
            !self@.cartridge.mbc.has_battery() ==> r is None,
    {
        self.cartridge.save_id()
    }
}

/// Work RAM (0xC000..=0xDFFF, its echo 0xE000..=0xFDFF) and high RAM
/// (0xFF80..=0xFFFE): the addresses that plain memory answers.
pub open spec fn plain_ram(addr: u16) -> bool {
    (0xC000 <= addr <= 0xFDFF) || (0xFF80 <= addr <= 0xFFFE)
}

/// The RAM cell behind a plain RAM address (echo addresses share the
/// cells of work RAM; high RAM cells follow work RAM's).
pub open spec fn ram_cell(addr: u16) -> int {
    if addr <= 0xDFFF { addr - 0xC000 } else if addr <= 0xFDFF { addr - 0xE000 } else { 0x2000 + addr - 0xFF80 }
}

/// A read of plain RAM gives back the last byte written there.
pub proof fn lemma_ram_read_after_write(s: BusState, addr: u16, byte: u8, now: u64)
    requires
        s.wf(),
        plain_ram(addr),
    ensures
        s.spec_write_byte(addr, byte, now).spec_read_byte(addr) == byte,
{
    reveal(BusState::spec_write_byte);
    reveal(BusState::spec_read_byte);
}

/// Writing plain RAM keeps the bus well-formed.
pub proof fn lemma_write_keeps_wf(s: BusState, addr: u16, byte: u8, now: u64)
    requires
        s.wf(),
        plain_ram(addr),
    ensures
        s.spec_write_byte(addr, byte, now).wf(),
{
    reveal(BusState::spec_write_byte);
}

/// Writing one plain RAM cell leaves every other plain RAM cell as it was.
pub proof fn lemma_ram_write_frame(s: BusState, addr: u16, other: u16, byte: u8, now: u64)
    requires
        s.wf(),
        plain_ram(addr),
        plain_ram(other),
        ram_cell(addr) != ram_cell(other),
    ensures
        s.spec_write_byte(addr, byte, now).spec_read_byte(other) == s.spec_read_byte(other),
{
    reveal(BusState::spec_write_byte);
    reveal(BusState::spec_read_byte);
}

/// Echo RAM reads as the work RAM 0x2000 below it.
pub proof fn lemma_echo_ram(s: BusState, addr: u16)
    requires
        0xE000 <= addr <= 0xFDFF,
    ensures
        s.spec_read_byte(addr) == s.spec_read_byte((addr - 0x2000) as u16),
{
    reveal(BusState::spec_read_byte);
}

/// The unusable region 0xFEA0..=0xFEFF reads 0xFF and ignores writes.
pub proof fn lemma_unusable_region(s: BusState, addr: u16, byte: u8, now: u64)
    requires
        0xFEA0 <= addr <= 0xFEFF,
    ensures
        s.spec_read_byte(addr) == 0xFF,
        s.spec_write_byte(addr, byte, now) == s,
{
    reveal(BusState::spec_write_byte);
    reveal(BusState::spec_read_byte);
}

/// IF reads back with its three unused upper bits set; IE reads back as
/// written.
pub proof fn lemma_interrupt_registers(s: BusState, byte: u8, now: u64)
    ensures
        s.spec_write_byte(0xFF0F, byte, now).spec_read_byte(0xFF0F) == 0xE0 | byte,
        s.spec_write_byte(0xFFFF, byte, now).spec_read_byte(0xFFFF) == byte,
{
    reveal(BusState::spec_write_byte);
    reveal(BusState::spec_read_byte);
}

/// An OAM DMA run changes only OAM (in the PPU) and the transfer position.
pub proof fn lemma_dma_frame(s: BusState, n: nat)
    ensures
        s.spec_step_oam_dma(n) == (BusState {
            ppu: s.spec_step_oam_dma(n).ppu,
            dma_ticks: s.spec_step_oam_dma(n).dma_ticks,
            ..s
        }),
        s.spec_step_oam_dma(n).ppu == (PpuState { oam: s.spec_step_oam_dma(n).ppu.oam, ..s.ppu }),
    decreases n,
{
    if n > 0 && s.dma_ticks < DMA_CYCLES {
        let byte = s.spec_read_byte(s.dma_start | s.dma_ticks);
        let s1 = BusState {
            ppu: s.ppu.spec_write_oam((OAM_START + s.dma_ticks) as usize, byte),
            dma_ticks: (s.dma_ticks + 1) as u16,
            ..s
        };
        lemma_dma_frame(s1, (n - 1) as nat);
    }
}

/// What `partial_step` changes: OAM (through DMA) and the transfer
/// position, the timer, IF, and the APU's frame sequencer; the cartridge,
/// work RAM, high RAM, IE, the joypad and everything else stay.
pub proof fn lemma_partial_step_frame(s: BusState, t: u32)
    ensures
        ({
            let r = s.spec_partial_step(t);
            &&& r == (BusState {
                ppu: r.ppu,
                dma_ticks: r.dma_ticks,
                timer: r.timer,
                interrupt_flag: r.interrupt_flag,
                apu: r.apu,
                ..s
            })
            &&& r.ppu == (PpuState { oam: r.ppu.oam, ..s.ppu })
        }),
{
    lemma_dma_frame(s, (t / 4) as nat);
}

/// What `step` changes: the APU and the PPU (each stepped on its own) and
/// IF; the cartridge, work RAM, high RAM, IE, the joypad, the timer, DMA
/// and the serial output stay.
pub proof fn lemma_step_frame(s: BusState, t: u32)
    ensures
        ({
            let r = s.spec_step(t);
            &&& r == (BusState { apu: r.apu, ppu: r.ppu, interrupt_flag: r.interrupt_flag, ..s })
            &&& r.apu == s.apu.spec_step(t)
            &&& r.ppu == s.ppu.spec_step((t / 4) as u8)
        }),
{
    let a = BusState { apu: s.apu.spec_step(t), ..s };
    let b = BusState { ppu: a.ppu.spec_step((t / 4) as u8), ..a };
    let c = if b.ppu.entered_vblank { b.spec_request_interrupt(Interrupt::VBlank) } else { b };
    let d = if c.ppu.stat_triggered { c.spec_request_interrupt(Interrupt::Stat) } else { c };
    let r = if d.joypad.interrupt { d.spec_request_interrupt(Interrupt::Joypad) } else { d };
    assert(r == s.spec_step(t));
}

/// The timer's step counters of a well-formed bus stay below one period
/// of TIMA (1024 T-cycles).
pub proof fn lemma_timer_counts(s: BusState)
    requires
        s.wf(),
    ensures
        s.timer.div_stepper.steps_so_far < 1024,
        s.timer.tima_stepper.steps_so_far < 1024,
{
}

} // verus!
