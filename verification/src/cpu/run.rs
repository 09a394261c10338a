use vstd::prelude::*;
use crate::apu::SampleFrame;
use crate::bus::{Bus, BusState};
use crate::cartridge::Cartridge;
use crate::cartridge::mbc::SaveData;
use crate::cpu::{boot_registers, interrupt_index, interrupt_vector, Cpu, CpuState, GBModel, Interrupt};
use crate::cpu::register::Register;

verus! {

/// The IF/IE bit number of an interrupt.
fn interrupt_bit_index(i: Interrupt) -> (r: u8)
    ensures
        r == interrupt_index(i),
{
    match i {
        Interrupt::VBlank => 0,
        Interrupt::Stat => 1,
        Interrupt::Timer => 2,
        Interrupt::Serial => 3,
        Interrupt::Joypad => 4,
    }
}

/// The address the CPU jumps to for an interrupt.
fn vector_of(i: Interrupt) -> (r: u16)
    ensures
        r == interrupt_vector(i),
{
    match i {
        Interrupt::VBlank => 0x40,
        Interrupt::Stat => 0x48,
        Interrupt::Timer => 0x50,
        Interrupt::Serial => 0x58,
        Interrupt::Joypad => 0x60,
    }
}

impl Cpu {
    /// A CPU for `cartridge` on the given model: with a boot ROM everything
    /// starts at zero; otherwise the LCD is switched on and the registers
    /// hold what the boot ROM of that model leaves.
    pub fn new(cartridge: Cartridge, model: GBModel) -> (r: Self)
        requires
            cartridge.wf(),
            !(model == GBModel::CGB && cartridge.header.cgb_flag & 0x80 == 0),
        ensures
            r.wf(),
            r.clock@.len() == 0,
            r@.model == model,
            r@.bus.model == model,
            r@.bus.cartridge == cartridge,
            !r@.bus.double_speed && r@.bus.serial_output.len() == 0,
            r@.bus.joypad.joypad == 0xFF && !r@.bus.joypad.interrupt,
            r@.bus.apu.model == model && r@.bus.apu.apu_on,
            r@.bus.apu == crate::apu::Apu::spec_initial(model),
            r@.bus.timer == crate::timer::Timer::spec_initial(),
            r@.bus.wram == Seq::new(crate::bus::WRAM_SIZE as nat, |i: int| 0u8),
            r@.bus.hram == Seq::new(crate::bus::HRAM_SIZE as nat, |i: int| 0u8),
            r@.bus.timer.div == 0 && r@.bus.timer.tima == 0 && r@.bus.timer.tma == 0 && r@.bus.timer.tac == 0,
            r@.bus.interrupt_enable == 0 && r@.bus.interrupt_flag == 0xE0,
            r@.bus.dma_start == 0 && r@.bus.dma_ticks == crate::bus::DMA_CYCLES,
            r@.bus.key1 == 0 && r@.bus.hdma1 == 0 && r@.bus.hdma2 == 0 && r@.bus.hdma3 == 0 && r@.bus.hdma4 == 0,
            r@.bus.hdma5 == 0 && r@.bus.rp == 0 && r@.bus.svbk == 0,
            !r@.ime && !r@.halted && !r@.halt_bug && !r@.scheduled_ei && !r@.halt_triggered,
            r@.t_cycles_so_far == 0 && !r@.do_speed_switch,
            cartridge.with_bootrom ==> {
                &&& r@.af == 0 && r@.bc == 0 && r@.de == 0 && r@.hl == 0 && r@.pc == 0 && r@.sp == 0
                &&& r@.bus.ppu == crate::ppu::initial_ppu(model)
            },
            !cartridge.with_bootrom ==> {
                &&& (r@.af, r@.bc, r@.de, r@.hl) == boot_registers(model)
                &&& r@.pc == 0x0100 && r@.sp == 0xFFFE
                &&& r@.bus.ppu == crate::ppu::initial_ppu(model).spec_write_io(0xFF40, 0x91).spec_write_io(0xFF41, 0x81)
            },
    {
        if cartridge.has_bootrom() {
            let bus = Bus::new(cartridge, model);
            Cpu::make_cpu(0, 0, 0, 0, 0, 0, model, bus)
        } else {
            let mut bus = Bus::new(cartridge, model);
            bus.write_byte(0xFF40, 0x91);
            bus.write_byte(0xFF41, 0x81);
            proof {
                reveal(BusState::spec_write_byte);
            }
            match model {
                GBModel::DMG => Cpu::make_cpu(0x01B0, 0x0013, 0x00D8, 0x014D, 0x0100, 0xFFFE, model, bus),
                GBModel::CGB => Cpu::make_cpu(0x1180, 0x0000, 0xFF56, 0x000D, 0x0100, 0xFFFE, model, bus),
            }
        }
    }

    /// A CPU with the given registers and bus, interrupts disabled.
    pub fn make_cpu(af: u16, bc: u16, de: u16, hl: u16, pc: u16, sp: u16, model: GBModel, bus: Bus) -> (r: Self)
        ensures
            r@ == (CpuState {
                bus: bus@,
                model,
                scheduled_ei: false,
                ime: false,
                halted: false,
                halt_bug: false,
                halt_triggered: false,
                t_cycles_so_far: 0,
                af,
                bc,
                de,
                hl,
                pc,
                sp,
                do_speed_switch: false,
            }),
            r.clock@.len() == 0,
    {
        Cpu {
            bus,
            model,
            scheduled_ei: false,
            ime: false,
            halted: false,
            halt_bug: false,
            halt_triggered: false,
            t_cycles_so_far: 0,
            af: Register(af),
            bc: Register(bc),
            de: Register(de),
            hl: Register(hl),
            pc: Register(pc),
            sp: Register(sp),
            do_speed_switch: false,
            clock: Ghost(Seq::empty()),
        }
    }

    /// The enabled and requested interrupt of highest priority, if any.
    pub(crate) fn get_pending_interrupt(&self) -> (r: Option<crate::cpu::Interrupt>)
        requires
            self.wf(),
        ensures
            r == self@.spec_pending_interrupt(),
    {
        let interrupt_enable = self.bus.read_byte(0xFFFF);
        let interrupt_flag = self.bus.read_byte(0xFF0F);
        if interrupt_enable & (1u8 << 0u8) != 0 && interrupt_flag & (1u8 << 0u8) != 0 {
            Some(Interrupt::VBlank)
        } else if interrupt_enable & (1u8 << 1u8) != 0 && interrupt_flag & (1u8 << 1u8) != 0 {
            Some(Interrupt::Stat)
        } else if interrupt_enable & (1u8 << 2u8) != 0 && interrupt_flag & (1u8 << 2u8) != 0 {
            Some(Interrupt::Timer)
        } else if interrupt_enable & (1u8 << 3u8) != 0 && interrupt_flag & (1u8 << 3u8) != 0 {
            Some(Interrupt::Serial)
        } else if interrupt_enable & (1u8 << 4u8) != 0 && interrupt_flag & (1u8 << 4u8) != 0 {
            Some(Interrupt::Joypad)
        } else {
            None
        }
    }

    /// Services an interrupt: pushes PC, clears its IF bit and jumps to its
    /// vector; returns the M-cycles taken.
    #[verifier::rlimit(40)]
    pub(crate) fn handle_interrupt(&mut self, interrupt: Interrupt) -> (r: u8)
        requires
            old(self).wf(),
        ensures
            final(self).wf(),
            final(self).clock@.len() == old(self).clock@.len() + 3,
            forall|i: int| 0 <= i < old(self).clock@.len() ==> #[trigger] final(self).clock@[i] == old(self).clock@[i],
            (final(self)@, r) == old(self)@.spec_handle_interrupt(interrupt, final(self).clock_since(*old(self))),
    {
        let pc = self.pc.full();
        self.push_stack(pc);
        let ghost s1 = *self;
        let bit = interrupt_bit_index(interrupt);
        let interrupt_flag = self.bus.read_byte(0xFF0F);
        self.write_byte(0xFF0F, interrupt_flag & !(1u8 << bit));
        let ghost s2 = *self;
        let jump_vector = vector_of(interrupt);
        self.set_pc(jump_vector);
        proof {
            let n = old(self).clock@.len() as int;
            let c = self.clock_since(*old(self));
            assert(c =~= seq![s1.clock@[n], s1.clock@[n + 1], s2@.bus.cartridge.rtc_time()]);
        }
        5
    }

    /// EI, then the next instruction (or one idle M-cycle when halted);
    /// returns the T-cycles taken.
    fn cycle_fetch(&mut self) -> (r: u32)
        requires
            old(self).wf(),
            old(self)@.can_cycle(),
        ensures
            final(self).wf(),
            final(self).clock@.len() == old(self).clock@.len() + 2,
            forall|i: int| 0 <= i < old(self).clock@.len() ==> #[trigger] final(self).clock@[i] == old(self).clock@[i],
            (final(self)@, r) == old(self)@.spec_cycle_fetch(final(self).clock_since(*old(self))),
            r <= 24,
    {
        reveal(CpuState::spec_cycle_fetch);
        self.halt_triggered = false;
        if self.scheduled_ei {
            self.ime = true;
            self.scheduled_ei = false;
        }
        if !self.halted {
            let c = self.execute_next_instruction();
            c as u32 * 4
        } else {
            self.clock = Ghost(self.clock@.push(0).push(0));
            4
        }
    }

    /// Services a pending interrupt (or ends a halt); returns the T-cycles
    /// so far, `t` plus the interrupt's.
    #[verifier::rlimit(30)]
    fn cycle_interrupt(&mut self, t: u32) -> (r: u32)
        requires
            old(self).wf(),
            t <= 24,
        ensures
            final(self).wf(),
            final(self).clock@.len() == old(self).clock@.len() + 3,
            forall|i: int| 0 <= i < old(self).clock@.len() ==> #[trigger] final(self).clock@[i] == old(self).clock@[i],
            (final(self)@, r) == old(self)@.spec_cycle_interrupt(t, final(self).clock_since(*old(self))),
            r <= 44,
    {
        reveal(CpuState::spec_cycle_interrupt);
        let mut t_cycles = t;
        match self.get_pending_interrupt() {
            Some(interrupt) => {
                if self.ime {
                    let c = self.handle_interrupt(interrupt);
                    t_cycles = t_cycles + c as u32 * 4;
                } else {
                    if self.halt_triggered {
                        self.halt_bug = true;
                    }
                    self.clock = Ghost(self.clock@.push(0).push(0).push(0));
                }
                self.ime = false;
                self.halted = false;
            },
            None => {
                self.clock = Ghost(self.clock@.push(0).push(0).push(0));
            },
        }
        t_cycles
    }

    /// Lets the bus's timed parts catch up over `t` T-cycles.
    fn cycle_sync(&mut self, t: u32)
        requires
            old(self).wf(),
            t <= 44,
        ensures
            final(self).wf(),
            final(self).clock == old(self).clock,
            final(self)@ == old(self)@.spec_cycle_sync(t),
    {
        reveal(CpuState::spec_cycle_sync);
        if t > self.t_cycles_so_far {
            proof {
                crate::bus::lemma_timer_counts(self.bus@);
            }
            self.bus.partial_step(t - self.t_cycles_so_far);
        }
        self.t_cycles_so_far = 0;
    }

    /// Runs one fetch-execute cycle (see `CpuState::spec_cycle`); returns
    /// the T-cycles taken.
    pub(crate) fn cycle(&mut self) -> (r: u32)
        requires
            old(self).wf(),
            old(self)@.can_cycle(),
        ensures
            final(self).wf(),
            final(self).clock@.len() == old(self).clock@.len() + 5,
            forall|i: int| 0 <= i < old(self).clock@.len() ==> #[trigger] final(self).clock@[i] == old(self).clock@[i],
            (final(self)@, r) == old(self)@.spec_cycle(final(self).clock_since(*old(self))),
            r <= 44,
    {
        let t = self.cycle_fetch();
        let ghost s2 = *self;
        let t2 = self.cycle_interrupt(t);
        let ghost s3 = *self;
        self.cycle_sync(t2);
        proof {
            let c = self.clock_since(*old(self));
            assert(c =~= s2.clock_since(*old(self)) + s3.clock_since(s2));
            assert(c.take(2) =~= s2.clock_since(*old(self)));
            assert(c.skip(2) =~= s3.clock_since(s2));
        }
        t2
    }

    /// Steps the whole machine over the period of the next instruction;
    /// returns that period in T-cycles.
    pub fn step(&mut self) -> (r: u32)
        requires
            old(self).wf(),
            old(self)@.can_cycle(),
        ensures
            final(self).wf(),
            final(self).clock@.len() == old(self).clock@.len() + 5,
            (final(self)@, r) == old(self)@.spec_step(final(self).clock_since(*old(self))),
    {
        let t_cycles = self.cycle();
        if self.model == GBModel::CGB && self.do_speed_switch {
            self.do_speed_switch = false;
            return 2560;
        }
        self.bus.step(t_cycles);
        t_cycles
    }

    /// Whether `step` can run: the instruction at PC (unless halted) is not
    /// STOP, which is not implemented.
    pub fn can_step(&self) -> (r: bool)
        requires
            self.wf(),
        ensures
            r == self@.can_cycle(),
    {
        self.halted || self.bus.read_byte(self.pc.full()) != 0x10
    }

    /// A full batch of audio sample points, once one has been gathered.
    pub fn get_audio_output(&mut self) -> (r: Option<Vec<SampleFrame>>)
        requires
            old(self).wf(),
        ensures
            final(self).wf(),
            old(self)@.bus.apu.buffer_index < crate::config::AUDIO_SAMPLES ==> r is None && final(self)@ == old(self)@,
            old(self)@.bus.apu.buffer_index >= crate::config::AUDIO_SAMPLES ==> {
                &&& r matches Some(v) && v@ == old(self)@.bus.apu.audio_buffer
                &&& final(self).bus@ == (BusState { apu: crate::apu::ApuState { buffer_index: 0, ..old(self)@.bus.apu }, ..old(self)@.bus })
                &&& final(self)@ == (CpuState { bus: final(self).bus@, ..old(self)@ })
            },
    {
        self.bus.get_audio_output()
    }

    /// The completed frame, once VBlank has been entered since the last call.
    pub fn get_display_output(&mut self) -> (r: Option<Vec<u8>>)
        requires
            old(self).wf(),
        ensures
            final(self).wf(),
            old(self)@.bus.ppu.entered_vblank ==> {
                &&& r matches Some(v) && v@ == old(self)@.bus.ppu.frame_buffer
                &&& final(self)@ == (CpuState { bus: BusState { ppu: crate::ppu::PpuState { entered_vblank: false, ..old(self)@.bus.ppu }, ..old(self)@.bus }, ..old(self)@ })
            },
            !old(self)@.bus.ppu.entered_vblank ==> r is None && final(self)@ == old(self)@,
    {
        self.bus.get_display_output()
    }

    /// Whether the PPU has entered HBlank since the last call.
    pub fn entered_hblank(&mut self) -> (r: bool)
        requires
            old(self).wf(),
        ensures
            final(self).wf(),
            r == old(self)@.bus.ppu.entered_hblank,
            final(self)@ == (CpuState { bus: BusState { ppu: crate::ppu::PpuState { entered_hblank: false, ..old(self)@.bus.ppu }, ..old(self)@.bus }, ..old(self)@ }),
    {
        self.bus.entered_hblank()
    }

    /// Feeds the buttons' status (a 0 bit is a pressed button) to the joypad.
    pub fn update_joypad(&mut self, status: u8)
        requires
            old(self).wf(),
        ensures
            final(self).wf(),
            final(self)@ == (CpuState { bus: BusState { joypad: old(self)@.bus.joypad.spec_update(status), ..old(self)@.bus }, ..old(self)@ }),
    {
        self.bus.update_joypad(status);
    }

    /// The bytes written to the serial port so far.
    pub fn get_serial_output(&self) -> (r: Vec<u8>)
        ensures
            r@ == self@.bus.serial_output,
    {
        self.bus.get_serial_output()
    }

    /// Hands in the wall-clock time (seconds since the UNIX epoch) that the
    /// cartridge's real-time clock reads.
    pub fn set_clock(&mut self, now: u64)
        requires
            old(self).wf(),
        ensures
            final(self).wf(),
            final(self).clock == old(self).clock,
            final(self)@ == (CpuState {
                bus: BusState {
                    cartridge: Cartridge { mbc: old(self)@.bus.cartridge.mbc.spec_set_clock(now), ..old(self)@.bus.cartridge },
                    ..old(self)@.bus
                },
                ..old(self)@
            }),
    {
        self.bus.set_clock(now);
    }

    /// What the cartridge has to save (RAM and clock, if it has a battery).
    pub fn save_mbc_state(&self) -> (r: SaveData)
        requires
            self.wf(),
        ensures
            !self@.bus.cartridge.mbc.has_battery() ==> r.ram is None && r.rtc is None,
            (r.ram is Some) == (self@.bus.cartridge.mbc.saved_ram() is Some),
            r.ram matches Some(v) ==> v@ == self@.bus.cartridge.mbc.saved_ram()->0,
            (r.rtc is Some) == self@.bus.cartridge.mbc.saves_rtc(),
            r.rtc matches Some(b) ==> b@ == self@.bus.cartridge.mbc.rtc_save(),
    {
        self.bus.save_mbc_state()
    }

    /// Loads saved RAM into the cartridge (MBC1 and MBC2).
    pub fn load_save(&mut self, data: &[u8])
        requires
            old(self).wf(),
            data@.len() <= crate::cartridge::mbc::MAX_RAM_SIZE,
            old(self)@.bus.cartridge.mbc is Mbc2 ==> data@.len() >= crate::cartridge::mbc::RAM_BANK_SIZE,
        ensures
            final(self).wf(),
            final(self)@ == (CpuState { bus: final(self)@.bus, ..old(self)@ }),
            final(self)@.bus == (BusState { cartridge: final(self)@.bus.cartridge, ..old(self)@.bus }),
            final(self)@.bus.cartridge.holds_save_of(old(self)@.bus.cartridge, data@),
    {
        self.bus.load_save(data);
    }

    /// The identity under which the cartridge's saves are kept, if it has
    /// a battery.
    pub fn save_id(&self) -> (r: Option<Vec<u8>>)
        ensures
            self@.bus.cartridge.mbc.has_battery() ==> (r matches Some(v) && v@ == self@.bus.cartridge.header.title@),
            !self@.bus.cartridge.mbc.has_battery() ==> r is None,
    {
        self.bus.save_id()
    }
}

} // verus!
