use vstd::prelude::*;
use crate::apu::SampleFrame;
use crate::bus::{Bus, BusState};
use crate::cartridge::Cartridge;
use crate::cartridge::mbc::SaveData;
use crate::cpu::register::{hi_byte, lo_byte, word_bit, with_word_bit, word_of, Register};

pub mod decode;
pub mod instr;
pub mod laws;
pub mod run;
pub mod register;

verus! {

/// The hardware model being emulated.
#[derive(Clone, Copy, Debug, PartialEq, Eq, Structural)]
pub enum GBModel {
    DMG,
    CGB,
}

/// The five interrupt sources, by priority.
#[derive(Clone, Copy, Debug, PartialEq, Eq, Structural)]
pub enum Interrupt {
    VBlank,
    Stat,
    Timer,
    Serial,
    Joypad,
}

/// An 8-bit register operand.
#[derive(Clone, Copy, Debug, PartialEq, Eq, Structural)]
pub enum R8 {
    A,
    B,
    C,
    D,
    E,
    H,
    L,
}

/// A 16-bit register pair operand.
#[derive(Clone, Copy, Debug, PartialEq, Eq, Structural)]
pub enum R16 {
    BC,
    DE,
    HL,
    SP,
}

/// `x + y` wrapped to 8 bits.
pub open spec fn wadd8(x: u8, y: u8) -> u8 {
    if x + y > 255 { (x + y - 256) as u8 } else { (x + y) as u8 }
}

/// `x - y` wrapped to 8 bits.
pub open spec fn wsub8(x: u8, y: u8) -> u8 {
    if x - y < 0 { (x - y + 256) as u8 } else { (x - y) as u8 }
}

/// `x + y` wrapped to 16 bits.
pub open spec fn wadd16(x: u16, y: u16) -> u16 {
    if x + y > 0xFFFF { (x + y - 0x10000) as u16 } else { (x + y) as u16 }
}

/// `x - y` wrapped to 16 bits.
pub open spec fn wsub16(x: u16, y: u16) -> u16 {
    if x - y < 0 { (x - y + 0x10000) as u16 } else { (x - y) as u16 }
}

/// The word made of an upper and a lower byte.
pub fn join_bytes(hi: u8, lo: u8) -> (r: u16)
    ensures
        r == word_of(hi, lo),
{
    proof {
        crate::cpu::register::lemma_join_word(hi as u16, lo as u16);
    }
    ((hi as u16) << 8u16) + lo as u16
}

/// The CPU (an SM83 core) with the bus it drives.
pub struct Cpu {
    pub bus: Bus,
    pub model: GBModel,
    pub scheduled_ei: bool,
    pub ime: bool,
    pub halted: bool,
    pub halt_bug: bool,
    pub halt_triggered: bool,
    pub t_cycles_so_far: u32,
    pub af: Register,
    pub bc: Register,
    pub de: Register,
    pub hl: Register,
    pub pc: Register,
    pub sp: Register,
    // CGB only
    pub do_speed_switch: bool,
    /// The real-time clock reading seen by each bus write so far, in order.
    pub clock: Ghost<Seq<u64>>,
}

/// The CPU as plain values.
pub struct CpuState {
    pub bus: BusState,
    pub model: GBModel,
    pub scheduled_ei: bool,
    pub ime: bool,
    pub halted: bool,
    pub halt_bug: bool,
    pub halt_triggered: bool,
    pub t_cycles_so_far: u32,
    pub af: u16,
    pub bc: u16,
    pub de: u16,
    pub hl: u16,
    pub pc: u16,
    pub sp: u16,
    pub do_speed_switch: bool,
}

impl View for Cpu {
    type V = CpuState;

    open spec fn view(&self) -> CpuState {
        CpuState {
            bus: self.bus@,
            model: self.model,
            scheduled_ei: self.scheduled_ei,
            ime: self.ime,
            halted: self.halted,
            halt_bug: self.halt_bug,
            halt_triggered: self.halt_triggered,
            t_cycles_so_far: self.t_cycles_so_far,
            af: self.af.0,
            bc: self.bc.0,
            de: self.de.0,
            hl: self.hl.0,
            pc: self.pc.0,
            sp: self.sp.0,
            do_speed_switch: self.do_speed_switch,
        }
    }
}

impl CpuState {
    pub open spec fn wf(self) -> bool {
        self.bus.wf()
    }

    pub open spec fn r8(self, r: R8) -> u8 {
        match r {
            R8::A => hi_byte(self.af),
            R8::B => hi_byte(self.bc),
            R8::C => lo_byte(self.bc),
            R8::D => hi_byte(self.de),
            R8::E => lo_byte(self.de),
            R8::H => hi_byte(self.hl),
            R8::L => lo_byte(self.hl),
        }
    }

    pub open spec fn with_r8(self, r: R8, v: u8) -> CpuState {
        CpuState {
            af: if r == R8::A { word_of(v, lo_byte(self.af)) } else { self.af },
            bc: if r == R8::B {
                word_of(v, lo_byte(self.bc))
            } else if r == R8::C {
                word_of(hi_byte(self.bc), v)
            } else {
                self.bc
            },
            de: if r == R8::D {
                word_of(v, lo_byte(self.de))
            } else if r == R8::E {
                word_of(hi_byte(self.de), v)
            } else {
                self.de
            },
            hl: if r == R8::H {
                word_of(v, lo_byte(self.hl))
            } else if r == R8::L {
                word_of(hi_byte(self.hl), v)
            } else {
                self.hl
            },
            ..self
        }
    }

    pub open spec fn r16(self, r: R16) -> u16 {
        match r {
            R16::BC => self.bc,
            R16::DE => self.de,
            R16::HL => self.hl,
            R16::SP => self.sp,
        }
    }

    pub open spec fn with_r16(self, r: R16, v: u16) -> CpuState {
        CpuState {
            bc: if r == R16::BC { v } else { self.bc },
            de: if r == R16::DE { v } else { self.de },
            hl: if r == R16::HL { v } else { self.hl },
            sp: if r == R16::SP { v } else { self.sp },
            ..self
        }
    }

    pub open spec fn a(self) -> u8 {
        hi_byte(self.af)
    }

    pub open spec fn zf(self) -> bool {
        word_bit(self.af, 7)
    }

    pub open spec fn nf(self) -> bool {
        word_bit(self.af, 6)
    }

    pub open spec fn hf(self) -> bool {
        word_bit(self.af, 5)
    }

    pub open spec fn cf(self) -> bool {
        word_bit(self.af, 4)
    }

    /// The flags Z, N, H and C set (bits 7 to 4 of F).
    pub open spec fn with_flags(self, z: bool, n: bool, h: bool, c: bool) -> CpuState {
        CpuState { af: with_word_bit(with_word_bit(with_word_bit(with_word_bit(self.af, 7, z), 6, n), 5, h), 4, c), ..self }
    }

    pub open spec fn read(self, addr: u16) -> u8 {
        self.bus.spec_read_byte(addr)
    }

    /// A bus write, the real-time clock reading `now`.
    pub open spec fn write(self, addr: u16, byte: u8, now: u64) -> CpuState {
        CpuState { bus: self.bus.spec_write_byte(addr, byte, now), ..self }
    }

    pub open spec fn with_pc(self, pc: u16) -> CpuState {
        CpuState { pc, ..self }
    }

    /// The immediate byte at PC.
    pub open spec fn imm8(self) -> u8 {
        self.read(self.pc)
    }

    /// The little-endian immediate word at PC.
    pub open spec fn imm16(self) -> u16 {
        word_of(self.read(wadd16(self.pc, 1)), self.read(self.pc))
    }

    /// The word on top of the stack.
    pub open spec fn top_of_stack(self) -> u16 {
        word_of(self.read(wadd16(self.sp, 1)), self.read(self.sp))
    }

    /// `v` pushed: its upper byte at SP - 1 (clock `t0`), its lower at
    /// SP - 2 (clock `t1`).
    pub open spec fn pushed(self, v: u16, t0: u64, t1: u64) -> CpuState {
        let s = self.write(wsub16(self.sp, 1), hi_byte(v), t0).write(wsub16(self.sp, 2), lo_byte(v), t1);
        CpuState { sp: wsub16(self.sp, 2), ..s }
    }

    /// The stack with its top word removed.
    pub open spec fn popped(self) -> CpuState {
        CpuState { sp: wadd16(self.sp, 2), ..self }
    }
}

/// The IF/IE bit number of an interrupt.
pub open spec fn interrupt_index(i: Interrupt) -> u8 {
    match i {
        Interrupt::VBlank => 0,
        Interrupt::Stat => 1,
        Interrupt::Timer => 2,
        Interrupt::Serial => 3,
        Interrupt::Joypad => 4,
    }
}

/// The address the CPU jumps to for an interrupt.
pub open spec fn interrupt_vector(i: Interrupt) -> u16 {
    match i {
        Interrupt::VBlank => 0x40,
        Interrupt::Stat => 0x48,
        Interrupt::Timer => 0x50,
        Interrupt::Serial => 0x58,
        Interrupt::Joypad => 0x60,
    }
}

/// The registers after the boot ROM of each model (AF, BC, DE, HL).
pub open spec fn boot_registers(model: GBModel) -> (u16, u16, u16, u16) {
    match model {
        GBModel::DMG => (0x01B0, 0x0013, 0x00D8, 0x014D),
        GBModel::CGB => (0x1180, 0x0000, 0xFF56, 0x000D),
    }
}

impl CpuState {
    /// Whether interrupt `b` (0..=4) is both enabled (IE) and requested (IF).
    pub open spec fn pending(self, b: u8) -> bool {
        self.read(0xFFFF) & (1u8 << b) != 0 && self.read(0xFF0F) & (1u8 << b) != 0
    }

    /// The enabled and requested interrupt of highest priority.
    pub open spec fn spec_pending_interrupt(self) -> Option<Interrupt> {
        if self.pending(0) {
            Some(Interrupt::VBlank)
        } else if self.pending(1) {
            Some(Interrupt::Stat)
        } else if self.pending(2) {
            Some(Interrupt::Timer)
        } else if self.pending(3) {
            Some(Interrupt::Serial)
        } else if self.pending(4) {
            Some(Interrupt::Joypad)
        } else {
            None
        }
    }

    /// Servicing an interrupt: PC pushed (clocks 0 and 1), its IF bit
    /// cleared (clock 2), and a jump to its vector; 5 M-cycles.
    pub open spec fn spec_handle_interrupt(self, i: Interrupt, clk: Seq<u64>) -> (CpuState, u8) {
        let s = self.pushed(self.pc, clk[0], clk[1]);
        let flag = s.read(0xFF0F);
        (s.write(0xFF0F, flag & !(1u8 << interrupt_index(i)), clk[2]).with_pc(interrupt_vector(i)), 5)
    }

    /// One fetch-execute cycle: a scheduled EI takes effect, the next
    /// instruction runs (or 4 T-cycles pass while halted), a pending
    /// interrupt is serviced (if IME) or ends the halt (and arms the HALT
    /// bug when it came right at a HALT), and the bus's timed parts catch
    /// up; the T-cycles taken are returned. The instruction is given clock
    /// readings 0 and 1, the interrupt 2 to 4.
    pub open spec fn spec_cycle(self, clk: Seq<u64>) -> (CpuState, u32) {
        let (s2, t) = self.spec_cycle_fetch(clk.take(2));
        let (s3, t2) = s2.spec_cycle_interrupt(t, clk.skip(2));
        (s3.spec_cycle_sync(t2), t2)
    }

    /// The first part of a cycle: EI, then an instruction (or a halted
    /// M-cycle), with its T-cycles.
    #[verifier::opaque]
    pub open spec fn spec_cycle_fetch(self, clk: Seq<u64>) -> (CpuState, u32) {
        let s0 = CpuState { halt_triggered: false, ..self };
        let s1 = if s0.scheduled_ei { CpuState { ime: true, scheduled_ei: false, ..s0 } } else { s0 };
        if !s1.halted {
            let (a, c) = s1.spec_execute(clk);
            (a, (c * 4) as u32)
        } else {
            (s1, 4u32)
        }
    }

    /// The second part of a cycle: a pending interrupt, with the T-cycles so
    /// far `t`.
    #[verifier::opaque]
    pub open spec fn spec_cycle_interrupt(self, t: u32, clk: Seq<u64>) -> (CpuState, u32) {
        match self.spec_pending_interrupt() {
            Some(i) => {
                let (s, t2) = if self.ime {
                    let (h, c) = self.spec_handle_interrupt(i, clk);
                    (h, (t + c * 4) as u32)
                } else if self.halt_triggered {
                    (CpuState { halt_bug: true, ..self }, t)
                } else {
                    (self, t)
                };
                (CpuState { ime: false, halted: false, ..s }, t2)
            },
            None => (self, t),
        }
    }

    /// The last part of a cycle: the bus's timed parts catch up over `t`.
    #[verifier::opaque]
    pub open spec fn spec_cycle_sync(self, t: u32) -> CpuState {
        let s = if t > self.t_cycles_so_far {
            CpuState { bus: self.bus.spec_partial_step((t - self.t_cycles_so_far) as u32), ..self }
        } else {
            self
        };
        CpuState { t_cycles_so_far: 0, ..s }
    }

    /// One step of the whole machine: a CPU cycle, then the APU and PPU over
    /// the same time (a CGB speed switch instead takes 2560 T-cycles).
    pub open spec fn spec_step(self, clk: Seq<u64>) -> (CpuState, u32) {
        let (s, t) = self.spec_cycle(clk);
        if s.model == GBModel::CGB && s.do_speed_switch {
            (CpuState { do_speed_switch: false, ..s }, 2560)
        } else {
            (CpuState { bus: s.bus.spec_step(t), ..s }, t)
        }
    }

    /// Whether the next cycle can run: the instruction at PC (unless halted)
    /// is not STOP, which this emulator does not implement.
    pub open spec fn can_cycle(self) -> bool {
        self.halted || self.read(self.pc) != 0x10
    }
}

impl Cpu {
    pub open spec fn wf(&self) -> bool {
        self@.wf()
    }

    /// The clock readings of the writes made since `old` (a state of the
    /// same CPU earlier on).
    pub open spec fn clock_since(self, old: Cpu) -> Seq<u64> {
        self.clock@.skip(old.clock@.len() as int)
    }

    /// Well-formed, with at most `k` clock readings logged since `old`.
    pub open spec fn ran(self, old: Cpu, k: nat) -> bool {
        &&& self.wf()
        &&& old.clock@.len() <= self.clock@.len() <= old.clock@.len() + k
        &&& forall|i: int| 0 <= i < old.clock@.len() ==> #[trigger] self.clock@[i] == old.clock@[i]
    }

    pub(crate) fn r8(&self, r: R8) -> (v: u8)
        ensures
            v == self@.r8(r),
    {
        match r {
            R8::A => self.af.hi(),
            R8::B => self.bc.hi(),
            R8::C => self.bc.lo(),
            R8::D => self.de.hi(),
            R8::E => self.de.lo(),
            R8::H => self.hl.hi(),
            R8::L => self.hl.lo(),
        }
    }

    #[verifier::spinoff_prover]
    pub(crate) fn set_r8(&mut self, r: R8, v: u8)
        ensures
            final(self)@ == old(self)@.with_r8(r, v),
            final(self).clock == old(self).clock,
    {
        match r {
            R8::A => {
                self.af = Register(join_bytes(v, self.af.lo()));
                return;
            },
            R8::B => {
                self.bc = Register(join_bytes(v, self.bc.lo()));
                return;
            },
            R8::C => {
                self.bc = Register(join_bytes(self.bc.hi(), v));
                return;
            },
            R8::D => {
                self.de = Register(join_bytes(v, self.de.lo()));
                return;
            },
            R8::E => {
                self.de = Register(join_bytes(self.de.hi(), v));
                return;
            },
            R8::H => {
                self.hl = Register(join_bytes(v, self.hl.lo()));
                return;
            },
            R8::L => {
                self.hl = Register(join_bytes(self.hl.hi(), v));
                return;
            },
        }
    }

    pub(crate) fn r16(&self, r: R16) -> (v: u16)
        ensures
            v == self@.r16(r),
    {
        match r {
            R16::BC => self.bc.full(),
            R16::DE => self.de.full(),
            R16::HL => self.hl.full(),
            R16::SP => self.sp.full(),
        }
    }

    #[verifier::rlimit(40)]
    pub(crate) fn set_r16(&mut self, r: R16, v: u16)
        ensures
            final(self)@ == old(self)@.with_r16(r, v),
            final(self).clock == old(self).clock,
    {
        match r {
            R16::BC => self.bc = Register(v),
            R16::DE => self.de = Register(v),
            R16::HL => self.hl = Register(v),
            R16::SP => self.sp = Register(v),
        }
    }

    pub(crate) fn a(&self) -> (v: u8)
        ensures
            v == self@.a(),
    {
        self.af.hi()
    }

    pub(crate) fn set_a(&mut self, v: u8)
        ensures
            final(self)@ == old(self)@.with_r8(R8::A, v),
            final(self).clock == old(self).clock,
    {
        self.af = Register(join_bytes(v, self.af.lo()));
    }

    pub(crate) fn zflag(&self) -> (r: bool)
        ensures
            r == self@.zf(),
    {
        self.af.bit(7)
    }

    pub(crate) fn nflag(&self) -> (r: bool)
        ensures
            r == self@.nf(),
    {
        self.af.bit(6)
    }

    pub(crate) fn hflag(&self) -> (r: bool)
        ensures
            r == self@.hf(),
    {
        self.af.bit(5)
    }

    pub(crate) fn cflag(&self) -> (r: bool)
        ensures
            r == self@.cf(),
    {
        self.af.bit(4)
    }

    /// Sets the four flags.
    pub(crate) fn set_all_flags(&mut self, z: bool, n: bool, h: bool, c: bool)
        ensures
            final(self)@ == old(self)@.with_flags(z, n, h, c),
            final(self).clock == old(self).clock,
    {
        let mut af = self.af.0;
        af = if z { af | (1u16 << 7u16) } else { af & !(1u16 << 7u16) };
        af = if n { af | (1u16 << 6u16) } else { af & !(1u16 << 6u16) };
        af = if h { af | (1u16 << 5u16) } else { af & !(1u16 << 5u16) };
        af = if c { af | (1u16 << 4u16) } else { af & !(1u16 << 4u16) };
        self.af = Register(af);
    }

    pub(crate) fn set_zflag(&mut self, z: bool)
        ensures
            final(self)@ == old(self)@.with_zf(z),
            final(self).clock == old(self).clock,
    {
        let af = self.af.0;
        self.af = Register(if z { af | (1u16 << 7u16) } else { af & !(1u16 << 7u16) });
    }

    pub(crate) fn set_pc(&mut self, v: u16)
        ensures
            final(self)@ == old(self)@.with_pc(v),
            final(self).clock == old(self).clock,
    {
        self.pc = Register(v);
    }

    /// Reads the byte at `addr`.
    pub fn read_byte(&self, addr: u16) -> (r: u8)
        requires
            self.wf(),
        ensures
            r == self@.read(addr),
    {
        self.bus.read_byte(addr)
    }

    /// Writes `byte` to `addr`, logging the clock reading the write saw.
    pub(crate) fn write_byte(&mut self, addr: u16, byte: u8)
        requires
            old(self).wf(),
        ensures
            final(self).wf(),
            final(self).clock@ == old(self).clock@.push(final(self)@.bus.cartridge.rtc_time()),
            final(self)@ == old(self)@.write(addr, byte, final(self)@.bus.cartridge.rtc_time()),
    {
        self.bus.write_byte(addr, byte);
        self.clock = Ghost(self.clock@.push(self.bus@.cartridge.rtc_time()));
    }

    /// The immediate byte at PC, moving PC past it.
    pub(crate) fn n8(&mut self) -> (r: u8)
        requires
            old(self).wf(),
        ensures
            r == old(self)@.imm8(),
            final(self)@ == old(self)@.with_pc(wadd16(old(self)@.pc, 1)),
            final(self).clock == old(self).clock,
    {
        let res = self.bus.read_byte(self.pc.full());
        let pc = self.pc.full().wrapping_add(1);
        self.pc = Register(pc);
        res
    }

    /// The immediate little-endian word at PC, moving PC past it.
    pub(crate) fn n16(&mut self) -> (r: u16)
        requires
            old(self).wf(),
        ensures
            r == old(self)@.imm16(),
            final(self)@ == old(self)@.with_pc(wadd16(old(self)@.pc, 2)),
            final(self).clock == old(self).clock,
    {
        let lo = self.n8();
        let hi = self.n8();
        proof {
            crate::cpu::register::lemma_join_word(hi as u16, lo as u16);
        }
        ((hi as u16) << 8u16) + lo as u16
    }

    /// Pushes a word: upper byte at SP - 1, lower byte at SP - 2.
    #[verifier::spinoff_prover]
    pub(crate) fn push_stack(&mut self, val16: u16)
        requires
            old(self).wf(),
        ensures
            final(self).wf(),
            final(self).clock@.len() == old(self).clock@.len() + 2,
            final(self).clock@.take(old(self).clock@.len() as int) == old(self).clock@,
            final(self)@ == old(self)@.pushed(
                val16,
                final(self).clock@[old(self).clock@.len() as int],
                final(self).clock@[old(self).clock@.len() as int + 1],
            ),
    {
        proof {
            crate::cpu::register::lemma_split_word(val16);
        }
        let hi = ((val16 & 0xFF00) >> 8u16) as u8;
        let lo = (val16 & 0xFF) as u8;
        let sp = self.sp.full();
        let ghost c0 = self.clock@;
        let ghost s0 = self@;
        self.write_byte(sp.wrapping_sub(1), hi);
        let ghost t0 = self@.bus.cartridge.rtc_time();
        let ghost s1 = self@;
        assert(s1 == s0.write(wsub16(s0.sp, 1), hi_byte(val16), t0));
        self.write_byte(sp.wrapping_sub(2), lo);
        let ghost t1 = self@.bus.cartridge.rtc_time();
        assert(self@ == s1.write(wsub16(s0.sp, 2), lo_byte(val16), t1));
        self.sp = Register(sp.wrapping_sub(2));
        assert(self.clock@ == c0.push(t0).push(t1));
        assert(self.clock@.take(c0.len() as int) =~= c0);
        assert(self.clock@[c0.len() as int] == t0);
        assert(self.clock@[c0.len() as int + 1] == t1);
    }

    /// Pops the word on top of the stack.
    pub(crate) fn pop_stack(&mut self) -> (r: u16)
        requires
            old(self).wf(),
        ensures
            r == old(self)@.top_of_stack(),
            final(self)@ == old(self)@.popped(),
            final(self).clock == old(self).clock,
    {
        let sp = self.sp.full();
        let lo = self.bus.read_byte(sp);
        let hi = self.bus.read_byte(sp.wrapping_add(1));
        proof {
            crate::cpu::register::lemma_join_word(hi as u16, lo as u16);
        }
        self.sp = Register(sp.wrapping_add(2));
        ((hi as u16) << 8u16) + lo as u16
    }
}

/// POP gives back what PUSH stored, and restores SP, when the two stack
/// bytes lie in plain RAM.
pub proof fn lemma_pop_after_push(s: CpuState, v: u16, t0: u64, t1: u64)
    requires
        s.wf(),
        crate::bus::plain_ram(wsub16(s.sp, 1)),
        crate::bus::plain_ram(wsub16(s.sp, 2)),
    ensures
        s.pushed(v, t0, t1).top_of_stack() == v,
        s.pushed(v, t0, t1).popped().sp == s.sp,
{
    let a1 = wsub16(s.sp, 1);
    let a2 = wsub16(s.sp, 2);
    let b1 = s.bus.spec_write_byte(a1, hi_byte(v), t0);
    crate::bus::lemma_write_keeps_wf(s.bus, a1, hi_byte(v), t0);
    crate::bus::lemma_ram_read_after_write(s.bus, a1, hi_byte(v), t0);
    crate::bus::lemma_ram_read_after_write(b1, a2, lo_byte(v), t1);
    crate::bus::lemma_ram_write_frame(b1, a2, a1, lo_byte(v), t1);
    crate::cpu::register::lemma_word_bytes_roundtrip(v, 0, 0);
}

} // verus!
