use vstd::prelude::*;
use crate::config::{AUDIO_SAMPLES, SAMPLING_RATE_HZ};
use crate::constants::M_CYCLE_HZ;
use crate::cpu::GBModel;
use crate::apu::channels::pulse::Pulse;
use crate::apu::channels::noise::Noise;
use crate::apu::channels::wave::{Wave, WaveState, WAVE_RAM_SIZE};

pub mod envelope;
pub mod length_counter;
pub mod sweep;
pub mod channels;

verus! {

pub const MAX_PERIOD: u32 = 2048;

pub const WAVE_RAM_START: usize = 0xFF30;

pub const WAVE_RAM_END: usize = 0xFF3F;

/// Samples are gathered once every this many M-cycles.
pub const SAMPLE_GATHER_PERIOD: u32 = 21;

/// The four digital channel samples (0..=15 each) taken at one output
/// sample point, with the panning (NR51) and master volume (NR50) then in
/// force: everything the analog mix of that point is computed from.
#[derive(Clone, Copy, Debug, PartialEq, Eq, Structural)]
pub struct SampleFrame {
    pub pulse1: u8,
    pub pulse2: u8,
    pub wave: u8,
    pub noise: u8,
    pub nr51: u8,
    pub nr50: u8,
}

/// The audio processing unit.
pub struct Apu {
    pub model: GBModel,
    pub apu_on: bool,
    pub pulse1: Pulse,
    pub pulse2: Pulse,
    pub wave: Wave,
    pub noise: Noise,
    pub audio_buffer: Vec<SampleFrame>,
    pub buffer_index: usize,
    pub sample_gather: u32,
    pub nr52: u8,
    pub nr51: u8,
    pub nr50: u8,
    pub t_cycles: u8,
    pub pcm12: u8,
    pub pcm34: u8,
}

/// A sample point of silence, with no panning and the lowest volume.
pub open spec fn silent_frame() -> SampleFrame {
    SampleFrame { pulse1: 0, pulse2: 0, wave: 0, noise: 0, nr51: 0, nr50: 0 }
}

/// The APU as plain values.
pub struct ApuState {
    pub model: GBModel,
    pub apu_on: bool,
    pub pulse1: Pulse,
    pub pulse2: Pulse,
    pub wave: WaveState,
    pub noise: Noise,
    pub audio_buffer: Seq<SampleFrame>,
    pub buffer_index: usize,
    pub sample_gather: u32,
    pub nr52: u8,
    pub nr51: u8,
    pub nr50: u8,
    pub t_cycles: u8,
    pub pcm12: u8,
    pub pcm34: u8,
}

impl View for Apu {
    type V = ApuState;

    open spec fn view(&self) -> ApuState {
        ApuState {
            model: self.model,
            apu_on: self.apu_on,
            pulse1: self.pulse1,
            pulse2: self.pulse2,
            wave: self.wave@,
            noise: self.noise,
            audio_buffer: self.audio_buffer@,
            buffer_index: self.buffer_index,
            sample_gather: self.sample_gather,
            nr52: self.nr52,
            nr51: self.nr51,
            nr50: self.nr50,
            t_cycles: self.t_cycles,
            pcm12: self.pcm12,
            pcm34: self.pcm34,
        }
    }
}

/// Whether a register stays writable while the APU is off: NR52 always and,
/// on DMG, the four length registers.
pub open spec fn writable_when_off(model: GBModel, addr: usize) -> bool {
    addr == 0xFF26 || (model == GBModel::DMG && (addr == 0xFF11 || addr == 0xFF16 || addr == 0xFF1B
        || addr == 0xFF20))
}

/// The addresses that `read_io` and `write_io` serve.
pub open spec fn apu_io_addr(addr: usize) -> bool {
    0xFF10 <= addr <= 0xFF26 || WAVE_RAM_START <= addr <= WAVE_RAM_END || addr == 0xFF76 || addr == 0xFF77
}

impl ApuState {
    pub open spec fn wf(self) -> bool {
        &&& self.pulse1.wf()
        &&& self.pulse1.sweep is Some
        &&& self.pulse2.wf()
        &&& self.pulse2.sweep is None
        &&& self.wave.wf()
        &&& self.noise.wf()
        &&& self.audio_buffer.len() == AUDIO_SAMPLES
        &&& self.buffer_index <= AUDIO_SAMPLES
        &&& self.sample_gather <= SAMPLE_GATHER_PERIOD
    }

    /// The buffer after pushing one frame: the write position wraps to the
    /// start once a full batch has been gathered.
    pub open spec fn spec_push(self, f: SampleFrame) -> ApuState {
        let idx = if self.buffer_index >= AUDIO_SAMPLES { 0 } else { self.buffer_index };
        ApuState {
            audio_buffer: self.audio_buffer.update(idx as int, f),
            buffer_index: (idx + 1) as usize,
            ..self
        }
    }

    /// The APU after one T-cycle of `step`.
    pub open spec fn spec_tick(self) -> ApuState {
        let t = ((self.t_cycles + 1) % 256) as u8;
        let a0 = ApuState { t_cycles: t, ..self };
        if t % 4 != 0 {
            a0
        } else {
            let (p1, s1) = a0.pulse1.spec_make_sample();
            let (p2, s2) = a0.pulse2.spec_make_sample();
            let (w, s3) = a0.wave.spec_make_sample();
            let (n, s4) = a0.noise.spec_make_sample();
            let cgb = a0.model == GBModel::CGB;
            let a1 = ApuState {
                pulse1: p1,
                pulse2: p2,
                wave: w,
                noise: n,
                pcm12: if cgb { ((s2 << 4) | s1) as u8 } else { a0.pcm12 },
                pcm34: if cgb { ((s4 << 4) | s3) as u8 } else { a0.pcm34 },
                ..a0
            };
            let a2 = if a1.sample_gather == SAMPLE_GATHER_PERIOD {
                ApuState { sample_gather: 0, ..a1 }.spec_push(
                    SampleFrame { pulse1: s1, pulse2: s2, wave: s3, noise: s4, nr51: a1.nr51, nr50: a1.nr50 },
                )
            } else {
                a1
            };
            ApuState { sample_gather: (a2.sample_gather + 1) as u32, ..a2 }
        }
    }

    /// The APU after `n` T-cycles.
    pub open spec fn spec_ticks(self, n: nat) -> ApuState
        decreases n,
    {
        if n == 0 {
            self
        } else {
            self.spec_ticks((n - 1) as nat).spec_tick()
        }
    }

    /// The APU after `step(t)`.
    pub open spec fn spec_step(self, t: u32) -> ApuState {
        if !self.apu_on { self } else { self.spec_ticks(t as nat) }
    }

    /// The APU after `frame_sequencer_step()`.
    pub open spec fn spec_frame_sequencer_step(self) -> ApuState {
        if !self.apu_on {
            self
        } else {
            ApuState {
                pulse1: self.pulse1.spec_frame_sequencer_step(),
                pulse2: self.pulse2.spec_frame_sequencer_step(),
                wave: WaveState { length_counter: self.wave.length_counter.spec_tick(), ..self.wave },
                noise: self.noise.spec_frame_sequencer_step(),
                ..self
            }
        }
    }

    /// NR52: power bit, the on-status of each channel, and unused bits set.
    pub open spec fn spec_nr52(self) -> u8 {
        let b0: u8 = if self.pulse1.length_counter.channel_on && self.pulse1.dac_on { 1 } else { 0 };
        let b1: u8 = if self.pulse2.length_counter.channel_on && self.pulse2.dac_on { 2 } else { 0 };
        let b2: u8 = if self.wave.length_counter.channel_on && self.wave.dac_on { 4 } else { 0 };
        let b3: u8 = if self.noise.length_counter.channel_on && self.noise.dac_on { 8 } else { 0 };
        (self.nr52 & 0x80) | b0 | b1 | b2 | b3 | 0x70
    }

    /// What `read_io(addr)` returns.
    pub open spec fn spec_read_io(self, addr: usize) -> u8 {
        if 0xFF10 <= addr <= 0xFF14 {
            self.pulse1.spec_read(addr)
        } else if 0xFF16 <= addr <= 0xFF19 {
            self.pulse2.spec_read(addr)
        } else if 0xFF1A <= addr <= 0xFF1E {
            self.wave.spec_read(addr)
        } else if 0xFF20 <= addr <= 0xFF23 {
            self.noise.spec_read(addr)
        } else if addr == 0xFF24 {
            self.nr50
        } else if addr == 0xFF25 {
            self.nr51
        } else if addr == 0xFF26 {
            self.spec_nr52()
        } else if WAVE_RAM_START <= addr <= WAVE_RAM_END {
            self.wave.spec_read_wave_ram(addr)
        } else if addr == 0xFF76 {
            self.pcm12
        } else if addr == 0xFF77 {
            self.pcm34
        } else {
            0xFF
        }
    }

    pub open spec fn spec_turn_on(self) -> ApuState {
        ApuState {
            apu_on: true,
            pulse1: Pulse { power_on: true, ..self.pulse1 },
            pulse2: Pulse { power_on: true, ..self.pulse2 },
            wave: WaveState { power_on: true, ..self.wave },
            noise: Noise { power_on: true, ..self.noise },
            ..self
        }
    }

    pub open spec fn spec_turn_off(self) -> ApuState {
        ApuState {
            apu_on: false,
            nr50: 0,
            nr51: 0,
            pulse1: self.pulse1.spec_power_off(),
            pulse2: self.pulse2.spec_power_off(),
            wave: self.wave.spec_power_off(),
            noise: self.noise.spec_power_off(),
            ..self
        }
    }

    pub open spec fn spec_write_nr52(self, byte: u8) -> ApuState {
        let a = if (byte ^ self.nr52) & 0x80 != 0 {
            if byte & 0x80 == 0 { self.spec_turn_off() } else { self.spec_turn_on() }
        } else {
            self
        };
        ApuState { nr52: byte & 0x80, ..a }
    }

    /// The APU after `write_io(addr, byte)`.
    pub open spec fn spec_write_io(self, addr: usize, byte: u8) -> ApuState {
        if !self.apu_on && !writable_when_off(self.model, addr) {
            self
        } else if 0xFF10 <= addr <= 0xFF14 {
            ApuState { pulse1: self.pulse1.spec_write(addr, byte), ..self }
        } else if 0xFF16 <= addr <= 0xFF19 {
            ApuState { pulse2: self.pulse2.spec_write(addr, byte), ..self }
        } else if 0xFF1A <= addr <= 0xFF1E {
            ApuState { wave: self.wave.spec_write(addr, byte), ..self }
        } else if 0xFF20 <= addr <= 0xFF23 {
            ApuState { noise: self.noise.spec_write(addr, byte), ..self }
        } else if addr == 0xFF24 {
            ApuState { nr50: byte, ..self }
        } else if addr == 0xFF25 {
            ApuState { nr51: byte, ..self }
        } else if addr == 0xFF26 {
            self.spec_write_nr52(byte)
        } else if WAVE_RAM_START <= addr <= WAVE_RAM_END {
            ApuState { wave: self.wave.spec_write_wave_ram(addr, byte), ..self }
        } else {
            self
        }
    }
}

impl Apu {
    pub open spec fn wf(self) -> bool {
        self@.wf()
    }

    /// The state of a new APU: on, every register and channel cleared, and a
    /// buffer of silent sample points.
    pub open spec fn spec_initial(model: GBModel) -> ApuState {
        ApuState {
            model,
            apu_on: true,
            pulse1: Pulse::spec_initial(true),
            pulse2: Pulse::spec_initial(false),
            wave: Wave::spec_initial(),
            noise: Noise::spec_initial(),
            audio_buffer: Seq::new(AUDIO_SAMPLES as nat, |i: int| silent_frame()),
            buffer_index: 0,
            sample_gather: 0,
            nr52: 0,
            nr51: 0,
            nr50: 0,
            t_cycles: 0,
            pcm12: 0,
            pcm34: 0,
        }
    }

    /// A powered APU with silent channels and an empty output buffer.
    pub fn new(model: GBModel) -> (r: Self)
        ensures
            r.wf(),
            r.model == model,
            r.apu_on,
            r.buffer_index == 0,
            r.sample_gather == 0,
            r.nr50 == 0 && r.nr51 == 0 && r.nr52 == 0,
            r.t_cycles == 0 && r.pcm12 == 0 && r.pcm34 == 0,
            r.pulse1 == Pulse::spec_initial(true),
            r.pulse2 == Pulse::spec_initial(false),
            r.noise == Noise::spec_initial(),
            r.wave@ == Wave::spec_initial(),
            r.audio_buffer@.len() == AUDIO_SAMPLES,
            r@ == Apu::spec_initial(model),
    {
        let frame = SampleFrame { pulse1: 0, pulse2: 0, wave: 0, noise: 0, nr51: 0, nr50: 0 };
        let audio_buffer = vec![frame; AUDIO_SAMPLES];
        assert(audio_buffer@ =~= Seq::new(AUDIO_SAMPLES as nat, |i: int| silent_frame()));
        Apu {
            model,
            apu_on: true,
            pulse1: Pulse::new(true),
            pulse2: Pulse::new(false),
            wave: Wave::new(),
            noise: Noise::new(),
            audio_buffer,
            buffer_index: 0,
            sample_gather: 0,
            nr52: 0,
            nr51: 0,
            nr50: 0,
            t_cycles: 0,
            pcm12: 0,
            pcm34: 0,
        }
    }

    /// Clocks the length counters, envelopes and sweep of every channel
    /// (while the APU is on).
    pub fn frame_sequencer_step(&mut self)
        requires
            old(self).wf(),
        ensures
            final(self).wf(),
            final(self)@ == old(self)@.spec_frame_sequencer_step(),
    {
        if !self.apu_on {
            return;
        }
        self.pulse1.frame_sequencer_step();
        self.pulse2.frame_sequencer_step();
        self.wave.frame_sequencer_step();
        self.noise.frame_sequencer_step();
    }

    /// Runs the APU for `t_cycles` T-cycles: every 4th T-cycle each channel
    /// produces a sample, and every 21st of those is pushed to the buffer.
    pub fn step(&mut self, t_cycles: u32)
        requires
            old(self).wf(),
        ensures
            final(self).wf(),
            final(self)@ == old(self)@.spec_step(t_cycles),
    {
        if !self.apu_on {
            return;
        }
        let mut i: u32 = 0;
        while i < t_cycles
            invariant
                i <= t_cycles,
                self.wf(),
                self@ == old(self)@.spec_ticks(i as nat),
            decreases t_cycles - i,
        {
            self.tick();
            i = i + 1;
        }
    }

    fn tick(&mut self)
        requires
            old(self).wf(),
        ensures
            final(self).wf(),
            final(self)@ == old(self)@.spec_tick(),
    {
        self.t_cycles = self.t_cycles.wrapping_add(1);
        if self.t_cycles % 4 == 0 {
            let pulse1_sample = self.pulse1.make_sample();
            let pulse2_sample = self.pulse2.make_sample();
            let wave_sample = self.wave.make_sample();
            let noise_sample = self.noise.make_sample();
            if matches!(self.model, GBModel::CGB) {
                self.pcm12 = (pulse2_sample << 4) | pulse1_sample;
                self.pcm34 = (noise_sample << 4) | wave_sample;
            }
            if self.sample_gather == M_CYCLE_HZ / SAMPLING_RATE_HZ {
                self.sample_gather = 0;
                self.push_samples_to_buffer(pulse1_sample, pulse2_sample, wave_sample, noise_sample);
            }
            self.sample_gather = self.sample_gather + 1;
        }
    }

    /// Records one output sample point in the buffer.
    fn push_samples_to_buffer(&mut self, pulse1_sample: u8, pulse2_sample: u8, wave_sample: u8, noise_sample: u8)
        requires
            old(self).wf(),
        ensures
            final(self).wf(),
            final(self)@ == old(self)@.spec_push(SampleFrame {
                pulse1: pulse1_sample,
                pulse2: pulse2_sample,
                wave: wave_sample,
                noise: noise_sample,
                nr51: old(self).nr51,
                nr50: old(self).nr50,
            }),
    {
        if self.buffer_index >= AUDIO_SAMPLES {
            self.buffer_index = 0;
        }
        let frame = SampleFrame {
            pulse1: pulse1_sample,
            pulse2: pulse2_sample,
            wave: wave_sample,
            noise: noise_sample,
            nr51: self.nr51,
            nr50: self.nr50,
        };
        self.audio_buffer.set(self.buffer_index, frame);
        self.buffer_index = self.buffer_index + 1;
    }

    /// Hands out a full batch of `AUDIO_SAMPLES` sample points once one has
    /// been gathered, and starts a new batch; `None` before that.
    pub fn get_audio_output(&mut self) -> (r: Option<Vec<SampleFrame>>)
        requires
            old(self).wf(),
        ensures
            final(self).wf(),
            old(self).buffer_index < AUDIO_SAMPLES ==> r.is_none() && final(self)@ == old(self)@,
            old(self).buffer_index >= AUDIO_SAMPLES ==> {
                &&& r matches Some(v) && v@ == old(self).audio_buffer@
                &&& final(self)@ == (ApuState { buffer_index: 0, ..old(self)@ })
            },
    {
        if self.buffer_index < AUDIO_SAMPLES {
            return None;
        }
        let res = self.audio_buffer.clone();
        assert(res@ =~= self.audio_buffer@);
        self.buffer_index = 0;
        Some(res)
    }

    /// Reads an APU register, wave RAM or (CGB) a PCM register; unmapped
    /// addresses read 0xFF.
    pub fn read_io(&self, addr: usize) -> (r: u8)
        requires
            self.wf(),
        ensures
            r == self@.spec_read_io(addr),
    {
        if 0xFF10 <= addr && addr <= 0xFF14 {
            self.pulse1.read(addr)
        } else if 0xFF16 <= addr && addr <= 0xFF19 {
            self.pulse2.read(addr)
        } else if 0xFF1A <= addr && addr <= 0xFF1E {
            self.wave.read(addr)
        } else if 0xFF20 <= addr && addr <= 0xFF23 {
            self.noise.read(addr)
        } else if addr == 0xFF24 {
            self.nr50
        } else if addr == 0xFF25 {
            self.nr51
        } else if addr == 0xFF26 {
            self.read_nr52()
        } else if WAVE_RAM_START <= addr && addr <= WAVE_RAM_END {
            self.wave.read_wave_ram(addr)
        } else if addr == 0xFF76 {
            self.pcm12
        } else if addr == 0xFF77 {
            self.pcm34
        } else {
            0xFF
        }
    }

    /// Writes an APU register or wave RAM. While the APU is off only NR52
    /// (and, on DMG, the length registers) can be written.
    pub fn write_io(&mut self, addr: usize, byte: u8)
        requires
            old(self).wf(),
        ensures
            final(self).wf(),
            final(self)@ == old(self)@.spec_write_io(addr, byte),
    {
        let writable_off = addr == 0xFF26 || (matches!(self.model, GBModel::DMG) && (addr == 0xFF11
            || addr == 0xFF16 || addr == 0xFF1B || addr == 0xFF20));
        if !self.apu_on && !writable_off {
            return;
        }
        if 0xFF10 <= addr && addr <= 0xFF14 {
            self.pulse1.write(addr, byte);
        } else if 0xFF16 <= addr && addr <= 0xFF19 {
            self.pulse2.write(addr, byte);
        } else if 0xFF1A <= addr && addr <= 0xFF1E {
            self.wave.write(addr, byte);
        } else if 0xFF20 <= addr && addr <= 0xFF23 {
            self.noise.write(addr, byte);
        } else if addr == 0xFF24 {
            self.nr50 = byte;
        } else if addr == 0xFF25 {
            self.nr51 = byte;
        } else if addr == 0xFF26 {
            self.write_nr52(byte);
        } else if WAVE_RAM_START <= addr && addr <= WAVE_RAM_END {
            self.wave.write_wave_ram(addr, byte);
        }
    }

    fn read_nr52(&self) -> (r: u8)
        ensures
            r == self@.spec_nr52(),
    {
        let b0: u8 = if self.pulse1.channel_on() && self.pulse1.dac_on() { 1 } else { 0 };
        let b1: u8 = if self.pulse2.channel_on() && self.pulse2.dac_on() { 2 } else { 0 };
        let b2: u8 = if self.wave.channel_on() && self.wave.dac_on() { 4 } else { 0 };
        let b3: u8 = if self.noise.channel_on() && self.noise.dac_on() { 8 } else { 0 };
        (self.nr52 & 0x80) | b0 | b1 | b2 | b3 | 0x70
    }

    fn write_nr52(&mut self, byte: u8)
        requires
            old(self).wf(),
        ensures
            final(self).wf(),
            final(self)@ == old(self)@.spec_write_nr52(byte),
    {
        if (byte ^ self.nr52) & 0x80 != 0 {
            if byte & 0x80 == 0 {
                self.turn_off_apu();
            } else {
                self.turn_on_apu();
            }
        }
        self.nr52 = byte & 0x80;
    }

    fn turn_on_apu(&mut self)
        requires
            old(self).wf(),
        ensures
            final(self).wf(),
            final(self)@ == old(self)@.spec_turn_on(),
    {
        self.apu_on = true;
        self.pulse1.power_on();
        self.pulse2.power_on();
        self.wave.power_on();
        self.noise.power_on();
    }

    fn turn_off_apu(&mut self)
        requires
            old(self).wf(),
        ensures
            final(self).wf(),
            final(self)@ == old(self)@.spec_turn_off(),
    {
        self.apu_on = false;
        self.nr50 = 0;
        self.nr51 = 0;
        self.pulse1.power_off();
        self.pulse2.power_off();
        self.wave.power_off();
        self.noise.power_off();
    }
}

} // verus!
