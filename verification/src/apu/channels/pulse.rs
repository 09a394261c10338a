use vstd::prelude::*;
use crate::apu::envelope::Envelope;
use crate::apu::length_counter::LengthCounter;
use crate::apu::sweep::Sweep;
use crate::apu::MAX_PERIOD;

verus! {

pub const LENGTH_TICKS: u32 = 64;

pub const DUTY_SAMPLE_SIZE: usize = 8;

/// The waveform of each duty setting, one bit per step, first step in the
/// most significant bit: 12.5%, 25%, 50% and 75%.
pub open spec fn duty_pattern(duty: usize) -> u8 {
    if duty == 0 {
        0b0000_0001
    } else if duty == 1 {
        0b1000_0001
    } else if duty == 2 {
        0b1000_0111
    } else {
        0b0111_1110
    }
}

/// The duty table entry at `index` (0..8) of waveform `duty` (0..4).
pub open spec fn duty_sample(duty: usize, index: usize) -> u8 {
    (duty_pattern(duty) >> ((7 - index) as u8)) & 1
}

/// A pulse (square wave) channel, with a frequency sweep for channel 1.
pub struct Pulse {
    pub nrx0: u8,
    pub nrx1: u8,
    pub nrx2: u8,
    pub nrx3: u8,
    pub nrx4: u8,
    pub length_counter: LengthCounter,
    pub envelope: Envelope,
    pub sweep: Option<Sweep>,
    pub dac_on: bool,
    pub duty_index: usize,
    pub freq_counter: u32,
    pub power_on: bool,
}

/// The 11-bit period held in NRx3 (low byte) and NRx4 (bits 0..=2).
pub open spec fn period_of(nrx3: u8, nrx4: u8) -> u32 {
    ((nrx4 as u32 & 7) << 8 | nrx3 as u32) as u32
}

pub proof fn lemma_period_of_bound(nrx3: u8, nrx4: u8)
    ensures
        period_of(nrx3, nrx4) <= 0x7FF,
{
    crate::bits::lemma_period_bits(nrx3 as u32, nrx4 as u32);
}

impl Pulse {
    pub open spec fn wf(self) -> bool {
        &&& self.length_counter.wf()
        &&& self.length_counter.max_ticks == LENGTH_TICKS
        &&& self.envelope.wf()
        &&& (self.sweep matches Some(s) ==> s.wf())
        &&& self.duty_index < DUTY_SAMPLE_SIZE
        &&& self.freq_counter <= MAX_PERIOD
    }

    pub open spec fn spec_period(self) -> u32 {
        period_of(self.nrx3, self.nrx4)
    }

    /// The channel after `make_sample()`, with the sample it returns.
    pub open spec fn spec_make_sample(self) -> (Pulse, u8) {
        if !self.length_counter.channel_on || !self.dac_on {
            (self, 0)
        } else {
            let wrap = self.freq_counter >= MAX_PERIOD - self.spec_period();
            let fc = if wrap { 0u32 } else { self.freq_counter };
            let di = if wrap { (self.duty_index + 1) % (DUTY_SAMPLE_SIZE as int) } else { self.duty_index as int };
            let p = Pulse { freq_counter: (fc + 1) as u32, duty_index: di as usize, ..self };
            let duty = ((self.nrx1 as usize & 0xC0) >> 6) as usize;
            (p, (duty_sample(duty, di as usize) * self.envelope.cur_volume) as u8)
        }
    }

    /// The channel after `frame_sequencer_step()`.
    pub open spec fn spec_frame_sequencer_step(self) -> Pulse {
        let p1 = Pulse {
            length_counter: self.length_counter.spec_tick(),
            envelope: self.envelope.spec_step(),
            ..self
        };
        match self.sweep {
            Some(sw) => {
                let r = sw.spec_step(self.nrx3, self.nrx4);
                Pulse {
                    sweep: Some(r.0),
                    nrx3: r.1,
                    nrx4: r.2,
                    length_counter: if r.3 { p1.length_counter } else {
                        LengthCounter { channel_on: false, ..p1.length_counter }
                    },
                    ..p1
                }
            },
            None => p1,
        }
    }

    /// What `read(addr)` returns: the register with its unreadable bits set.
    pub open spec fn spec_read(self, addr: usize) -> u8 {
        if addr == 0xFF10 {
            self.nrx0 | 0x80
        } else if addr == 0xFF11 || addr == 0xFF16 {
            self.nrx1 | 0x3F
        } else if addr == 0xFF12 || addr == 0xFF17 {
            self.nrx2
        } else if addr == 0xFF13 || addr == 0xFF18 {
            self.nrx3 | 0xFF
        } else {
            self.nrx4 | 0xBF
        }
    }

    /// The channel after a write to NRx0.
    pub open spec fn spec_write_nrx0(self, byte: u8) -> Pulse {
        let p = Pulse { nrx0: byte, ..self };
        match self.sweep {
            Some(sw) => {
                let r = sw.spec_set(byte);
                Pulse {
                    sweep: Some(r.0),
                    length_counter: if r.1 { p.length_counter } else {
                        LengthCounter { channel_on: false, ..p.length_counter }
                    },
                    ..p
                }
            },
            None => p,
        }
    }

    /// The channel after a write to NRx1.
    pub open spec fn spec_write_nrx1(self, byte: u8) -> Pulse {
        Pulse {
            nrx1: if self.power_on { byte } else { self.nrx1 },
            length_counter: self.length_counter.spec_set_ticks(byte),
            ..self
        }
    }

    /// The channel after a write to NRx2.
    pub open spec fn spec_write_nrx2(self, byte: u8) -> Pulse {
        let dac = byte & 0xF8 != 0;
        Pulse {
            nrx2: byte,
            envelope: self.envelope.spec_set(byte),
            dac_on: dac,
            length_counter: if dac { self.length_counter } else {
                LengthCounter { channel_on: false, ..self.length_counter }
            },
            ..self
        }
    }

    /// The channel after a write to NRx3.
    pub open spec fn spec_write_nrx3(self, byte: u8) -> Pulse {
        let p = Pulse { nrx3: byte, ..self };
        match self.sweep {
            Some(sw) => Pulse { sweep: Some(Sweep { cur_freq_period: p.spec_period(), ..sw }), ..p },
            None => p,
        }
    }

    /// The channel after a write to NRx4.
    pub open spec fn spec_write_nrx4(self, byte: u8) -> Pulse {
        let enable = byte & 0x40 != 0;
        let trigger = byte & 0x80 != 0;
        let lc1 = LengthCounter { enabled: enable, ..self.length_counter.spec_extra_clocking(enable) };
        let p1 = Pulse { nrx4: byte, length_counter: lc1, ..self };
        let p2 = if trigger {
            Pulse {
                length_counter: lc1.spec_on_trigger(),
                duty_index: 0,
                envelope: self.envelope.spec_on_trigger(),
                freq_counter: 0,
                ..p1
            }
        } else {
            p1
        };
        match self.sweep {
            Some(sw) => {
                let s1 = Sweep { cur_freq_period: p2.spec_period(), ..sw };
                if trigger {
                    let r = s1.spec_on_trigger();
                    Pulse {
                        sweep: Some(r.0),
                        length_counter: if r.1 { p2.length_counter } else {
                            LengthCounter { channel_on: false, ..p2.length_counter }
                        },
                        ..p2
                    }
                } else {
                    Pulse { sweep: Some(s1), ..p2 }
                }
            },
            None => p2,
        }
    }

    /// The channel after `write(addr, byte)`.
    pub open spec fn spec_write(self, addr: usize, byte: u8) -> Pulse {
        if addr == 0xFF10 {
            self.spec_write_nrx0(byte)
        } else if addr == 0xFF11 || addr == 0xFF16 {
            self.spec_write_nrx1(byte)
        } else if addr == 0xFF12 || addr == 0xFF17 {
            self.spec_write_nrx2(byte)
        } else if addr == 0xFF13 || addr == 0xFF18 {
            self.spec_write_nrx3(byte)
        } else {
            self.spec_write_nrx4(byte)
        }
    }

    /// The channel as it is after power-up, before the APU is switched on.
    pub open spec fn spec_initial(with_sweep: bool) -> Pulse {
        Pulse {
            nrx0: 0,
            nrx1: 0,
            nrx2: 0,
            nrx3: 0,
            nrx4: 0x80,
            length_counter: LengthCounter {
                fs_ticks: 1,
                channel_on: false,
                enabled: false,
                ticks: LENGTH_TICKS,
                max_ticks: LENGTH_TICKS,
            },
            envelope: Envelope {
                fs_ticks: 0,
                cur_volume: 0,
                sweep_pace: 0,
                initial_volume: 0,
                envelope_up: false,
                sweep_ticks: 0,
            },
            sweep: if with_sweep {
                Some(Sweep {
                    fs_ticks: 1,
                    cur_freq_period: 0,
                    shadow_freq_period: 0,
                    sweep_period: 8,
                    sweep_down: true,
                    shift: 0,
                    enabled: false,
                    sweep_timer: 0,
                    sweep_down_calc: false,
                })
            } else {
                None
            },
            dac_on: false,
            duty_index: 0,
            freq_counter: 0,
            power_on: false,
        }
    }

    /// The channel after `power_off()`: every register cleared.
    pub open spec fn spec_power_off(self) -> Pulse {
        let init = Pulse::spec_initial(self.sweep is Some);
        Pulse { nrx4: 0, ..init }
    }

    /// A silent, powered-off pulse channel, with a sweep unit if asked for.
    pub fn new(with_sweep: bool) -> (r: Self)
        ensures
            r.wf(),
            r == Pulse::spec_initial(with_sweep),
    {
        let mut sweep = None;
        if with_sweep {
            sweep = Some(Sweep::new());
        }
        Pulse {
            nrx0: 0,
            nrx1: 0,
            nrx2: 0,
            nrx3: 0,
            nrx4: 0x80,
            length_counter: LengthCounter::new(LENGTH_TICKS),
            envelope: Envelope::new(),
            sweep,
            dac_on: false,
            duty_index: 0,
            freq_counter: 0,
            power_on: false,
        }
    }

    /// Clears every register, as when the APU is switched off.
    pub fn power_off(&mut self)
        ensures
            final(self).wf(),
            *final(self) == old(self).spec_power_off(),
    {
        self.power_on = false;
        self.nrx0 = 0;
        self.nrx1 = 0;
        self.nrx2 = 0;
        self.nrx3 = 0;
        self.nrx4 = 0;
        self.length_counter = LengthCounter::new(LENGTH_TICKS);
        self.envelope = Envelope::new();
        self.dac_on = false;
        self.duty_index = 0;
        self.freq_counter = 0;
        if self.sweep.is_some() {
            self.sweep = Some(Sweep::new());
        }
    }

    /// Marks the channel as powered (its length register becomes writable).
    pub fn power_on(&mut self)
        ensures
            *final(self) == (Pulse { power_on: true, ..*old(self) }),
    {
        self.power_on = true;
    }

    /// Advances the channel by one sample period and returns the digital
    /// sample (duty bit times volume, 0..=15).
    pub fn make_sample(&mut self) -> (r: u8)
        requires
            old(self).wf(),
        ensures
            final(self).wf(),
            (*final(self), r) == old(self).spec_make_sample(),
            r <= 15,
    {
        if !self.length_counter.channel_on() || !self.dac_on {
            return 0;
        }
        let period = self.period_value();
        if self.freq_counter >= (MAX_PERIOD - period) {
            self.freq_counter = 0;
            self.duty_index = (self.duty_index + 1) % DUTY_SAMPLE_SIZE;
        }
        self.freq_counter = self.freq_counter + 1;
        proof {
            crate::bits::lemma_u8_nibbles(self.nrx1);
            crate::bits::lemma_duty_bit(duty_pattern(((self.nrx1 as usize & 0xC0) >> 6) as usize), (7 - self.duty_index) as u8);
        }
        let duty_select = (self.nrx1 as usize & 0xC0) >> 6;
        let sample = duty_bit(duty_select, self.duty_index);
        let volume = self.envelope.volume();
        assert(sample * volume <= 15) by (nonlinear_arith)
            requires
                sample <= 1,
                volume <= 15,
        ;
        sample * volume
    }

    /// Clocks the length counter, the envelope and (channel 1) the sweep.
    pub fn frame_sequencer_step(&mut self)
        requires
            old(self).wf(),
        ensures
            final(self).wf(),
            *final(self) == old(self).spec_frame_sequencer_step(),
    {
        self.length_counter.tick();
        self.envelope.step();
        if let Some(mut sweep) = self.sweep {
            let mut nr13 = self.nrx3;
            let mut nr14 = self.nrx4;
            let ok = sweep.step(&mut nr13, &mut nr14);
            self.nrx3 = nr13;
            self.nrx4 = nr14;
            self.sweep = Some(sweep);
            if !ok {
                self.length_counter.turn_off_channel();
            }
        }
    }

    /// Whether the channel is on.
    pub fn channel_on(&self) -> (r: bool)
        ensures
            r == self.length_counter.channel_on,
    {
        self.length_counter.channel_on()
    }

    /// Whether the DAC is on.
    pub fn dac_on(&self) -> (r: bool)
        ensures
            r == self.dac_on,
    {
        self.dac_on
    }

    /// Reads a channel register.
    pub fn read(&self, addr: usize) -> (r: u8)
        requires
            0xFF10 <= addr <= 0xFF14 || 0xFF16 <= addr <= 0xFF19,
        ensures
            r == self.spec_read(addr),
    {
        match addr {
            0xFF10 => self.nrx0 | 0x80,
            0xFF11 | 0xFF16 => self.nrx1 | 0x3F,
            0xFF12 | 0xFF17 => self.nrx2,
            0xFF13 | 0xFF18 => self.nrx3 | 0xFF,
            _ => self.nrx4 | 0xBF,
        }
    }

    /// Writes a channel register.
    pub fn write(&mut self, addr: usize, byte: u8)
        requires
            old(self).wf(),
            0xFF10 <= addr <= 0xFF14 || 0xFF16 <= addr <= 0xFF19,
        ensures
            final(self).wf(),
            *final(self) == old(self).spec_write(addr, byte),
    {
        match addr {
            0xFF10 => self.write_nrx0(byte),
            0xFF11 | 0xFF16 => self.write_nrx1(byte),
            0xFF12 | 0xFF17 => self.write_nrx2(byte),
            0xFF13 | 0xFF18 => self.write_nrx3(byte),
            _ => self.write_nrx4(byte),
        }
    }

    fn write_nrx0(&mut self, byte: u8)
        requires
            old(self).wf(),
        ensures
            final(self).wf(),
            *final(self) == old(self).spec_write_nrx0(byte),
    {
        self.nrx0 = byte;
        if let Some(mut sweep) = self.sweep {
            let ok = sweep.set(byte);
            self.sweep = Some(sweep);
            if !ok {
                self.length_counter.turn_off_channel();
            }
        }
    }

    fn write_nrx1(&mut self, byte: u8)
        requires
            old(self).wf(),
        ensures
            final(self).wf(),
            *final(self) == old(self).spec_write_nrx1(byte),
    {
        if self.power_on {
            self.nrx1 = byte;
        }
        self.length_counter.set_ticks(byte);
    }

    fn write_nrx2(&mut self, byte: u8)
        requires
            old(self).wf(),
        ensures
            final(self).wf(),
            *final(self) == old(self).spec_write_nrx2(byte),
    {
        self.nrx2 = byte;
        self.envelope.set(byte);
        self.dac_on = byte & 0xF8 != 0;
        if !self.dac_on {
            self.length_counter.turn_off_channel();
        }
    }

    fn write_nrx3(&mut self, byte: u8)
        requires
            old(self).wf(),
        ensures
            final(self).wf(),
            *final(self) == old(self).spec_write_nrx3(byte),
    {
        self.nrx3 = byte;
        let new_period = self.period_value();
        if let Some(mut sweep) = self.sweep {
            sweep.set_period(new_period);
            self.sweep = Some(sweep);
        }
    }

    fn write_nrx4(&mut self, byte: u8)
        requires
            old(self).wf(),
        ensures
            final(self).wf(),
            *final(self) == old(self).spec_write_nrx4(byte),
    {
        self.nrx4 = byte;
        let new_length_enabled = byte & 0x40 != 0;
        self.length_counter.extra_clocking(new_length_enabled);
        self.length_counter.set_tick_enable(new_length_enabled);
        if byte & 0x80 != 0 {
            self.length_counter.on_trigger();
            self.duty_index = 0;
            self.envelope.on_trigger();
            self.freq_counter = 0;
        }
        let new_period = self.period_value();
        if let Some(mut sweep) = self.sweep {
            sweep.set_period(new_period);
            if byte & 0x80 != 0 {
                let ok = sweep.on_trigger();
                self.sweep = Some(sweep);
                if !ok {
                    self.length_counter.turn_off_channel();
                }
            } else {
                self.sweep = Some(sweep);
            }
        }
    }

    fn period_value(&self) -> (r: u32)
        ensures
            r == self.spec_period(),
            r <= 0x7FF,
    {
        proof {
            lemma_period_of_bound(self.nrx3, self.nrx4);
        }
        (self.nrx4 as u32 & 7) << 8 | self.nrx3 as u32
    }
}

fn duty_bit(duty: usize, index: usize) -> (r: u8)
    requires
        duty < 4,
        index < 8,
    ensures
        r == duty_sample(duty, index),
        r <= 1,
{
    let pattern: u8 = if duty == 0 {
        0b0000_0001
    } else if duty == 1 {
        0b1000_0001
    } else if duty == 2 {
        0b1000_0111
    } else {
        0b0111_1110
    };
    proof {
        crate::bits::lemma_duty_bit(pattern, (7 - index) as u8);
    }
    (pattern >> ((7 - index) as u8)) & 1
}

proof fn lemma_duty_rows(i: u8)
    by (bit_vector)
    requires
        i < 8,
    ensures
        (0b0000_0001u8 >> ((7 - i) as u8)) & 1 == (if i == 7 { 1u8 } else { 0u8 }),
        (0b1000_0001u8 >> ((7 - i) as u8)) & 1 == (if i == 0 || i == 7 { 1u8 } else { 0u8 }),
        (0b1000_0111u8 >> ((7 - i) as u8)) & 1 == (if i == 0 || i >= 5 { 1u8 } else { 0u8 }),
        (0b0111_1110u8 >> ((7 - i) as u8)) & 1 == (if 1 <= i && i <= 6 { 1u8 } else { 0u8 }),
{
}

/// Whether step `i` (0..8) of duty setting `d` (0..4) is high: the last
/// step for 12.5%, the first and last for 25%, the first and the last three
/// for 50%, and all but the first and last for 75%.
pub open spec fn duty_step_high(d: int, i: int) -> bool {
    ||| d == 0 && i == 7
    ||| d == 1 && (i == 0 || i == 7)
    ||| d == 2 && (i == 0 || i >= 5)
    ||| d == 3 && 1 <= i <= 6
}

proof fn lemma_duty_sample_high(d: usize, i: usize)
    requires
        d < 4,
        i < 8,
    ensures
        duty_sample(d, i) == (if duty_step_high(d as int, i as int) { 1u8 } else { 0u8 }),
{
    lemma_duty_rows(i as u8);
    assert((7 - i) as u8 == ((7 - (i as u8)) as u8));
}

/// The pulse waveform: a sounding channel's sample is its volume on a high
/// step of its duty setting (NRx1 bits 6-7) and 0 on a low step, where the
/// settings 0, 1, 2, 3 are high on the last step; the first and last; the
/// first and the last three; and all but the first and last of the 8 steps.
pub proof fn lemma_duty_waveform(p: Pulse)
    requires
        p.wf(),
        p.length_counter.channel_on,
        p.dac_on,
    ensures
        ({
            let (q, out) = p.spec_make_sample();
            &&& q.duty_index < 8
            &&& out == (if duty_step_high((p.nrx1 >> 6u8) as int, q.duty_index as int) { p.envelope.cur_volume } else { 0 })
        }),
{
    let (q, out) = p.spec_make_sample();
    let x = p.nrx1;
    let d = ((x as usize & 0xC0) >> 6) as usize;
    assert(d == (x >> 6u8) as usize && d < 4) by (bit_vector)
        requires
            d == ((x as usize & 0xC0) >> 6) as usize,
    ;
    lemma_duty_sample_high(d, q.duty_index);
}

/// The duty settings 0, 1, 2, 3 are high on 1, 2, 4 and 6 of the 8 steps
/// (12.5%, 25%, 50% and 75% of the time).
pub proof fn lemma_duty_ratio(d: usize)
    requires
        d < 4,
    ensures
        duty_sample(d, 0) + duty_sample(d, 1) + duty_sample(d, 2) + duty_sample(d, 3) + duty_sample(d, 4)
            + duty_sample(d, 5) + duty_sample(d, 6) + duty_sample(d, 7) == (if d == 0 {
            1int
        } else if d == 1 {
            2int
        } else if d == 2 {
            4int
        } else {
            6int
        }),
{
    lemma_duty_sample_high(d, 0);
    lemma_duty_sample_high(d, 1);
    lemma_duty_sample_high(d, 2);
    lemma_duty_sample_high(d, 3);
    lemma_duty_sample_high(d, 4);
    lemma_duty_sample_high(d, 5);
    lemma_duty_sample_high(d, 6);
    lemma_duty_sample_high(d, 7);
}

} // verus!
