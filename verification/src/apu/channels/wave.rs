use vstd::prelude::*;
use crate::apu::length_counter::LengthCounter;
use crate::apu::{MAX_PERIOD, WAVE_RAM_START};
use crate::apu::channels::pulse::period_of;

verus! {

pub const WAVE_RAM_SIZE: usize = 16;

pub const LENGTH_TICKS: u32 = 256;

/// The right shift applied to a sample for each NR32 output level setting:
/// mute (shift out all 4 bits), 100%, 50% and 25%.
pub open spec fn volume_shift(nr32: u8) -> u8 {
    let level = (nr32 & 0x60) >> 5;
    if level == 0 {
        4
    } else if level == 1 {
        0
    } else if level == 2 {
        1
    } else {
        2
    }
}

/// The 4-bit sample at `index` (0..32) of the wave pattern: the high nibble
/// of a byte comes first.
pub open spec fn nibble_of(buffer: u8, index: usize) -> u8 {
    if index % 2 == 0 { (buffer & 0xF0) >> 4 } else { buffer & 0x0F }
}

/// Wave RAM after a trigger while a sample byte is being read: the first
/// byte, or the first four bytes, are overwritten by the bytes around the
/// next read position.
pub open spec fn corrupted_wave_ram(ram: Seq<u8>, sample_index: usize) -> Seq<u8> {
    let next = ((sample_index + 1) / 2) % (WAVE_RAM_SIZE as int);
    if next < 4 {
        ram.update(0, ram[next])
    } else {
        let seg = (next / 4) * 4;
        ram.update(0, ram[seg]).update(1, ram[seg + 1]).update(2, ram[seg + 2]).update(3, ram[seg + 3])
    }
}

/// The wave channel, which plays back 32 4-bit samples from wave RAM.
pub struct Wave {
    pub nr30: u8,
    pub nr31: u8,
    pub nr32: u8,
    pub nr33: u8,
    pub nr34: u8,
    pub wave_ram: Vec<u8>,
    pub sample_buffer: u8,
    pub wave_reads_0xff: bool,
    pub dac_on: bool,
    pub length_counter: LengthCounter,
    pub sample_index: usize,
    pub freq_counter: u32,
    pub power_on: bool,
}

/// The wave channel as plain values, without its RAM buffer.
pub struct WaveState {
    pub nr30: u8,
    pub nr31: u8,
    pub nr32: u8,
    pub nr33: u8,
    pub nr34: u8,
    pub wave_ram: Seq<u8>,
    pub sample_buffer: u8,
    pub wave_reads_0xff: bool,
    pub dac_on: bool,
    pub length_counter: LengthCounter,
    pub sample_index: usize,
    pub freq_counter: u32,
    pub power_on: bool,
}

impl View for Wave {
    type V = WaveState;

    open spec fn view(&self) -> WaveState {
        WaveState {
            nr30: self.nr30,
            nr31: self.nr31,
            nr32: self.nr32,
            nr33: self.nr33,
            nr34: self.nr34,
            wave_ram: self.wave_ram@,
            sample_buffer: self.sample_buffer,
            wave_reads_0xff: self.wave_reads_0xff,
            dac_on: self.dac_on,
            length_counter: self.length_counter,
            sample_index: self.sample_index,
            freq_counter: self.freq_counter,
            power_on: self.power_on,
        }
    }
}

impl WaveState {
    pub open spec fn wf(self) -> bool {
        &&& self.wave_ram.len() == WAVE_RAM_SIZE
        &&& self.length_counter.wf()
        &&& self.length_counter.max_ticks == LENGTH_TICKS
        &&& self.sample_index < 2 * WAVE_RAM_SIZE
        &&& self.freq_counter <= MAX_PERIOD + 3
    }

    pub open spec fn period(self) -> u32 {
        period_of(self.nr33, self.nr34)
    }

    pub open spec fn spec_make_sample(self) -> (WaveState, u8) {
        if !self.length_counter.channel_on || !self.dac_on {
            (self, 0)
        } else {
            let s = if self.freq_counter <= 2 {
                let fc = (self.freq_counter + MAX_PERIOD - self.period()) as u32;
                let si = ((self.sample_index + 1) % (2 * WAVE_RAM_SIZE as int)) as usize;
                WaveState {
                    wave_reads_0xff: if self.freq_counter == 2 { false } else { self.wave_reads_0xff },
                    freq_counter: if fc > 2 { (fc - 2) as u32 } else { fc },
                    sample_index: si,
                    sample_buffer: self.wave_ram[si as int / 2],
                    ..self
                }
            } else {
                WaveState { freq_counter: (self.freq_counter - 2) as u32, wave_reads_0xff: true, ..self }
            };
            (s, nibble_of(s.sample_buffer, s.sample_index) >> volume_shift(self.nr32))
        }
    }

    pub open spec fn spec_read(self, addr: usize) -> u8 {
        if addr == 0xFF1A {
            self.nr30 | 0x7F
        } else if addr == 0xFF1B {
            self.nr31 | 0xFF
        } else if addr == 0xFF1C {
            self.nr32 | 0x9F
        } else if addr == 0xFF1D {
            self.nr33 | 0xFF
        } else {
            self.nr34 | 0xBF
        }
    }

    pub open spec fn spec_write_nr34(self, byte: u8) -> WaveState {
        let corrupt = self.length_counter.channel_on && self.dac_on && self.freq_counter <= 1;
        let ram = if corrupt { corrupted_wave_ram(self.wave_ram, self.sample_index) } else { self.wave_ram };
        let enable = byte & 0x40 != 0;
        let lc1 = LengthCounter { enabled: enable, ..self.length_counter.spec_extra_clocking(enable) };
        let w1 = WaveState { nr34: byte, wave_ram: ram, length_counter: lc1, ..self };
        if byte & 0x80 != 0 {
            WaveState {
                length_counter: lc1.spec_on_trigger(),
                freq_counter: (MAX_PERIOD - w1.period() + 3) as u32,
                sample_buffer: ram[self.sample_index as int / 2],
                sample_index: 0,
                ..w1
            }
        } else {
            w1
        }
    }

    pub open spec fn spec_write(self, addr: usize, byte: u8) -> WaveState {
        if addr == 0xFF1A {
            let dac = byte & 0xF8 != 0;
            WaveState {
                nr30: byte,
                dac_on: dac,
                length_counter: if dac { self.length_counter } else {
                    LengthCounter { channel_on: false, ..self.length_counter }
                },
                ..self
            }
        } else if addr == 0xFF1B {
            WaveState {
                nr31: if self.power_on { byte } else { self.nr31 },
                length_counter: self.length_counter.spec_set_ticks(byte),
                ..self
            }
        } else if addr == 0xFF1C {
            WaveState { nr32: byte, ..self }
        } else if addr == 0xFF1D {
            WaveState { nr33: byte, ..self }
        } else {
            self.spec_write_nr34(byte)
        }
    }

    /// What `read_wave_ram(addr)` returns: while the channel plays, only the
    /// byte being read (and only right after it was fetched) is visible.
    pub open spec fn spec_read_wave_ram(self, addr: usize) -> u8 {
        if self.length_counter.channel_on && self.dac_on {
            if self.wave_reads_0xff { 0xFF } else { self.sample_buffer }
        } else {
            self.wave_ram[addr - WAVE_RAM_START]
        }
    }

    pub open spec fn spec_write_wave_ram(self, addr: usize, byte: u8) -> WaveState {
        if self.length_counter.channel_on && self.dac_on {
            if !self.wave_reads_0xff {
                WaveState { wave_ram: self.wave_ram.update(self.sample_index as int / 2, byte), ..self }
            } else {
                self
            }
        } else {
            WaveState { wave_ram: self.wave_ram.update(addr - WAVE_RAM_START, byte), ..self }
        }
    }

    pub open spec fn spec_power_off(self) -> WaveState {
        WaveState {
            power_on: false,
            nr30: 0,
            nr31: 0,
            nr32: 0,
            nr33: 0,
            nr34: 0,
            dac_on: false,
            length_counter: LengthCounter {
                fs_ticks: 1,
                channel_on: false,
                enabled: false,
                ticks: LENGTH_TICKS,
                max_ticks: LENGTH_TICKS,
            },
            sample_index: 0,
            sample_buffer: 0,
            freq_counter: 0,
            ..self
        }
    }
}

impl Wave {
    pub open spec fn wf(self) -> bool {
        self@.wf()
    }

    /// The state of a new wave channel: silent, powered off, zeroed wave RAM.
    pub open spec fn spec_initial() -> WaveState {
        WaveState {
            nr30: 0,
            nr31: 0,
            nr32: 0,
            nr33: 0,
            nr34: 0xBF,
            wave_ram: Seq::new(WAVE_RAM_SIZE as nat, |i: int| 0u8),
            sample_buffer: 0,
            wave_reads_0xff: true,
            dac_on: false,
            length_counter: LengthCounter {
                fs_ticks: 1,
                channel_on: false,
                enabled: false,
                ticks: LENGTH_TICKS,
                max_ticks: LENGTH_TICKS,
            },
            sample_index: 0,
            freq_counter: MAX_PERIOD,
            power_on: false,
        }
    }

    /// A silent, powered-off wave channel with zeroed wave RAM.
    pub fn new() -> (r: Self)
        ensures
            r.wf(),
            r@ == Wave::spec_initial(),
    {
        let wave_ram = vec![0u8; WAVE_RAM_SIZE];
        let r = Wave {
            nr30: 0,
            nr31: 0,
            nr32: 0,
            nr33: 0,
            nr34: 0xBF,
            wave_ram,
            sample_buffer: 0,
            wave_reads_0xff: true,
            dac_on: false,
            length_counter: LengthCounter::new(LENGTH_TICKS),
            sample_index: 0,
            freq_counter: MAX_PERIOD,
            power_on: false,
        };
        assert(r.wave_ram@ =~= Seq::new(WAVE_RAM_SIZE as nat, |i: int| 0u8));
        r
    }

    /// Clears every register (wave RAM is kept), as when the APU is switched off.
    pub fn power_off(&mut self)
        requires
            old(self).wf(),
        ensures
            final(self).wf(),
            final(self)@ == old(self)@.spec_power_off(),
    {
        self.power_on = false;
        self.nr30 = 0;
        self.nr31 = 0;
        self.nr32 = 0;
        self.nr33 = 0;
        self.nr34 = 0;
        self.dac_on = false;
        self.length_counter = LengthCounter::new(LENGTH_TICKS);
        self.sample_index = 0;
        self.sample_buffer = 0;
        self.freq_counter = 0;
    }

    /// Marks the channel as powered.
    pub fn power_on(&mut self)
        ensures
            final(self)@ == (WaveState { power_on: true, ..old(self)@ }),
    {
        self.power_on = true;
    }

    /// Advances the channel by one sample period (two T-cycles per counter
    /// step) and returns the digital sample, shifted by the output level.
    pub fn make_sample(&mut self) -> (r: u8)
        requires
            old(self).wf(),
        ensures
            final(self).wf(),
            (final(self)@, r) == old(self)@.spec_make_sample(),
            r <= 15,
    {
        if !self.length_counter.channel_on() || !self.dac_on {
            return 0;
        }
        let level = (self.nr32 & 0x60) >> 5;
        let volume: u8 = if level == 0 {
            4
        } else if level == 1 {
            0
        } else if level == 2 {
            1
        } else {
            2
        };
        if self.freq_counter <= 2 {
            if self.freq_counter == 2 {
                self.wave_reads_0xff = false;
            }
            let period = self.period_value();
            self.freq_counter = self.freq_counter + (MAX_PERIOD - period);
            if self.freq_counter > 2 {
                self.freq_counter = self.freq_counter - 2;
            }
            self.sample_index = (self.sample_index + 1) % (2 * WAVE_RAM_SIZE);
            self.sample_buffer = self.wave_ram[self.sample_index / 2];
        } else {
            self.freq_counter = self.freq_counter - 2;
            self.wave_reads_0xff = true;
        }
        proof {
            crate::bits::lemma_u8_nibbles(self.sample_buffer);
            crate::bits::lemma_u8_shr_le(nibble_of(self.sample_buffer, self.sample_index), volume);
        }
        let sample_nibble = if self.sample_index % 2 == 0 {
            (self.sample_buffer & 0xF0) >> 4
        } else {
            self.sample_buffer & 0x0F
        };
        sample_nibble >> volume
    }

    /// Clocks the length counter.
    pub fn frame_sequencer_step(&mut self)
        requires
            old(self).wf(),
        ensures
            final(self).wf(),
            final(self)@ == (WaveState { length_counter: old(self).length_counter.spec_tick(), ..old(self)@ }),
    {
        self.length_counter.tick();
    }

    /// Reads NR30..NR34.
    pub fn read(&self, addr: usize) -> (r: u8)
        requires
            0xFF1A <= addr <= 0xFF1E,
        ensures
            r == self@.spec_read(addr),
    {
        match addr {
            0xFF1A => self.nr30 | 0x7F,
            0xFF1B => self.nr31 | 0xFF,
            0xFF1C => self.nr32 | 0x9F,
            0xFF1D => self.nr33 | 0xFF,
            _ => self.nr34 | 0xBF,
        }
    }

    /// Writes NR30..NR34.
    pub fn write(&mut self, addr: usize, byte: u8)
        requires
            old(self).wf(),
            0xFF1A <= addr <= 0xFF1E,
        ensures
            final(self).wf(),
            final(self)@ == old(self)@.spec_write(addr, byte),
    {
        match addr {
            0xFF1A => self.write_nr30(byte),
            0xFF1B => self.write_nr31(byte),
            0xFF1C => self.nr32 = byte,
            0xFF1D => self.nr33 = byte,
            _ => self.write_nr34(byte),
        }
    }

    /// Whether the channel is on.
    pub fn channel_on(&self) -> (r: bool)
        ensures
            r == self.length_counter.channel_on,
    {
        self.length_counter.channel_on()
    }

    /// Whether the DAC is on.
    pub fn dac_on(&self) -> (r: bool)
        ensures
            r == self.dac_on,
    {
        self.dac_on
    }

    /// Reads wave RAM.
    pub fn read_wave_ram(&self, addr: usize) -> (r: u8)
        requires
            self.wf(),
            WAVE_RAM_START <= addr < WAVE_RAM_START + WAVE_RAM_SIZE,
        ensures
            r == self@.spec_read_wave_ram(addr),
    {
        if self.channel_on() && self.dac_on() {
            if self.wave_reads_0xff {
                0xFF
            } else {
                self.sample_buffer
            }
        } else {
            self.wave_ram[addr - WAVE_RAM_START]
        }
    }

    /// Writes wave RAM.
    pub fn write_wave_ram(&mut self, addr: usize, byte: u8)
        requires
            old(self).wf(),
            WAVE_RAM_START <= addr < WAVE_RAM_START + WAVE_RAM_SIZE,
        ensures
            final(self).wf(),
            final(self)@ == old(self)@.spec_write_wave_ram(addr, byte),
    {
        if self.channel_on() && self.dac_on() {
            if !self.wave_reads_0xff {
                let i = self.sample_index / 2;
                self.wave_ram.set(i, byte);
            }
        } else {
            self.wave_ram.set(addr - WAVE_RAM_START, byte);
        }
    }

    fn write_nr31(&mut self, byte: u8)
        requires
            old(self).wf(),
        ensures
            final(self).wf(),
            final(self)@ == old(self)@.spec_write(0xFF1B, byte),
    {
        if self.power_on {
            self.nr31 = byte;
        }
        self.length_counter.set_ticks(byte);
    }

    fn write_nr30(&mut self, byte: u8)
        requires
            old(self).wf(),
        ensures
            final(self).wf(),
            final(self)@ == old(self)@.spec_write(0xFF1A, byte),
    {
        self.nr30 = byte;
        self.dac_on = byte & 0xF8 != 0;
        if !self.dac_on {
            self.length_counter.turn_off_channel();
        }
    }

    fn write_nr34(&mut self, byte: u8)
        requires
            old(self).wf(),
        ensures
            final(self).wf(),
            final(self)@ == old(self)@.spec_write_nr34(byte),
    {
        self.nr34 = byte;
        if self.channel_on() && self.dac_on && self.freq_counter <= 1 {
            let next_byte_index = ((self.sample_index + 1) / 2) % WAVE_RAM_SIZE;
            if next_byte_index < 4 {
                let b = self.wave_ram[next_byte_index];
                self.wave_ram.set(0, b);
            } else {
                let segment = (next_byte_index / 4) * 4;
                let b0 = self.wave_ram[segment];
                let b1 = self.wave_ram[segment + 1];
                let b2 = self.wave_ram[segment + 2];
                let b3 = self.wave_ram[segment + 3];
                self.wave_ram.set(0, b0);
                self.wave_ram.set(1, b1);
                self.wave_ram.set(2, b2);
                self.wave_ram.set(3, b3);
            }
        }
        let new_length_enabled = byte & 0x40 != 0;
        self.length_counter.extra_clocking(new_length_enabled);
        self.length_counter.set_tick_enable(new_length_enabled);
        if byte & 0x80 != 0 {
            self.length_counter.on_trigger();
            let period = self.period_value();
            self.freq_counter = MAX_PERIOD - period + 3;
            self.sample_buffer = self.wave_ram[self.sample_index / 2];
            self.sample_index = 0;
        }
    }

    fn period_value(&self) -> (r: u32)
        ensures
            r == self@.period(),
            r <= 0x7FF,
    {
        proof {
            crate::apu::channels::pulse::lemma_period_of_bound(self.nr33, self.nr34);
        }
        (self.nr34 as u32 & 7) << 8 | self.nr33 as u32
    }
}


/// The output level of the wave channel: the sample played is the 4-bit
/// value at the new position (the high nibble of the buffered byte on even
/// positions, the low one on odd positions), then muted, kept, halved or
/// quartered for NR32 bits 5-6 equal to 0, 1, 2 or 3. A silent channel
/// gives 0.
pub proof fn lemma_wave_output_level(w: WaveState)
    requires
        w.wf(),
    ensures
        ({
            let (s, out) = w.spec_make_sample();
            let n: int = if s.sample_index % 2 == 0 { s.sample_buffer as int / 16 } else { s.sample_buffer as int % 16 };
            let level: int = (w.nr32 as int / 32) % 4;
            &&& (!w.length_counter.channel_on || !w.dac_on) ==> out == 0
            &&& (w.length_counter.channel_on && w.dac_on) ==> out == (if level == 0 {
                0
            } else if level == 1 {
                n
            } else if level == 2 {
                n / 2
            } else {
                n / 4
            })
        }),
{
    let (s, out) = w.spec_make_sample();
    crate::bits::lemma_u8_nibbles(s.sample_buffer);
    let x: u8 = nibble_of(s.sample_buffer, s.sample_index);
    let nr: u8 = w.nr32;
    assert(x <= 15);
    assert(x <= 15u8 ==> ((nr & 0x60u8) >> 5u8 == (nr / 32u8) % 4u8 && x >> 4u8 == 0u8 && x >> 0u8 == x
        && x >> 1u8 == x / 2u8 && x >> 2u8 == x / 4u8)) by (bit_vector);
}

} // verus!
