use vstd::prelude::*;
use vstd::arithmetic::power2::pow2;
use crate::apu::envelope::Envelope;
use crate::apu::length_counter::LengthCounter;

verus! {

pub const LENGTH_TICKS: u32 = 64;

/// The divisor selected by the 3-bit divisor code of NR43.
pub open spec fn noise_divisor(code: u8) -> u32 {
    if code == 0 { 8 } else { (16 * code) as u32 }
}

/// The linear-feedback shift register that generates the noise.
#[derive(Clone, Copy)]
pub struct Lfsr {
    pub shift_register: u16,
    pub width: bool,
    pub shift_period: u32,
    pub divisor_code: u8,
    pub shift_amount: u8,
}

/// The register after one shift: bits 0 and 1 are xored into bit 14 (and
/// also into bit 6 in 7-bit mode) while the register shifts right.
pub open spec fn lfsr_shifted(reg: u16, width: bool) -> u16 {
    let xor_bit = (reg & 0b01) ^ ((reg & 0b10) >> 1);
    let r = (reg >> 1) | (xor_bit << 14);
    if width { (r & !(1u16 << 6)) | (xor_bit << 6) } else { r }
}

impl Lfsr {
    pub open spec fn wf(self) -> bool {
        self.divisor_code <= 7 && self.shift_amount <= 15
    }

    /// The register after `next_sample()`, with the bit it returns (the
    /// inverted lowest bit of the shift register).
    pub open spec fn spec_next_sample(self) -> (Lfsr, u8) {
        let l = if self.shift_period == 0 {
            Lfsr {
                shift_period: (noise_divisor(self.divisor_code) * pow2(self.shift_amount as nat)) as u32,
                shift_register: lfsr_shifted(self.shift_register, self.width),
                ..self
            }
        } else {
            Lfsr { shift_period: (self.shift_period - 1) as u32, ..self }
        };
        (l, (!l.shift_register as u8) & 0x01)
    }

    /// A register with all bits set and a zero period.
    pub fn new() -> (r: Self)
        ensures
            r.wf(),
            r == (Lfsr { shift_register: 0xFFFF, width: false, shift_period: 0, divisor_code: 0, shift_amount: 0 }),
    {
        Lfsr { shift_register: 0xFFFF, width: false, shift_period: 0, divisor_code: 0, shift_amount: 0 }
    }

    /// Counts the period down; when it has run out, reloads it and shifts.
    /// Returns the noise output bit.
    pub fn next_sample(&mut self) -> (r: u8)
        requires
            old(self).wf(),
        ensures
            final(self).wf(),
            (*final(self), r) == old(self).spec_next_sample(),
            r <= 1,
    {
        if self.shift_period == 0 {
            self.set_shift_period();
            self.do_shift();
        } else {
            self.shift_period = self.shift_period - 1;
        }
        proof {
            crate::bits::lemma_duty_bit(!self.shift_register as u8, 0);
        }
        (!self.shift_register as u8) & 0x01
    }

    fn do_shift(&mut self)
        ensures
            *final(self) == (Lfsr { shift_register: lfsr_shifted(old(self).shift_register, old(self).width), ..*old(self) }),
    {
        let xor_bit = (self.shift_register & 0b01) ^ ((self.shift_register & 0b10) >> 1);
        self.shift_register = (self.shift_register >> 1) | (xor_bit << 14);
        if self.width {
            self.shift_register = self.shift_register & !(1u16 << 6);
            self.shift_register = self.shift_register | (xor_bit << 6);
        }
    }

    fn set_shift_period(&mut self)
        requires
            old(self).wf(),
        ensures
            *final(self) == (Lfsr {
                shift_period: (noise_divisor(old(self).divisor_code) * pow2(old(self).shift_amount as nat)) as u32,
                ..*old(self)
            }),
    {
        let divisor: u32 = match self.divisor_code {
            0 => 8,
            1 => 16,
            2 => 32,
            3 => 48,
            4 => 64,
            5 => 80,
            6 => 96,
            _ => 112,
        };
        proof {
            crate::bits::lemma_shl_is_mul_pow2(divisor, self.shift_amount as u32);
        }
        self.shift_period = divisor << self.shift_amount;
    }
}

/// The noise channel.
pub struct Noise {
    pub nr41: u8,
    pub nr42: u8,
    pub nr43: u8,
    pub nr44: u8,
    pub length_counter: LengthCounter,
    pub lfsr: Lfsr,
    pub envelope: Envelope,
    pub dac_on: bool,
    pub power_on: bool,
}

impl Noise {
    pub open spec fn wf(self) -> bool {
        &&& self.length_counter.wf()
        &&& self.length_counter.max_ticks == LENGTH_TICKS
        &&& self.envelope.wf()
        &&& self.lfsr.wf()
    }

    pub open spec fn spec_initial() -> Noise {
        Noise {
            nr41: 0,
            nr42: 0,
            nr43: 0,
            nr44: 0xBF,
            length_counter: LengthCounter {
                fs_ticks: 1,
                channel_on: false,
                enabled: false,
                ticks: LENGTH_TICKS,
                max_ticks: LENGTH_TICKS,
            },
            lfsr: Lfsr { shift_register: 0xFFFF, width: false, shift_period: 0, divisor_code: 0, shift_amount: 0 },
            envelope: Envelope {
                fs_ticks: 0,
                cur_volume: 0,
                sweep_pace: 0,
                initial_volume: 0,
                envelope_up: false,
                sweep_ticks: 0,
            },
            dac_on: false,
            power_on: false,
        }
    }

    pub open spec fn spec_make_sample(self) -> (Noise, u8) {
        if !self.length_counter.channel_on || !self.dac_on {
            (self, 0)
        } else {
            let r = self.lfsr.spec_next_sample();
            (Noise { lfsr: r.0, ..self }, (r.1 * self.envelope.cur_volume) as u8)
        }
    }

    pub open spec fn spec_frame_sequencer_step(self) -> Noise {
        Noise {
            length_counter: self.length_counter.spec_tick(),
            envelope: self.envelope.spec_step(),
            ..self
        }
    }

    pub open spec fn spec_read(self, addr: usize) -> u8 {
        if addr == 0xFF20 {
            self.nr41 | 0xFF
        } else if addr == 0xFF21 {
            self.nr42
        } else if addr == 0xFF22 {
            self.nr43
        } else {
            self.nr44 | 0xBF
        }
    }

    pub open spec fn spec_write(self, addr: usize, byte: u8) -> Noise {
        if addr == 0xFF20 {
            Noise {
                nr41: if self.power_on { byte } else { self.nr41 },
                length_counter: self.length_counter.spec_set_ticks(byte),
                ..self
            }
        } else if addr == 0xFF21 {
            let dac = byte & 0xF8 != 0;
            Noise {
                nr42: byte,
                envelope: self.envelope.spec_set(byte),
                dac_on: dac,
                length_counter: if dac { self.length_counter } else {
                    LengthCounter { channel_on: false, ..self.length_counter }
                },
                ..self
            }
        } else if addr == 0xFF22 {
            Noise {
                nr43: byte,
                lfsr: Lfsr {
                    divisor_code: byte & 7,
                    width: byte & 8 != 0,
                    shift_amount: (byte & 0xF0) >> 4,
                    ..self.lfsr
                },
                ..self
            }
        } else {
            let enable = byte & 0x40 != 0;
            let lc1 = LengthCounter { enabled: enable, ..self.length_counter.spec_extra_clocking(enable) };
            let n1 = Noise { nr44: byte, length_counter: lc1, ..self };
            if byte & 0x80 != 0 {
                Noise {
                    length_counter: lc1.spec_on_trigger(),
                    envelope: self.envelope.spec_on_trigger(),
                    lfsr: Lfsr { shift_register: 0xFFFF, ..self.lfsr },
                    ..n1
                }
            } else {
                n1
            }
        }
    }

    pub open spec fn spec_power_off(self) -> Noise {
        Noise { nr44: 0, ..Noise::spec_initial() }
    }

    /// A silent, powered-off noise channel.
    pub fn new() -> (r: Self)
        ensures
            r.wf(),
            r == Noise::spec_initial(),
    {
        Noise {
            nr41: 0,
            nr42: 0,
            nr43: 0,
            nr44: 0xBF,
            length_counter: LengthCounter::new(LENGTH_TICKS),
            lfsr: Lfsr::new(),
            envelope: Envelope::new(),
            dac_on: false,
            power_on: false,
        }
    }

    /// Clears every register, as when the APU is switched off.
    pub fn power_off(&mut self)
        ensures
            final(self).wf(),
            *final(self) == old(self).spec_power_off(),
    {
        self.power_on = false;
        self.nr41 = 0;
        self.nr42 = 0;
        self.nr43 = 0;
        self.nr44 = 0;
        self.length_counter = LengthCounter::new(LENGTH_TICKS);
        self.lfsr = Lfsr::new();
        self.envelope = Envelope::new();
        self.dac_on = false;
    }

    /// Marks the channel as powered.
    pub fn power_on(&mut self)
        ensures
            *final(self) == (Noise { power_on: true, ..*old(self) }),
    {
        self.power_on = true;
    }

    /// Advances the shift register and returns the digital sample (output
    /// bit times volume).
    pub fn make_sample(&mut self) -> (r: u8)
        requires
            old(self).wf(),
        ensures
            final(self).wf(),
            (*final(self), r) == old(self).spec_make_sample(),
            r <= 15,
    {
        if !self.length_counter.channel_on() || !self.dac_on {
            return 0;
        }
        let sample = self.lfsr.next_sample();
        let volume = self.envelope.volume();
        assert(sample * volume <= 15) by (nonlinear_arith)
            requires
                sample <= 1,
                volume <= 15,
        ;
        sample * volume
    }

    /// Clocks the length counter and the envelope.
    pub fn frame_sequencer_step(&mut self)
        requires
            old(self).wf(),
        ensures
            final(self).wf(),
            *final(self) == old(self).spec_frame_sequencer_step(),
    {
        self.length_counter.tick();
        self.envelope.step();
    }

    /// Whether the channel is on.
    pub fn channel_on(&self) -> (r: bool)
        ensures
            r == self.length_counter.channel_on,
    {
        self.length_counter.channel_on()
    }

    /// Whether the DAC is on.
    pub fn dac_on(&self) -> (r: bool)
        ensures
            r == self.dac_on,
    {
        self.dac_on
    }

    /// Reads NR41..NR44.
    pub fn read(&self, addr: usize) -> (r: u8)
        requires
            0xFF20 <= addr <= 0xFF23,
        ensures
            r == self.spec_read(addr),
    {
        match addr {
            0xFF20 => self.nr41 | 0xFF,
            0xFF21 => self.nr42,
            0xFF22 => self.nr43,
            _ => self.nr44 | 0xBF,
        }
    }

    /// Writes NR41..NR44.
    pub fn write(&mut self, addr: usize, byte: u8)
        requires
            old(self).wf(),
            0xFF20 <= addr <= 0xFF23,
        ensures
            final(self).wf(),
            *final(self) == old(self).spec_write(addr, byte),
    {
        match addr {
            0xFF20 => self.write_nr41(byte),
            0xFF21 => self.write_nr42(byte),
            0xFF22 => self.write_nr43(byte),
            _ => self.write_nr44(byte),
        }
    }

    fn write_nr41(&mut self, byte: u8)
        requires
            old(self).wf(),
        ensures
            final(self).wf(),
            *final(self) == old(self).spec_write(0xFF20, byte),
    {
        if self.power_on {
            self.nr41 = byte;
        }
        self.length_counter.set_ticks(byte);
    }

    fn write_nr42(&mut self, byte: u8)
        requires
            old(self).wf(),
        ensures
            final(self).wf(),
            *final(self) == old(self).spec_write(0xFF21, byte),
    {
        self.nr42 = byte;
        self.envelope.set(byte);
        self.dac_on = byte & 0xF8 != 0;
        if !self.dac_on {
            self.length_counter.turn_off_channel();
        }
    }

    fn write_nr43(&mut self, byte: u8)
        requires
            old(self).wf(),
        ensures
            final(self).wf(),
            *final(self) == old(self).spec_write(0xFF22, byte),
    {
        proof {
            crate::bits::lemma_u8_nibbles(byte);
        }
        self.nr43 = byte;
        self.lfsr.divisor_code = byte & 7;
        self.lfsr.width = byte & 8 != 0;
        self.lfsr.shift_amount = (byte & 0xF0) >> 4;
    }

    fn write_nr44(&mut self, byte: u8)
        requires
            old(self).wf(),
        ensures
            final(self).wf(),
            *final(self) == old(self).spec_write(0xFF23, byte),
    {
        self.nr44 = byte;
        let new_length_enabled = byte & 0x40 != 0;
        self.length_counter.extra_clocking(new_length_enabled);
        self.length_counter.set_tick_enable(new_length_enabled);
        if byte & 0x80 != 0 {
            self.length_counter.on_trigger();
            self.envelope.on_trigger();
            self.lfsr.shift_register = 0xFFFF;
        }
    }
}

} // verus!
