use vstd::prelude::*;

verus! {

/// The frequency sweep unit of pulse channel 1.
#[derive(Clone, Copy)]
pub struct Sweep {
    pub fs_ticks: u8,
    pub cur_freq_period: u32,
    pub shadow_freq_period: u32,
    pub sweep_period: u32,
    pub sweep_down: bool,
    pub shift: u32,
    pub enabled: bool,
    pub sweep_timer: u32,
    pub sweep_down_calc: bool,
}

/// The next period computed from a shadow period: shifted right and
/// subtracted (sweeping down) or added (sweeping up).
pub open spec fn sweep_next(shadow: u32, shift: u32, down: bool) -> int {
    if down {
        shadow - (shadow >> shift)
    } else {
        shadow + (shadow >> shift)
    }
}

impl Sweep {
    /// Periods are 11-bit values, the pace and shift 3-bit values, and the
    /// timer never exceeds 8.
    pub open spec fn wf(self) -> bool {
        &&& self.cur_freq_period <= 0x7FF
        &&& self.shadow_freq_period <= 0x7FF
        &&& self.sweep_period <= 8
        &&& self.shift <= 7
        &&& self.sweep_timer <= 8
    }

    /// The timer reload value: the pace, or 8 when the pace is 0.
    pub open spec fn reload(self) -> u32 {
        if self.sweep_period > 0 { self.sweep_period } else { 8 }
    }

    /// `Some(period)` for the next period, or `None` when it overflows 11 bits.
    pub open spec fn spec_next_period(self) -> Option<u32> {
        let n = sweep_next(self.shadow_freq_period, self.shift, self.sweep_down);
        if n > 0x7FF { None } else { Some(n as u32) }
    }

    /// The sweep state after computing the next period (which marks a
    /// downward calculation).
    pub open spec fn after_calc(self) -> Sweep {
        if self.sweep_down { Sweep { sweep_down_calc: true, ..self } } else { self }
    }

    /// The sweep, NR13 and NR14 after `step`, with what it returns (false
    /// when the channel is disabled by an overflow).
    pub open spec fn spec_step(self, nr13: u8, nr14: u8) -> (Sweep, u8, u8, bool) {
        let fs = ((self.fs_ticks + 1) % 256) as u8;
        let s1 = Sweep { fs_ticks: fs, ..self };
        if fs % 4 != 0 {
            (s1, nr13, nr14, true)
        } else {
            let t = if s1.sweep_timer > 0 { (s1.sweep_timer - 1) as u32 } else { s1.sweep_timer };
            let s2 = Sweep { sweep_timer: t, ..s1 };
            if t != 0 {
                (s2, nr13, nr14, true)
            } else {
                let s3 = Sweep { sweep_timer: s2.reload(), ..s2 };
                if !(s3.enabled && s3.sweep_period > 0) {
                    (s3, nr13, nr14, true)
                } else {
                    let s4 = s3.after_calc();
                    match s3.spec_next_period() {
                        None => (s4, nr13, nr14, false),
                        Some(p) => {
                            if s4.shift > 0 {
                                let s5 = Sweep { shadow_freq_period: p, cur_freq_period: p, ..s4 };
                                (
                                    s5.after_calc(),
                                    (p & 0xFF) as u8,
                                    ((nr14 & 0xF8) | ((p & 0x700) >> 8) as u8) as u8,
                                    s5.spec_next_period().is_some(),
                                )
                            } else {
                                (s4, nr13, nr14, true)
                            }
                        },
                    }
                }
            }
        }
    }

    /// The sweep after `on_trigger`, with what it returns.
    pub open spec fn spec_on_trigger(self) -> (Sweep, bool) {
        let s1 = Sweep {
            sweep_timer: self.reload(),
            sweep_down_calc: false,
            shadow_freq_period: self.cur_freq_period,
            enabled: self.sweep_period > 0 || self.shift > 0,
            ..self
        };
        if s1.shift > 0 {
            (s1.after_calc(), s1.spec_next_period().is_some())
        } else {
            (s1, true)
        }
    }

    /// The sweep after `set(byte)` (an NR10 write), with what it returns.
    pub open spec fn spec_set(self, byte: u8) -> (Sweep, bool) {
        let down = byte & 0x08 != 0;
        let s1 = Sweep {
            shift: (byte & 0x07) as u32,
            sweep_down: down,
            sweep_period: ((byte & 0x70) >> 4) as u32,
            ..self
        };
        if self.sweep_down && !down && self.sweep_down_calc {
            (s1, false)
        } else if !self.sweep_down && down {
            (Sweep { sweep_down_calc: false, ..s1 }, true)
        } else {
            (s1, true)
        }
    }

    /// A fresh sweep unit.
    pub fn new() -> (r: Self)
        ensures
            r.wf(),
            r == (Sweep {
                fs_ticks: 1,
                cur_freq_period: 0,
                shadow_freq_period: 0,
                sweep_period: 8,
                sweep_down: true,
                shift: 0,
                enabled: false,
                sweep_timer: 0,
                sweep_down_calc: false,
            }),
    {
        // The pace field is 3 bits wide; a fresh unit holds the timer reload
        // value 8 until the first NR10 write.
        Sweep {
            fs_ticks: 1,
            cur_freq_period: 0,
            shadow_freq_period: 0,
            sweep_period: 8,
            sweep_down: true,
            shift: 0,
            enabled: false,
            sweep_timer: 0,
            sweep_down_calc: false,
        }
    }

    /// Runs one frame sequencer step; every 4th step clocks the sweep timer
    /// and, when it expires, applies the sweep to NR13/NR14. Returns false if
    /// the iteration disables the channel.
    pub fn step(&mut self, nr13: &mut u8, nr14: &mut u8) -> (r: bool)
        requires
            old(self).wf(),
        ensures
            final(self).wf(),
            (*final(self), *final(nr13), *final(nr14), r) == old(self).spec_step(*old(nr13), *old(nr14)),
    {
        self.fs_ticks = self.fs_ticks.wrapping_add(1);
        if self.fs_ticks % 4 == 0 {
            if self.sweep_timer > 0 {
                self.sweep_timer = self.sweep_timer - 1;
            }
            if self.sweep_timer == 0 {
                self.sweep_timer = if self.sweep_period > 0 {
                    self.sweep_period
                } else {
                    8
                };
                if self.enabled && self.sweep_period > 0 {
                    let next_freq_period = match self.next_freq_period() {
                        Some(next_freq_period) => next_freq_period,
                        None => return false,
                    };
                    if self.shift > 0 {
                        self.shadow_freq_period = next_freq_period;
                        self.cur_freq_period = next_freq_period;
                        proof {
                            crate::bits::lemma_u32_low_bytes(next_freq_period);
                        }
                        *nr13 = (next_freq_period & 0xFF) as u8;
                        *nr14 = (*nr14 & 0xF8) | ((next_freq_period & 0x700) >> 8) as u8;
                        return self.next_freq_period().is_some();
                    }
                }
            }
        }
        true
    }

    /// Restarts the sweep on a channel trigger. Returns false if the
    /// immediate overflow check disables the channel.
    pub fn on_trigger(&mut self) -> (r: bool)
        requires
            old(self).wf(),
        ensures
            final(self).wf(),
            (*final(self), r) == old(self).spec_on_trigger(),
    {
        self.sweep_timer = if self.sweep_period > 0 {
            self.sweep_period
        } else {
            8
        };
        self.sweep_down_calc = false;
        self.shadow_freq_period = self.cur_freq_period;
        self.enabled = self.sweep_period > 0 || self.shift > 0;
        if self.shift > 0 {
            self.next_freq_period().is_some()
        } else {
            true
        }
    }

    /// Returns the next period, or None if it overflows.
    fn next_freq_period(&mut self) -> (r: Option<u32>)
        requires
            old(self).wf(),
        ensures
            final(self).wf(),
            *final(self) == old(self).after_calc(),
            r == old(self).spec_next_period(),
            r matches Some(p) ==> p <= 0x7FF,
    {
        proof {
            crate::bits::lemma_u32_shr_le(self.shadow_freq_period, self.shift);
        }
        let next_period = if self.sweep_down {
            self.sweep_down_calc = true;
            self.shadow_freq_period - (self.shadow_freq_period >> self.shift)
        } else {
            self.shadow_freq_period + (self.shadow_freq_period >> self.shift)
        };
        if next_period > 0x7FF {
            None
        } else {
            Some(next_period)
        }
    }

    /// Sets shift, direction and pace from an NR10 byte; returns false if
    /// the channel is disabled, which happens when the direction goes from
    /// down to up after a downward calculation since the last trigger.
    pub fn set(&mut self, byte: u8) -> (r: bool)
        requires
            old(self).wf(),
        ensures
            final(self).wf(),
            (*final(self), r) == old(self).spec_set(byte),
    {
        proof {
            crate::bits::lemma_u8_nibbles(byte);
        }
        let old_sweep_down = self.sweep_down;
        self.shift = byte as u32 & 0x07;
        self.sweep_down = byte & 0x08 != 0;
        self.sweep_period = (byte as u32 & 0x70) >> 4;
        if old_sweep_down && !self.sweep_down && self.sweep_down_calc {
            return false;
        }
        if !old_sweep_down && self.sweep_down {
            self.sweep_down_calc = false;
        }
        true
    }

    /// Records the channel's current period (on every NR13/NR14 write).
    pub fn set_period(&mut self, period: u32)
        requires
            old(self).wf(),
            period <= 0x7FF,
        ensures
            final(self).wf(),
            *final(self) == (Sweep { cur_freq_period: period, ..*old(self) }),
    {
        self.cur_freq_period = period;
    }
}


/// The sweep calculation: the next period is the shadow period plus (or,
/// sweeping down, minus) the shadow period divided by 2 to the power of the
/// shift; a result above 0x7FF is an overflow, which gives no period.
pub proof fn lemma_sweep_calculation(sw: Sweep)
    requires
        sw.wf(),
    ensures
        ({
            let d: int = sw.shadow_freq_period as int / vstd::arithmetic::power2::pow2(sw.shift as nat) as int;
            let n: int = if sw.sweep_down { sw.shadow_freq_period - d } else { sw.shadow_freq_period + d };
            sw.spec_next_period() == (if n > 0x7FF { None } else { Some(n as u32) })
        }),
{
    vstd::bits::lemma_u32_shr_is_div(sw.shadow_freq_period, sw.shift);
}

} // verus!
