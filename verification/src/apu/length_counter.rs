use vstd::prelude::*;

verus! {

/// The length timer of a channel: when enabled, it counts down on every other
/// frame sequencer step and turns the channel off when it reaches zero.
#[derive(Clone, Copy)]
pub struct LengthCounter {
    pub fs_ticks: u8,
    pub channel_on: bool,
    pub enabled: bool,
    pub ticks: u32,
    pub max_ticks: u32,
}

/// The tick count loaded by an NRx1 write: the maximum minus the written
/// length field.
pub open spec fn ticks_from_byte(max_ticks: u32, byte: u8) -> u32 {
    (max_ticks - (byte as u32 & (max_ticks - 1) as u32)) as u32
}

impl LengthCounter {
    /// The maximum is 64 or 256 ticks, and the count never exceeds it.
    pub open spec fn wf(self) -> bool {
        (self.max_ticks == 64 || self.max_ticks == 256) && self.ticks <= self.max_ticks
    }

    pub open spec fn spec_tick(self) -> LengthCounter {
        let fs = ((self.fs_ticks + 1) % 256) as u8;
        if fs % 2 == 0 && self.enabled && self.ticks > 0 {
            let t = (self.ticks - 1) as u32;
            LengthCounter {
                fs_ticks: fs,
                ticks: t,
                channel_on: if t == 0 { false } else { self.channel_on },
                ..self
            }
        } else {
            LengthCounter { fs_ticks: fs, ..self }
        }
    }

    pub open spec fn spec_set_ticks(self, byte: u8) -> LengthCounter {
        LengthCounter { ticks: ticks_from_byte(self.max_ticks, byte), ..self }
    }

    pub open spec fn spec_on_trigger(self) -> LengthCounter {
        let reload = if self.fs_ticks % 2 == 0 && self.enabled {
            (self.max_ticks - 1) as u32
        } else {
            self.max_ticks
        };
        LengthCounter {
            channel_on: true,
            ticks: if self.ticks == 0 { reload } else { self.ticks },
            ..self
        }
    }

    pub open spec fn spec_extra_clocking(self, new_enabled: bool) -> LengthCounter {
        if self.ticks > 0 && self.fs_ticks % 2 == 0 && !self.enabled && new_enabled {
            let t = (self.ticks - 1) as u32;
            LengthCounter { ticks: t, channel_on: if t == 0 { false } else { self.channel_on }, ..self }
        } else {
            self
        }
    }

    /// A stopped counter loaded with `max_ticks`.
    pub fn new(max_ticks: u32) -> (r: Self)
        ensures
            r == (LengthCounter {
                fs_ticks: 1,
                channel_on: false,
                enabled: false,
                ticks: max_ticks,
                max_ticks,
            }),
    {
        LengthCounter { fs_ticks: 1, channel_on: false, enabled: false, ticks: max_ticks, max_ticks }
    }

    /// Ticks the counter, turning the channel off when the length expires.
    pub fn tick(&mut self)
        requires
            old(self).wf(),
        ensures
            final(self).wf(),
            *final(self) == old(self).spec_tick(),
    {
        self.fs_ticks = self.fs_ticks.wrapping_add(1);
        if self.fs_ticks % 2 == 0 {
            if self.enabled && self.ticks > 0 {
                self.ticks = self.ticks - 1;
                if self.ticks == 0 {
                    self.channel_on = false;
                }
            }
        }
    }

    /// Loads the count from an NRx1 byte.
    pub fn set_ticks(&mut self, byte: u8)
        requires
            old(self).wf(),
        ensures
            final(self).wf(),
            *final(self) == old(self).spec_set_ticks(byte),
    {
        proof {
            lemma_ticks_from_byte(self.max_ticks, byte);
        }
        self.ticks = self.max_ticks - ((byte as u32) & (self.max_ticks - 1));
    }

    /// Turns the channel on; an expired counter is reloaded, with one tick
    /// less when the next frame sequencer step does not clock it and the
    /// counter is enabled.
    pub fn on_trigger(&mut self)
        requires
            old(self).wf(),
        ensures
            final(self).wf(),
            *final(self) == old(self).spec_on_trigger(),
    {
        self.channel_on = true;
        if self.ticks == 0 {
            self.ticks = self.max_ticks;
            if self.fs_ticks % 2 == 0 && self.enabled {
                self.ticks = self.max_ticks - 1;
            }
        }
    }

    /// When the next frame sequencer step does not clock the counter and the
    /// enable bit goes from 0 to 1, a non-zero counter is decremented; the
    /// channel is disabled if it reaches zero.
    pub fn extra_clocking(&mut self, new_enabled: bool)
        requires
            old(self).wf(),
        ensures
            final(self).wf(),
            *final(self) == old(self).spec_extra_clocking(new_enabled),
    {
        if self.ticks > 0 && self.fs_ticks % 2 == 0 && !self.enabled && new_enabled {
            self.ticks = self.ticks - 1;
            if self.ticks == 0 {
                self.channel_on = false;
            }
        }
    }

    /// Turns the channel off.
    pub fn turn_off_channel(&mut self)
        ensures
            *final(self) == (LengthCounter { channel_on: false, ..*old(self) }),
    {
        self.channel_on = false;
    }

    /// Enables or disables counting.
    pub fn set_tick_enable(&mut self, enable: bool)
        ensures
            *final(self) == (LengthCounter { enabled: enable, ..*old(self) }),
    {
        self.enabled = enable;
    }

    /// Whether the channel is on.
    pub fn channel_on(&self) -> (r: bool)
        ensures
            r == self.channel_on,
    {
        self.channel_on
    }
}

/// The count loaded from a byte lies in 1..=max: a written length never
/// switches the channel off by itself.
pub proof fn lemma_ticks_from_byte(max_ticks: u32, byte: u8)
    requires
        max_ticks == 64 || max_ticks == 256,
    ensures
        (byte as u32 & (max_ticks - 1) as u32) < max_ticks,
        1 <= ticks_from_byte(max_ticks, byte) <= max_ticks,
{
    lemma_and_mask_bound(byte as u32, (max_ticks - 1) as u32);
}

proof fn lemma_and_mask_bound(x: u32, m: u32)
    by (bit_vector)
    ensures
        x & m <= m,
{
}

/// A disabled counter never expires: ticking it only advances the frame
/// sequencer phase.
pub proof fn lemma_disabled_counter_holds(l: LengthCounter)
    requires
        !l.enabled,
    ensures
        l.spec_tick().ticks == l.ticks,
        l.spec_tick().channel_on == l.channel_on,
{
}


/// The length timer counts down once every other frame-sequencer step while
/// enabled: on such a step a non-zero count drops by one, and the channel is
/// switched off exactly when it reaches zero; at any other step the count
/// and the channel stay. An NRx1 write loads the maximum (64 or 256) minus
/// the written length taken modulo the maximum, and a trigger of an expired
/// counter reloads it with the maximum (one less on a counting step).
pub proof fn lemma_length_countdown(l: LengthCounter, byte: u8)
    requires
        l.wf(),
    ensures
        ({
            let n = l.spec_tick();
            let counts = (l.fs_ticks + 1) % 2 == 0 && l.enabled && l.ticks > 0;
            &&& counts ==> n.ticks == l.ticks - 1 && n.channel_on == (l.channel_on && l.ticks != 1)
            &&& !counts ==> n.ticks == l.ticks && n.channel_on == l.channel_on
        }),
        l.spec_set_ticks(byte).ticks == l.max_ticks - (byte as int) % (l.max_ticks as int),
        l.ticks == 0 ==> l.spec_on_trigger().ticks == (if l.fs_ticks % 2 == 0 && l.enabled {
            l.max_ticks - 1
        } else {
            l.max_ticks as int
        }),
        l.spec_on_trigger().channel_on,
{
    let x: u32 = byte as u32;
    assert(x & 63 == x % 64 && x & 255 == x % 256) by (bit_vector);
    let fs: int = (l.fs_ticks + 1) % 256;
    assert(fs % 2 == (l.fs_ticks + 1) % 2);
}

} // verus!
