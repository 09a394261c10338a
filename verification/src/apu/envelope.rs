use vstd::prelude::*;

verus! {

/// The volume envelope of a pulse or noise channel.
#[derive(Clone, Copy)]
pub struct Envelope {
    pub fs_ticks: u8,
    pub cur_volume: u8,
    pub sweep_pace: u8,
    pub initial_volume: u8,
    pub envelope_up: bool,
    pub sweep_ticks: u8,
}

impl Envelope {
    /// Volumes are 4-bit values and the pace is a 3-bit value.
    pub open spec fn wf(self) -> bool {
        self.cur_volume <= 15 && self.initial_volume <= 15 && self.sweep_pace <= 7
    }

    /// The volume after one envelope iteration: one step up or down, held
    /// within 0..=15.
    pub open spec fn next_volume(self) -> u8 {
        if self.envelope_up {
            if self.cur_volume < 15 { (self.cur_volume + 1) as u8 } else { self.cur_volume }
        } else {
            if self.cur_volume > 0 { (self.cur_volume - 1) as u8 } else { self.cur_volume }
        }
    }

    /// The envelope after `step()`.
    pub open spec fn spec_step(self) -> Envelope {
        let fs = ((self.fs_ticks + 1) % 256) as u8;
        let ticked = Envelope { fs_ticks: fs, ..self };
        if fs % 8 != 0 || self.sweep_pace == 0 {
            ticked
        } else {
            let st = ((self.sweep_ticks + 1) % 256) as u8;
            if st == self.sweep_pace {
                Envelope { sweep_ticks: 0, cur_volume: self.next_volume(), ..ticked }
            } else {
                Envelope { sweep_ticks: st, ..ticked }
            }
        }
    }

    /// The envelope after `set(byte)` (a write to NRx2).
    pub open spec fn spec_set(self, byte: u8) -> Envelope {
        Envelope {
            initial_volume: (byte & 0xF0) >> 4,
            envelope_up: byte & 8 != 0,
            sweep_pace: byte & 7,
            ..self
        }
    }

    /// The envelope after `on_trigger()`.
    pub open spec fn spec_on_trigger(self) -> Envelope {
        Envelope { sweep_ticks: 0, cur_volume: self.initial_volume, ..self }
    }

    /// A silent envelope.
    pub fn new() -> (r: Self)
        ensures
            r.wf(),
            r == (Envelope {
                fs_ticks: 0,
                cur_volume: 0,
                sweep_pace: 0,
                initial_volume: 0,
                envelope_up: false,
                sweep_ticks: 0,
            }),
    {
        Envelope {
            fs_ticks: 0,
            cur_volume: 0,
            sweep_ticks: 0,
            sweep_pace: 0,
            initial_volume: 0,
            envelope_up: false,
        }
    }

    /// Ticks the envelope on a frame sequencer step; every 8th tick counts
    /// towards the pace, and reaching the pace moves the volume one step.
    pub fn step(&mut self)
        requires
            old(self).wf(),
        ensures
            final(self).wf(),
            *final(self) == old(self).spec_step(),
    {
        self.fs_ticks = self.fs_ticks.wrapping_add(1);
        if self.fs_ticks % 8 == 0 {
            if self.sweep_pace == 0 {
                return;
            }
            self.sweep_ticks = self.sweep_ticks.wrapping_add(1);
            if self.sweep_ticks == self.sweep_pace {
                self.sweep_ticks = 0;
                if self.envelope_up {
                    if self.cur_volume < 15 {
                        self.cur_volume = self.cur_volume + 1;
                    }
                } else {
                    if self.cur_volume > 0 {
                        self.cur_volume = self.cur_volume - 1;
                    }
                }
            }
        }
    }

    /// Restarts the envelope at its initial volume.
    pub fn on_trigger(&mut self)
        requires
            old(self).wf(),
        ensures
            final(self).wf(),
            *final(self) == old(self).spec_on_trigger(),
    {
        self.sweep_ticks = 0;
        self.cur_volume = self.initial_volume;
    }

    /// Sets initial volume, direction and pace from an NRx2 byte.
    pub fn set(&mut self, byte: u8)
        requires
            old(self).wf(),
        ensures
            final(self).wf(),
            *final(self) == old(self).spec_set(byte),
    {
        proof {
            crate::bits::lemma_u8_nibbles(byte);
        }
        self.initial_volume = (byte & 0xF0) >> 4;
        self.envelope_up = byte & 8 != 0;
        self.sweep_pace = byte & 7;
    }

    /// The current volume.
    pub fn volume(&self) -> (r: u8)
        ensures
            r == self.cur_volume,
    {
        self.cur_volume
    }
}

/// The volume never leaves 0..=15, whatever the envelope does.
pub proof fn lemma_envelope_volume_bounded(e: Envelope, byte: u8)
    requires
        e.wf(),
    ensures
        e.spec_step().wf(),
        e.spec_set(byte).wf(),
        e.spec_on_trigger().wf(),
{
    crate::bits::lemma_u8_nibbles(byte);
}


/// One frame-sequencer step of the envelope: the tick count advances by one
/// (mod 256); on every eighth tick, with a non-zero pace, the pace counter
/// advances, and when it reaches the pace it restarts and the volume moves
/// one step up or down, never above 15 nor below 0; at any other step the
/// volume stays. A trigger restarts the volume at the initial volume.
pub proof fn lemma_envelope_step(e: Envelope)
    requires
        e.wf(),
    ensures
        ({
            let n = e.spec_step();
            let fires = (e.fs_ticks + 1) % 8 == 0 && e.sweep_pace != 0 && e.sweep_ticks + 1 == e.sweep_pace;
            let up: int = if e.cur_volume == 15 { 15 } else { e.cur_volume + 1 };
            let down: int = if e.cur_volume == 0 { 0 } else { e.cur_volume - 1 };
            &&& n.fs_ticks == (e.fs_ticks + 1) % 256
            &&& fires ==> n.sweep_ticks == 0 && n.cur_volume == (if e.envelope_up { up } else { down })
            &&& !fires ==> n.cur_volume == e.cur_volume
            &&& n.initial_volume == e.initial_volume && n.sweep_pace == e.sweep_pace
            &&& n.envelope_up == e.envelope_up
        }),
        e.spec_on_trigger().cur_volume == e.initial_volume,
        e.spec_on_trigger().sweep_ticks == 0,
{
    let fs: int = (e.fs_ticks + 1) % 256;
    assert(fs % 8 == (e.fs_ticks + 1) % 8);
}

} // verus!
