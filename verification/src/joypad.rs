use vstd::prelude::*;

verus! {

/// The joypad register (P1/JOYP) and its interrupt line.
pub struct Joypad {
    pub joypad: u8,
    pub interrupt: bool,
}

/// The lower nibble that the buttons drive, given the selection bits of the
/// register and the button status (START, SELECT, B, A, DOWN, UP, LEFT, RIGHT
/// from msb to lsb; a 0 bit means pressed).
pub open spec fn joypad_lower_nibble(joypad: u8, status: u8) -> u8 {
    let buttons = joypad & 0x20 == 0;
    let dpad = joypad & 0x10 == 0;
    if buttons && dpad {
        (status >> 4) & status & 0xF
    } else if buttons {
        status >> 4
    } else if dpad {
        status & 0xF
    } else {
        0xF
    }
}

impl Joypad {
    /// The joypad state after `write_joypad(byte)`.
    pub open spec fn spec_write(self, byte: u8) -> Joypad {
        Joypad { joypad: (byte & 0x30) | (self.joypad & 0xCF), interrupt: self.interrupt }
    }

    /// The joypad state after `update(status)`.
    pub open spec fn spec_update(self, status: u8) -> Joypad {
        let lower = joypad_lower_nibble(self.joypad, status);
        Joypad {
            joypad: (self.joypad & 0xF0) | lower,
            interrupt: (self.joypad & 0x0F) & !lower != 0,
        }
    }

    /// A joypad with no selection and no button pressed.
    pub fn new() -> (r: Self)
        ensures
            r.joypad == 0xFF,
            !r.interrupt,
    {
        Joypad { joypad: 0xFF, interrupt: false }
    }

    /// Reads the joypad register.
    pub fn read_joypad(&self) -> (r: u8)
        ensures
            r == self.joypad,
    {
        self.joypad
    }

    /// Writes the joypad register; only bits 4 and 5 (the selection) are writable.
    pub fn write_joypad(&mut self, byte: u8)
        ensures
            *final(self) == old(self).spec_write(byte),
    {
        let joypad = self.joypad & 0xCF;
        self.joypad = (byte & 0x30) | joypad;
    }

    /// Updates the register from the button status, raising the interrupt
    /// line when a selected input goes from released to pressed.
    pub fn update(&mut self, status: u8)
        ensures
            *final(self) == old(self).spec_update(status),
    {
        self.interrupt = false;
        let upper_nibble = self.joypad & 0xF0;
        let lower_nibble = if self.select_buttons() && self.select_dpad() {
            (status >> 4) & status & 0xF
        } else {
            if self.select_buttons() {
                status >> 4
            } else if self.select_dpad() {
                status & 0xF
            } else {
                0xF
            }
        };
        if (self.joypad & 0x0F) & !lower_nibble != 0 {
            self.interrupt = true;
        }
        self.joypad = upper_nibble | lower_nibble;
    }

    fn select_buttons(&self) -> (r: bool)
        ensures
            r == (self.joypad & 0x20 == 0),
    {
        self.joypad & 0x20 == 0
    }

    fn select_dpad(&self) -> (r: bool)
        ensures
            r == (self.joypad & 0x10 == 0),
    {
        self.joypad & 0x10 == 0
    }

    /// Whether the last update raised the joypad interrupt.
    pub fn interrupt_triggered(&self) -> (r: bool)
        ensures
            r == self.interrupt,
    {
        self.interrupt
    }
}

/// Writing the register never changes its lower nibble (the button lines are
/// read-only) and makes bits 4 and 5 read back as written.
pub proof fn lemma_write_joypad_keeps_buttons(j: Joypad, byte: u8)
    ensures
        j.spec_write(byte).joypad & 0x0F == j.joypad & 0x0F,
        j.spec_write(byte).joypad & 0x30 == byte & 0x30,
{
    lemma_select_merge(j.joypad, byte);
}

proof fn lemma_select_merge(x: u8, byte: u8)
    by (bit_vector)
    ensures
        ((byte & 0x30) | (x & 0xCF)) & 0x0F == x & 0x0F,
        ((byte & 0x30) | (x & 0xCF)) & 0x30 == byte & 0x30,
{
}

proof fn lemma_nibble_merge(x: u8, l: u8, status: u8)
    by (bit_vector)
    requires
        l <= 0xF,
    ensures
        ((x & 0xF0) | l) & 0xF0 == x & 0xF0,
        ((x & 0xF0) | l) & 0x0F == l,
        ((status >> 4) & status & 0xF) <= 0xF,
        (status >> 4) <= 0xF,
        status & 0xF <= 0xF,
        x & 0x30 == 0x30 ==> x & 0x20 != 0 && x & 0x10 != 0,
{
}

/// An update never changes the upper nibble, and with no input line selected
/// the lower nibble reads as all released.
pub proof fn lemma_update_keeps_selection(j: Joypad, status: u8)
    ensures
        j.spec_update(status).joypad & 0xF0 == j.joypad & 0xF0,
        (j.joypad & 0x30 == 0x30) ==> j.spec_update(status).joypad & 0x0F == 0x0F,
{
    lemma_nibble_merge(j.joypad, 0, status);
    let lower = joypad_lower_nibble(j.joypad, status);
    lemma_nibble_merge(j.joypad, lower, status);
}

} // verus!
