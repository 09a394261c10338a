use vstd::prelude::*;

verus! {

/// The upper byte of a word.
pub open spec fn hi_byte(w: u16) -> u8 {
    (w / 256) as u8
}

/// The lower byte of a word.
pub open spec fn lo_byte(w: u16) -> u8 {
    (w % 256) as u8
}

/// The word made of an upper and a lower byte.
pub open spec fn word_of(hi: u8, lo: u8) -> u16 {
    (hi * 256 + lo) as u16
}

/// Whether bit `k` of `w` is set.
pub open spec fn word_bit(w: u16, k: u16) -> bool {
    w & (1u16 << k) != 0
}

/// `w` with bit `k` set to `val`.
pub open spec fn with_word_bit(w: u16, k: u16, val: bool) -> u16 {
    if val {
        w | (1u16 << k)
    } else {
        w & !(1u16 << k)
    }
}

pub(crate) proof fn lemma_split_word(w: u16)
    by (bit_vector)
    ensures
        (w & 0xFF00) >> 8 == w / 256,
        (w & 0xFF00) >> 8 < 256,
        w & 0xFF == w % 256,
{
}

pub(crate) proof fn lemma_join_word(hi: u16, lo: u16)
    by (bit_vector)
    requires
        hi < 256,
        lo < 256,
    ensures
        hi << 8 == hi * 256,
        (hi << 8) + lo < 0x10000,
{
}

/// Setting bit `k` to `val` makes bit `k` read back as `val` and leaves
/// every other bit as it was.
pub proof fn lemma_with_word_bit(w: u16, k: u16, j: u16, val: bool)
    by (bit_vector)
    requires
        k < 16,
        j < 16,
    ensures
        word_bit(with_word_bit(w, k, val), k) == val,
        j != k ==> word_bit(with_word_bit(w, k, val), j) == word_bit(w, j),
{
}

/// Bytes split from a word join back to that word, and a joined word splits
/// back into its bytes.
pub proof fn lemma_word_bytes_roundtrip(w: u16, hi: u8, lo: u8)
    ensures
        word_of(hi_byte(w), lo_byte(w)) == w,
        hi_byte(word_of(hi, lo)) == hi,
        lo_byte(word_of(hi, lo)) == lo,
{
}

/// A 16-bit CPU register pair, such as AF or HL.
pub struct Register(pub u16);

impl Register {
    /// The full 16-bit value.
    pub fn full(&self) -> (r: u16)
        ensures
            r == self.0,
    {
        self.0
    }

    /// The upper byte.
    pub fn hi(&self) -> (r: u8)
        ensures
            r == hi_byte(self.0),
    {
        proof {
            lemma_split_word(self.0);
        }
        ((self.0 & 0xFF00) >> 8) as u8
    }

    /// The lower byte.
    pub fn lo(&self) -> (r: u8)
        ensures
            r == lo_byte(self.0),
    {
        proof {
            lemma_split_word(self.0);
        }
        (self.0 & 0xFF) as u8
    }

    /// Whether bit `k` is set.
    pub fn bit(&self, k: usize) -> (r: bool)
        requires
            k < 16,
        ensures
            r == word_bit(self.0, k as u16),
    {
        let k16 = k as u16;
        self.0 & (1u16 << k16) != 0
    }

    /// Replaces the full value.
    pub fn set(&mut self, val: u16)
        ensures
            final(self).0 == val,
    {
        self.0 = val;
    }

    /// Replaces the upper byte, keeping the lower one.
    pub fn set_hi(&mut self, val: u8)
        ensures
            final(self).0 == word_of(val, lo_byte(old(self).0)),
    {
        let lo = self.lo();
        proof {
            lemma_join_word(val as u16, lo as u16);
        }
        self.0 = ((val as u16) << 8) + lo as u16;
    }

    /// Replaces the lower byte, keeping the upper one.
    pub fn set_lo(&mut self, val: u8)
        ensures
            final(self).0 == word_of(hi_byte(old(self).0), val),
    {
        let hi = self.hi();
        proof {
            lemma_join_word(hi as u16, val as u16);
        }
        self.0 = ((hi as u16) << 8) + val as u16;
    }

    /// Sets bit `k` to `val`.
    pub fn set_bit(&mut self, k: usize, val: bool)
        requires
            k < 16,
        ensures
            final(self).0 == with_word_bit(old(self).0, k as u16, val),
    {
        let k16 = k as u16;
        if val {
            self.0 = self.0 | (1u16 << k16);
        } else {
            self.0 = self.0 & !(1u16 << k16);
        }
    }
}

} // verus!
