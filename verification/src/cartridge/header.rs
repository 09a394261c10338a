use vstd::prelude::*;
use crate::text::{decimal_digits, decimal_string};
use crate::cartridge::rtc::be_bytes;
use std::collections::hash_map::DefaultHasher;
use std::hash::Hasher;
use vstd::std_specs::hash::DefaultHasherAdditionalSpecFns;

verus! {

pub const HEADER_SIZE: usize = 0x50;

pub const HEADER_START: usize = 0x100;

pub const LOGO_BYTES: usize = 0x30;

pub const CGB_ENHANCED: u8 = 0x80;

pub const CGB_ONLY: u8 = 0xC0;

/// The header checksum over header bytes 0x34..=0x4C (cartridge addresses
/// 0x134..=0x14C): `x = x - byte - 1` for each byte, modulo 256.
pub open spec fn header_checksum_of(bytes: Seq<u8>, end: int) -> u8
    decreases end - 0x34,
{
    if end <= 0x34 {
        0
    } else {
        let prev = header_checksum_of(bytes, end - 1);
        ((prev - bytes[end - 1] - 1) % 256) as u8
    }
}

/// The checksum of a full header.
pub open spec fn spec_header_checksum(bytes: Seq<u8>) -> u8 {
    header_checksum_of(bytes, 0x4D)
}

/// Whether the header's checksum byte (0x4D) matches its contents.
pub open spec fn header_is_valid(bytes: Seq<u8>) -> bool {
    bytes.len() == HEADER_SIZE && spec_header_checksum(bytes) == bytes[0x4D]
}

/// The last index of the title field: 0x43 holds the CGB flag instead of
/// a title character when it marks a CGB cartridge.
pub open spec fn title_end(bytes: Seq<u8>) -> int {
    if bytes[0x43] == CGB_ENHANCED || bytes[0x43] == CGB_ONLY { 0x42 } else { 0x43 }
}

/// Keeps the bytes that are not NUL.
pub open spec fn not_nul(b: u8) -> bool {
    b != 0
}

/// A UTF-8 continuation byte.
pub open spec fn utf8_cont(b: u8) -> bool {
    0x80 <= b <= 0xBF
}

/// Whether `b[i..]` is well-formed UTF-8 (the byte sequences of table 3-7
/// of the Unicode standard).
pub open spec fn utf8_from(b: Seq<u8>, i: int) -> bool
    decreases b.len() - i,
{
    if i < 0 || i >= b.len() {
        true
    } else {
        let c = b[i];
        if c <= 0x7F {
            utf8_from(b, i + 1)
        } else if 0xC2 <= c <= 0xDF {
            i + 1 < b.len() && utf8_cont(b[i + 1]) && utf8_from(b, i + 2)
        } else if c == 0xE0 {
            i + 2 < b.len() && 0xA0 <= b[i + 1] <= 0xBF && utf8_cont(b[i + 2]) && utf8_from(b, i + 3)
        } else if (0xE1 <= c <= 0xEC) || c == 0xEE || c == 0xEF {
            i + 2 < b.len() && utf8_cont(b[i + 1]) && utf8_cont(b[i + 2]) && utf8_from(b, i + 3)
        } else if c == 0xED {
            i + 2 < b.len() && 0x80 <= b[i + 1] <= 0x9F && utf8_cont(b[i + 2]) && utf8_from(b, i + 3)
        } else if c == 0xF0 {
            i + 3 < b.len() && 0x90 <= b[i + 1] <= 0xBF && utf8_cont(b[i + 2]) && utf8_cont(b[i + 3])
                && utf8_from(b, i + 4)
        } else if 0xF1 <= c <= 0xF3 {
            i + 3 < b.len() && utf8_cont(b[i + 1]) && utf8_cont(b[i + 2]) && utf8_cont(b[i + 3])
                && utf8_from(b, i + 4)
        } else if c == 0xF4 {
            i + 3 < b.len() && 0x80 <= b[i + 1] <= 0x8F && utf8_cont(b[i + 2]) && utf8_cont(b[i + 3])
                && utf8_from(b, i + 4)
        } else {
            false
        }
    }
}

/// Whether `b` is well-formed UTF-8.
pub open spec fn is_utf8(b: Seq<u8>) -> bool {
    utf8_from(b, 0)
}

/// Whether `bytes` is well-formed UTF-8.
pub fn utf8_ok(bytes: &[u8]) -> (r: bool)
    ensures
        r == is_utf8(bytes@),
{
    let n = bytes.len();
    let mut i: usize = 0;
    while i < n
        invariant
            n == bytes@.len(),
            i <= n,
            is_utf8(bytes@) == utf8_from(bytes@, i as int),
        decreases n - i,
    {
        let c = bytes[i];
        if c <= 0x7F {
            i = i + 1;
        } else if 0xC2 <= c && c <= 0xDF {
            if i + 1 < n && 0x80 <= bytes[i + 1] && bytes[i + 1] <= 0xBF {
                i = i + 2;
            } else {
                return false;
            }
        } else if c == 0xE0 || (0xE1 <= c && c <= 0xEC) || c == 0xEE || c == 0xEF || c == 0xED {
            if n - i <= 2 {
                return false;
            }
            let c1 = bytes[i + 1];
            let lo: u8 = if c == 0xE0 { 0xA0 } else { 0x80 };
            let hi: u8 = if c == 0xED { 0x9F } else { 0xBF };
            if lo <= c1 && c1 <= hi && 0x80 <= bytes[i + 2] && bytes[i + 2] <= 0xBF {
                i = i + 3;
            } else {
                return false;
            }
        } else if 0xF0 <= c && c <= 0xF4 {
            if n - i <= 3 {
                return false;
            }
            let c1 = bytes[i + 1];
            let lo: u8 = if c == 0xF0 { 0x90 } else { 0x80 };
            let hi: u8 = if c == 0xF4 { 0x8F } else { 0xBF };
            if lo <= c1 && c1 <= hi && 0x80 <= bytes[i + 2] && bytes[i + 2] <= 0xBF && 0x80 <= bytes[i + 3]
                && bytes[i + 3] <= 0xBF {
                i = i + 4;
            } else {
                return false;
            }
        } else {
            return false;
        }
    }
    true
}

/// The manufacturer code: the non-NUL bytes of 0x3F..0x43 when those four
/// bytes are valid UTF-8, else empty.
pub open spec fn manufacturer_code_of(bytes: Seq<u8>) -> Seq<u8> {
    let code = bytes.subrange(0x3F, 0x43);
    if is_utf8(code) { code.filter(|b: u8| not_nul(b)) } else { Seq::empty() }
}

/// Whether the title field of header bytes is valid UTF-8 (a title that
/// is not cannot be parsed).
pub open spec fn title_valid(bytes: Seq<u8>) -> bool {
    is_utf8(bytes.subrange(0x34, title_end(bytes) + 1))
}

/// The cartridge header (0x0100..=0x014F).
pub struct Header {
    pub nintendo_logo: [u8; LOGO_BYTES],
    /// The manufacturer code's bytes (NUL bytes removed); empty when they
    /// are not valid UTF-8.
    pub manufacturer_code: Vec<u8>,
    pub cgb_flag: u8,
    pub licensee_code: u16,
    pub sgb_flag: u8,
    pub destination_code: u8,
    pub version_number: u8,
    pub header_checksum: u8,
    pub global_checksum: u16,
    /// The title's bytes with NUL bytes removed.
    pub title: Vec<u8>,
    pub cartridge_type: u8,
    pub rom_size: u8,
    pub ram_size: u8,
}

/// The number of 16 KiB ROM banks for a ROM size code.
pub open spec fn rom_banks_of(code: u8) -> usize {
    if code <= 8 { (2 * vstd::arithmetic::power2::pow2(code as nat)) as usize } else { 0 }
}

/// The number of 8 KiB RAM banks for a RAM size code.
pub open spec fn ram_banks_of(code: u8) -> usize {
    if code == 2 {
        1
    } else if code == 3 {
        4
    } else if code == 4 {
        16
    } else if code == 5 {
        8
    } else {
        0
    }
}

impl Header {
    /// The header holds what `new(bytes)` parsed from `bytes`.
    pub open spec fn parsed_from(self, bytes: Seq<u8>) -> bool {
        &&& self.nintendo_logo@ == bytes.subrange(0x04, 0x34)
        &&& self.cgb_flag == bytes[0x43]
        &&& self.title@ == bytes.subrange(0x34, title_end(bytes) + 1).filter(|b: u8| not_nul(b))
        &&& self.manufacturer_code@ == manufacturer_code_of(bytes)
        &&& self.licensee_code == (if bytes[0x4B] != 0x33 { bytes[0x4B] as u16 } else {
            (bytes[0x44] as u16 * 256 + bytes[0x45] as u16) as u16
        })
        &&& self.sgb_flag == bytes[0x46]
        &&& self.cartridge_type == bytes[0x47]
        &&& self.rom_size == bytes[0x48]
        &&& self.ram_size == bytes[0x49]
        &&& self.destination_code == bytes[0x4A]
        &&& self.version_number == bytes[0x4C]
        &&& self.header_checksum == bytes[0x4D]
        &&& self.global_checksum == (bytes[0x4E] as u16 * 256 + bytes[0x4F] as u16) as u16
    }

    /// Parses the header from a whole ROM image.
    pub fn from_bytes(bytes: &[u8]) -> (r: Self)
        requires
            bytes@.len() >= HEADER_START + HEADER_SIZE,
            header_is_valid(bytes@.subrange(HEADER_START as int, (HEADER_START + HEADER_SIZE) as int)),
            title_valid(bytes@.subrange(HEADER_START as int, (HEADER_START + HEADER_SIZE) as int)),
        ensures
            r.parsed_from(bytes@.subrange(HEADER_START as int, (HEADER_START + HEADER_SIZE) as int)),
    {
        let mut header_bytes = [0u8; HEADER_SIZE];
        let mut i: usize = 0;
        while i < HEADER_SIZE
            invariant
                i <= HEADER_SIZE,
                bytes@.len() >= HEADER_START + HEADER_SIZE,
                forall|j: int| 0 <= j < i ==> header_bytes@[j] == bytes@[HEADER_START + j],
            decreases HEADER_SIZE - i,
        {
            header_bytes[i] = bytes[HEADER_START + i];
            i = i + 1;
        }
        assert(header_bytes@ =~= bytes@.subrange(HEADER_START as int, (HEADER_START + HEADER_SIZE) as int));
        Header::new(header_bytes)
    }

    /// Constructs a header from header bytes (cartridge addresses 0x0100 to
    /// 0x014F), whose checksum must match and whose title must be valid
    /// UTF-8.
    pub fn new(header_bytes: [u8; HEADER_SIZE]) -> (r: Self)
        requires
            header_is_valid(header_bytes@),
            title_valid(header_bytes@),
        ensures
            r.parsed_from(header_bytes@),
    {
        let mut nintendo_logo = [0u8; LOGO_BYTES];
        let mut i: usize = 0;
        while i < LOGO_BYTES
            invariant
                i <= LOGO_BYTES,
                forall|j: int| 0 <= j < i ==> nintendo_logo@[j] == header_bytes@[0x04 + j],
            decreases LOGO_BYTES - i,
        {
            nintendo_logo[i] = header_bytes[0x04 + i];
            i = i + 1;
        }
        assert(nintendo_logo@ =~= header_bytes@.subrange(0x04, 0x34));
        let cgb_flag = header_bytes[0x43];
        let title_last: usize = if cgb_flag == CGB_ENHANCED || cgb_flag == CGB_ONLY {
            0x42
        } else {
            0x43
        };
        let title = non_nul_bytes(&header_bytes, 0x34, title_last + 1);
        let code = vec![header_bytes[0x3F], header_bytes[0x40], header_bytes[0x41], header_bytes[0x42]];
        assert(code@ =~= header_bytes@.subrange(0x3F, 0x43));
        let manufacturer_code = if utf8_ok(code.as_slice()) {
            non_nul_bytes(&header_bytes, 0x3F, 0x43)
        } else {
            Vec::new()
        };
        let old_licensee_code = header_bytes[0x4B];
        let licensee_code = if old_licensee_code != 0x33 {
            old_licensee_code as u16
        } else {
            (header_bytes[0x44] as u16) * 256 + header_bytes[0x45] as u16
        };
        let sgb_flag = header_bytes[0x46];
        let cartridge_type = header_bytes[0x47];
        let rom_size = header_bytes[0x48];
        let ram_size = header_bytes[0x49];
        let destination_code = header_bytes[0x4A];
        let version_number = header_bytes[0x4C];
        let header_checksum = header_bytes[0x4D];
        // unused for most games
        let global_checksum = (header_bytes[0x4E] as u16) * 256 + header_bytes[0x4F] as u16;
        Header {
            nintendo_logo,
            title,
            manufacturer_code,
            cgb_flag,
            licensee_code,
            sgb_flag,
            cartridge_type,
            rom_size,
            ram_size,
            destination_code,
            version_number,
            header_checksum,
            global_checksum,
        }
    }

    /// Computes the header checksum of header bytes (0x0100..=0x014F).
    pub fn compute_checksum(header_bytes: &[u8; HEADER_SIZE]) -> (r: u8)
        ensures
            r == spec_header_checksum(header_bytes@),
    {
        let mut checksum: u8 = 0;
        let mut i: usize = 0x34;
        while i <= 0x4C
            invariant
                0x34 <= i <= 0x4D,
                checksum == header_checksum_of(header_bytes@, i as int),
            decreases 0x4D - i,
        {
            checksum = checksum.wrapping_sub(header_bytes[i]).wrapping_sub(1);
            i = i + 1;
        }
        checksum
    }

    /// The number of 16 KiB ROM banks (the size code must be 0..=8).
    pub fn num_rom_banks(&self) -> (r: usize)
        requires
            self.rom_size <= 8,
        ensures
            r == rom_banks_of(self.rom_size),
    {
        proof {
            vstd::arithmetic::power2::lemma2_to64();
        }
        match self.rom_size {
            0x00 => 2,
            0x01 => 4,
            0x02 => 8,
            0x03 => 16,
            0x04 => 32,
            0x05 => 64,
            0x06 => 128,
            0x07 => 256,
            _ => 512,
        }
    }

    /// The number of 8 KiB RAM banks (the size code must be 0..=5).
    pub fn num_ram_banks(&self) -> (r: usize)
        requires
            self.ram_size <= 5,
        ensures
            r == ram_banks_of(self.ram_size),
    {
        match self.ram_size {
            0x00 => 0,
            0x01 => 0,
            0x02 => 1,
            0x03 => 4,
            0x04 => 16,
            _ => 8,
        }
    }

    /// The title's bytes (NUL bytes removed).
    pub fn title(&self) -> (r: Vec<u8>)
        ensures
            r@ == self.title@,
    {
        self.title.clone()
    }

    /// The cartridge type code (which MBC the cartridge has).
    pub fn cartridge_type(&self) -> (r: u8)
        ensures
            r == self.cartridge_type,
    {
        self.cartridge_type
    }

    /// Whether the CGB flag marks the cartridge as CGB-compatible.
    pub fn cgb_compatible(&self) -> (r: bool)
        ensures
            r == (self.cgb_flag & 0x80 != 0),
    {
        self.cgb_flag & 0x80 != 0
    }

    /// The byte strings a `derive(Hash)` over the header's fields writes to
    /// the default hasher, given the machine's encodings `len_prefix` of the
    /// logo's length and `licensee`, `global` of the 16-bit fields: the logo
    /// with its length first, each string followed by 0xFF, each byte field
    /// on its own, in field order.
    pub open spec fn hash_writes(self, len_prefix: Seq<u8>, licensee: Seq<u8>, global: Seq<u8>) -> Seq<Seq<u8>> {
        seq![
            len_prefix,
            self.nintendo_logo@,
            self.manufacturer_code@,
            seq![0xFFu8],
            seq![self.cgb_flag],
            licensee,
            seq![self.sgb_flag],
            seq![self.destination_code],
            seq![self.version_number],
            seq![self.header_checksum],
            global,
            self.title@,
            seq![0xFFu8],
            seq![self.cartridge_type],
            seq![self.rom_size],
            seq![self.ram_size],
        ]
    }

    /// A decimal hash of the header's fields (the standard library's default
    /// hasher over the fields as `derive(Hash)` feeds them), an identifier for
    /// the cartridge. The integer encodings are the machine's: a 4- or 8-byte
    /// length and 2-byte words, in either byte order.
    pub fn get_hash_string(&self) -> (r: String)
        ensures
            exists|p: Seq<u8>, l: Seq<u8>, g: Seq<u8>|
                #![trigger self.hash_writes(p, l, g)]
                (p.len() == 4 || p.len() == 8) && ne_encoding(p, LOGO_BYTES as nat)
                && l.len() == 2 && ne_encoding(l, self.licensee_code as nat)
                && g.len() == 2 && ne_encoding(g, self.global_checksum as nat)
                && r@ == decimal_digits(DefaultHasher::spec_finish(self.hash_writes(p, l, g)) as nat),
    {
        let mut hasher = DefaultHasher::new();
        let prefix = usize_ne_bytes(LOGO_BYTES);
        hasher.write(prefix.as_slice());
        let logo = self.nintendo_logo.as_slice();
        proof {
            broadcast use vstd::array::group_array_axioms;
            assert(logo@ == self.nintendo_logo@);
        }
        hasher.write(logo);
        hasher.write(self.manufacturer_code.as_slice());
        write_byte(&mut hasher, 0xFF);
        write_byte(&mut hasher, self.cgb_flag);
        let licensee = u16_ne_bytes(self.licensee_code);
        hasher.write(licensee.as_slice());
        write_byte(&mut hasher, self.sgb_flag);
        write_byte(&mut hasher, self.destination_code);
        write_byte(&mut hasher, self.version_number);
        write_byte(&mut hasher, self.header_checksum);
        let global = u16_ne_bytes(self.global_checksum);
        hasher.write(global.as_slice());
        hasher.write(self.title.as_slice());
        write_byte(&mut hasher, 0xFF);
        write_byte(&mut hasher, self.cartridge_type);
        write_byte(&mut hasher, self.rom_size);
        write_byte(&mut hasher, self.ram_size);
        assert(hasher@ =~= self.hash_writes(prefix@, licensee@, global@));
        decimal_string(hasher.finish())
    }
}

/// Writes one byte to the hasher.
fn write_byte(hasher: &mut DefaultHasher, b: u8)
    ensures
        final(hasher)@ == old(hasher)@.push(seq![b]),
{
    let v = vec![b];
    assert(v@ =~= seq![b]);
    hasher.write(v.as_slice());
}

/// The `n` lowest bytes of `t`, least significant first.
pub open spec fn le_bytes(t: nat, n: nat) -> Seq<u8>
    decreases n,
{
    if n == 0 { Seq::empty() } else { seq![(t % 256) as u8] + le_bytes(t / 256, (n - 1) as nat) }
}

/// `b` encodes `v` in one of the two byte orders, at its own width.
pub open spec fn ne_encoding(b: Seq<u8>, v: nat) -> bool {
    b == le_bytes(v, b.len()) || b == be_bytes(v, b.len())
}

/// Calls `usize::to_ne_bytes` and copies the bytes out: `n` at the
/// machine's width (4 or 8 bytes) in its byte order. Width and order are
/// the machine's, so the contract allows each of them.
#[verifier::external_body]
fn usize_ne_bytes(n: usize) -> (r: Vec<u8>)
    ensures
        r@.len() == 4 || r@.len() == 8,
        ne_encoding(r@, n as nat),
{
    n.to_ne_bytes().to_vec()
}

/// Calls `u16::to_ne_bytes` and copies the two bytes out: `v` in the
/// machine's byte order, which the contract leaves as either.
#[verifier::external_body]
fn u16_ne_bytes(v: u16) -> (r: Vec<u8>)
    ensures
        r@.len() == 2,
        ne_encoding(r@, v as nat),
{
    v.to_ne_bytes().to_vec()
}


/// Whether the title field of header bytes is valid UTF-8.
pub fn title_is_utf8(header_bytes: &[u8; HEADER_SIZE]) -> (r: bool)
    ensures
        r == title_valid(header_bytes@),
{
    let cgb_flag = header_bytes[0x43];
    let end: usize = if cgb_flag == CGB_ENHANCED || cgb_flag == CGB_ONLY { 0x43 } else { 0x44 };
    let mut title: Vec<u8> = Vec::new();
    let mut i: usize = 0x34;
    while i < end
        invariant
            0x34 <= i <= end <= 0x44,
            title@ == header_bytes@.subrange(0x34, i as int),
        decreases end - i,
    {
        title.push(header_bytes[i]);
        i = i + 1;
        assert(title@ =~= header_bytes@.subrange(0x34, i as int));
    }
    utf8_ok(title.as_slice())
}

/// The bytes of `bytes[lo..hi]` that are not NUL, in order.
fn non_nul_bytes(bytes: &[u8; HEADER_SIZE], lo: usize, hi: usize) -> (r: Vec<u8>)
    requires
        lo <= hi <= HEADER_SIZE,
    ensures
        r@ == bytes@.subrange(lo as int, hi as int).filter(|b: u8| not_nul(b)),
{
    let mut out: Vec<u8> = Vec::new();
    let mut i = lo;
    proof {
        reveal(Seq::filter);
        assert(bytes@.subrange(lo as int, lo as int) =~= Seq::<u8>::empty());
    }
    while i < hi
        invariant
            lo <= i <= hi <= HEADER_SIZE,
            out@ == bytes@.subrange(lo as int, i as int).filter(|b: u8| not_nul(b)),
        decreases hi - i,
    {
        proof {
            reveal(Seq::filter);
            assert(bytes@.subrange(lo as int, i + 1).drop_last() =~= bytes@.subrange(lo as int, i as int));
        }
        if bytes[i] != 0 {
            out.push(bytes[i]);
        }
        i = i + 1;
    }
    out
}

} // verus!
