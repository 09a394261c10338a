use vstd::prelude::*;
use crate::cpu::{CpuState, R8, wadd8, wsub8, wadd16, interrupt_index, interrupt_vector};
use crate::cpu::instr::{reg_of, add_flags, sub_flags, shift_op};
use crate::cpu::register::{hi_byte, lo_byte, word_bit, with_word_bit, word_of};

verus! {

/// Setting the four flags leaves A as it is and makes each flag read back
/// as set.
proof fn lemma_flags_read_back(w: u16, z: bool, n: bool, h: bool, c: bool)
    ensures
        ({
            let f = with_word_bit(with_word_bit(with_word_bit(with_word_bit(w, 7, z), 6, n), 5, h), 4, c);
            &&& hi_byte(f) == hi_byte(w)
            &&& word_bit(f, 7) == z
            &&& word_bit(f, 6) == n
            &&& word_bit(f, 5) == h
            &&& word_bit(f, 4) == c
        }),
{
    let f = with_word_bit(with_word_bit(with_word_bit(with_word_bit(w, 7, z), 6, n), 5, h), 4, c);
    assert(((f / 256) as u8) == ((w / 256) as u8) && word_bit(f, 7) == z && word_bit(f, 6) == n && word_bit(f, 5) == h && word_bit(f, 4) == c) by (bit_vector)
        requires
            f == with_word_bit(with_word_bit(with_word_bit(with_word_bit(w, 7, z), 6, n), 5, h), 4, c),
    ;
}

/// A byte written to A reads back.
proof fn lemma_a_reads_back(s: CpuState, r: u8)
    ensures
        s.with_r8(R8::A, r).a() == r,
{
    crate::cpu::register::lemma_word_bytes_roundtrip(s.af, r, lo_byte(s.af));
}

/// The logic operations of the ALU (kind 4 AND, 5 XOR, 6 OR) on A and an
/// operand `v`: A becomes `A & v`, `A ^ v` or `A | v`; Z is set exactly
/// when that is 0; N and C are cleared; H is set for AND only; the other
/// registers and PC stay.
pub proof fn lemma_alu_logic(s: CpuState, kind: u8, v: u8)
    requires
        4 <= kind <= 6,
    ensures
        ({
            let t = s.alu(kind, v);
            let r = if kind == 4 { s.a() & v } else if kind == 5 { s.a() ^ v } else { s.a() | v };
            &&& t.a() == r
            &&& t.zf() == (r == 0)
            &&& !t.nf()
            &&& t.hf() == (kind == 4)
            &&& !t.cf()
            &&& t.bc == s.bc && t.de == s.de && t.hl == s.hl && t.sp == s.sp && t.pc == s.pc
        }),
{
    let r = if kind == 4 { s.a() & v } else if kind == 5 { s.a() ^ v } else { s.a() | v };
    let u = s.with_r8(R8::A, r);
    lemma_a_reads_back(s, r);
    lemma_flags_read_back(u.af, r == 0, false, kind == 4, false);
}

/// XOR (opcodes 0xA8..=0xAF with B, C, D, E, H, L, (HL), A, and 0xEE with
/// an immediate byte): A becomes A XOR the operand; Z is set exactly when
/// that is 0; N, H and C are cleared; the other registers stay and PC moves
/// past the instruction. XOR A therefore always clears A and sets Z.
pub proof fn lemma_xor(s: CpuState, clk: Seq<u64>)
    requires
        !s.halt_bug,
        (0xA8 <= s.read(s.pc) <= 0xAF) || s.read(s.pc) == 0xEE,
    ensures
        ({
            let op = s.read(s.pc);
            let v = if op == 0xEE {
                s.read(wadd16(s.pc, 1))
            } else if op == 0xAE {
                s.read(s.hl)
            } else {
                s.r8(reg_of((op - 0xA8) as u8))
            };
            let (t, m) = s.spec_execute(clk);
            &&& t.a() == s.a() ^ v
            &&& t.zf() == (s.a() ^ v == 0)
            &&& !t.nf() && !t.hf() && !t.cf()
            &&& t.bc == s.bc && t.de == s.de && t.hl == s.hl && t.sp == s.sp
            &&& t.pc == (if op == 0xEE { wadd16(s.pc, 2) } else { wadd16(s.pc, 1) })
            &&& m == (if op == 0xAF || op < 0xAE { 1u8 } else { 2u8 })
            &&& (op == 0xAF ==> t.a() == 0 && t.zf())
        }),
{
    let op = s.read(s.pc);
    let s1 = s.after_imm8();
    assert(s.spec_execute(clk) == s1.spec_dispatch(op, clk)) by {
        reveal(CpuState::spec_execute);
    }
    if op == 0xEE {
        assert(s1.spec_dispatch(op, clk) == s1.spec_alu_n8(5u8)) by {
            reveal(CpuState::spec_dispatch);
            reveal(CpuState::spec_high_block);
            reveal(CpuState::spec_high_block_e0);
        }
        assert(s1.spec_alu_n8(5u8) == (s1.after_imm8().alu(5, s1.imm8()), 2u8)) by {
            reveal(CpuState::spec_alu_n8);
        }
        lemma_alu_logic(s1.after_imm8(), 5, s1.imm8());
    } else {
        assert(s1.spec_dispatch(op, clk) == s1.spec_alu_block(op)) by {
            reveal(CpuState::spec_dispatch);
        }
        assert(((op - 0x80) / 8) as u8 == 5);
        reveal(CpuState::spec_alu_block);
        reveal(CpuState::spec_alu_v);
        if op == 0xAE {
            lemma_alu_logic(s1, 5, s1.read(s1.hl));
        } else {
            assert(op % 8 == (op - 0xA8) as u8);
            lemma_alu_logic(s1, 5, s1.r8(reg_of(op % 8)));
        }
    }
    assert(s.a() ^ s.a() == 0) by (bit_vector);
}

proof fn lemma_low_nibbles(a: u8, b: u8)
    by (bit_vector)
    ensures
        (a & 0x0F) as u32 == (a as u32 & 0x0F),
        (b & 0x0F) as u32 == (b as u32 & 0x0F),
{
}

proof fn lemma_add_flags_bits(a: u8, b: u8, c: u32)
    requires
        c <= 1,
    ensures
        add_flags(a, b, c) == (
            ((a + b + c) % 256) as u8,
            (a + b + c) % 256 == 0,
            false,
            (a & 0x0F) + (b & 0x0F) + c > 0x0F,
            a + b + c > 0xFF,
        ),
{
    let r = (a + b + c) as u32;
    assert(((a as u32 ^ b as u32 ^ r) & 0x10) != 0 == ((a as u32 & 0x0F) + (b as u32 & 0x0F) + c > 0x0F)
        && ((r & 0x100) != 0) == (r > 0xFF)) by (bit_vector)
        requires
            r == a as u32 + b as u32 + c,
            c <= 1,
    ;
    lemma_low_nibbles(a, b);
}

proof fn lemma_sub_flags_bits(a: u8, b: u8, c: u32)
    requires
        c <= 1,
    ensures
        sub_flags(a, b, c) == (
            ((a - b - c) % 256) as u8,
            (a - b - c) % 256 == 0,
            true,
            (a & 0x0F) < (b & 0x0F) + c,
            a < b + c,
        ),
{
    let r: u32 = if a - b - c >= 0 { (a - b - c) as u32 } else { (a - b - c + 0x1_0000_0000) as u32 };
    if a >= b + c {
        assert(((a as u32 ^ b as u32 ^ r) & 0x10) != 0 == ((a as u32 & 0x0F) < (b as u32 & 0x0F) + c)
            && (r & 0x100) == 0) by (bit_vector)
            requires
                r == a as u32 - b as u32 - c,
                a as u32 >= b as u32 + c,
                c <= 1,
        ;
    } else {
        assert(((a as u32 ^ b as u32 ^ r) & 0x10) != 0 == ((a as u32 & 0x0F) < (b as u32 & 0x0F) + c)
            && (r & 0x100) != 0) by (bit_vector)
            requires
                r == (0xFFFF_FFFF - (b as u32 + c - a as u32)) + 1,
                (a as u32) < b as u32 + c,
                c <= 1,
        ;
        assert((r % 256) as u8 == ((a - b - c) % 256) as u8);
    }
    lemma_low_nibbles(a, b);
}

/// The arithmetic operations of the ALU on A and an operand `v`, with the
/// carry `c` (1 when C is set, for ADC and SBC only): ADD and ADC set A to
/// `(A + v + c) mod 256`, with H the carry out of bit 3 and C the carry out
/// of bit 7; SUB and SBC set A to `(A - v - c) mod 256`, with N set, H the
/// borrow from bit 4 and C the borrow; CP sets the flags as SUB and leaves
/// A. Z is set exactly when the result is 0; the other registers and PC
/// stay.
pub proof fn lemma_alu_arith(s: CpuState, kind: u8, v: u8)
    requires
        kind <= 3 || kind == 7,
    ensures
        ({
            let t = s.alu(kind, v);
            let a = s.a();
            let c: int = if (kind == 1 || kind == 3) && s.cf() { 1 } else { 0 };
            let add = kind <= 1;
            let r: int = if add { (a + v + c) % 256 } else { (a - v - c) % 256 };
            &&& t.a() == (if kind == 7 { a as int } else { r })
            &&& t.zf() == (r == 0)
            &&& t.nf() == !add
            &&& t.hf() == (if add { (a % 16) + (v % 16) + c > 15 } else { (a % 16) < (v % 16) + c })
            &&& t.cf() == (if add { a + v + c > 255 } else { a < v + c })
            &&& t.bc == s.bc && t.de == s.de && t.hl == s.hl && t.sp == s.sp && t.pc == s.pc
        }),
{
    let a = s.a();
    let carry: u32 = if s.cf() { 1 } else { 0 };
    let c: u32 = if kind == 1 || kind == 3 { carry } else { 0 };
    assert((a & 0x0F) == a % 16 && (v & 0x0F) == v % 16) by (bit_vector);
    if kind <= 1 {
        lemma_add_flags_bits(a, v, c);
        let (r, z, n, h, cf) = add_flags(a, v, c);
        let u = s.with_flags(z, n, h, cf);
        lemma_flags_read_back(s.af, z, n, h, cf);
        lemma_a_reads_back(u, r);
        crate::cpu::register::lemma_word_bytes_roundtrip(u.af, r, lo_byte(u.af));
        assert(lo_byte(word_of(r, lo_byte(u.af))) == lo_byte(u.af));
        assert(word_bit(word_of(r, lo_byte(u.af)), 7) == word_bit(u.af, 7)
            && word_bit(word_of(r, lo_byte(u.af)), 6) == word_bit(u.af, 6)
            && word_bit(word_of(r, lo_byte(u.af)), 5) == word_bit(u.af, 5)
            && word_bit(word_of(r, lo_byte(u.af)), 4) == word_bit(u.af, 4)) by {
            lemma_low_bits_follow(u.af, r);
        }
    } else {
        lemma_sub_flags_bits(a, v, c);
        let (r, z, n, h, cf) = sub_flags(a, v, c);
        let u = s.with_flags(z, n, h, cf);
        lemma_flags_read_back(s.af, z, n, h, cf);
        if kind != 7 {
            lemma_a_reads_back(u, r);
            lemma_low_bits_follow(u.af, r);
        }
    }
}

/// Replacing the upper byte of a word keeps its flag bits (4..=7).
proof fn lemma_low_bits_follow(w: u16, r: u8)
    ensures
        word_bit(word_of(r, lo_byte(w)), 7) == word_bit(w, 7),
        word_bit(word_of(r, lo_byte(w)), 6) == word_bit(w, 6),
        word_bit(word_of(r, lo_byte(w)), 5) == word_bit(w, 5),
        word_bit(word_of(r, lo_byte(w)), 4) == word_bit(w, 4),
{
    let x = word_of(r, lo_byte(w));
    assert(word_bit(x, 7) == word_bit(w, 7) && word_bit(x, 6) == word_bit(w, 6) && word_bit(x, 5) == word_bit(w, 5)
        && word_bit(x, 4) == word_bit(w, 4)) by (bit_vector)
        requires
            x == ((r as u16) * 256 + (w % 256)) as u16,
    ;
}

/// The ALU opcodes. 0x80..=0xBF apply operation `(op >> 3) & 7` (ADD, ADC,
/// SUB, SBC, AND, XOR, OR, CP) to A and operand `op & 7` (B, C, D, E, H, L,
/// the byte at HL, A), taking 1 M-cycle, 2 for the byte at HL. 0xC6, 0xCE,
/// 0xD6, 0xDE, 0xE6, 0xEE, 0xF6 and 0xFE apply operation `(op >> 3) & 7` to
/// A and the byte after the opcode, taking 2. What each operation does is
/// `lemma_alu_arith` and `lemma_alu_logic`.
pub proof fn lemma_alu_opcodes(s: CpuState, clk: Seq<u64>)
    requires
        !s.halt_bug,
        (0x80 <= s.read(s.pc) <= 0xBF) || (s.read(s.pc) >= 0xC0 && s.read(s.pc) & 7 == 6),
    ensures
        ({
            let op = s.read(s.pc);
            let kind = (op >> 3u8) & 7;
            let (t, m) = s.spec_execute(clk);
            &&& op < 0xC0 ==> {
                let v = if op & 7 == 6 { s.read(s.hl) } else { s.r8(reg_of(op & 7)) };
                &&& t == s.after_imm8().alu(kind, v)
                &&& m == (if op & 7 == 6 { 2u8 } else { 1u8 })
            }
            &&& op >= 0xC0 ==> {
                &&& t == s.after_imm8().after_imm8().alu(kind, s.read(wadd16(s.pc, 1)))
                &&& m == 2
            }
        }),
{
    let op = s.read(s.pc);
    let s1 = s.after_imm8();
    let kind = (op >> 3u8) & 7;
    assert(s.spec_execute(clk) == s1.spec_dispatch(op, clk)) by {
        reveal(CpuState::spec_execute);
    }
    if op < 0xC0 {
        assert(s1.spec_dispatch(op, clk) == s1.spec_alu_block(op)) by {
            reveal(CpuState::spec_dispatch);
        }
        assert(((op - 0x80) / 8) as u8 == kind && op % 8 == op & 7) by (bit_vector)
            requires
                0x80 <= op <= 0xBF,
                kind == (op >> 3u8) & 7,
        ;
        reveal(CpuState::spec_alu_block);
        reveal(CpuState::spec_alu_v);
    } else {
        assert((op == 0xC6 || op == 0xCE || op == 0xD6 || op == 0xDE || op == 0xE6 || op == 0xEE || op == 0xF6
            || op == 0xFE) && (op == 0xC6 ==> kind == 0) && (op == 0xCE ==> kind == 1) && (op == 0xD6 ==> kind == 2)
            && (op == 0xDE ==> kind == 3) && (op == 0xE6 ==> kind == 4) && (op == 0xEE ==> kind == 5)
            && (op == 0xF6 ==> kind == 6) && (op == 0xFE ==> kind == 7)) by (bit_vector)
            requires
                op >= 0xC0,
                op & 7 == 6,
                kind == (op >> 3u8) & 7,
        ;
        assert(s1.spec_dispatch(op, clk) == s1.spec_alu_n8(kind)) by {
            reveal(CpuState::spec_dispatch);
            reveal(CpuState::spec_high_block);
            if op < 0xD0 {
                reveal(CpuState::spec_high_block_c0);
            } else if op < 0xE0 {
                reveal(CpuState::spec_high_block_d0);
            } else if op < 0xF0 {
                reveal(CpuState::spec_high_block_e0);
            } else {
                reveal(CpuState::spec_high_block_f0);
            }
        }
        reveal(CpuState::spec_alu_n8);
    }
}

proof fn lemma_pending_bits(ie: u8, f: u8)
    by (bit_vector)
    ensures
        ((ie & (1u8 << 0u8)) != 0 && (f & (1u8 << 0u8)) != 0) == ((ie & f & 0x1F) & 0x01 != 0),
        ((ie & (1u8 << 1u8)) != 0 && (f & (1u8 << 1u8)) != 0) == ((ie & f & 0x1F) & 0x02 != 0),
        ((ie & (1u8 << 2u8)) != 0 && (f & (1u8 << 2u8)) != 0) == ((ie & f & 0x1F) & 0x04 != 0),
        ((ie & (1u8 << 3u8)) != 0 && (f & (1u8 << 3u8)) != 0) == ((ie & f & 0x1F) & 0x08 != 0),
        ((ie & (1u8 << 4u8)) != 0 && (f & (1u8 << 4u8)) != 0) == ((ie & f & 0x1F) & 0x10 != 0),
        ((ie & f & 0x1F) == 0) == ((ie & f & 0x1F) & 0x01 == 0 && (ie & f & 0x1F) & 0x02 == 0
            && (ie & f & 0x1F) & 0x04 == 0 && (ie & f & 0x1F) & 0x08 == 0 && (ie & f & 0x1F) & 0x10 == 0),
        (ie & f & 0x1F) & 0x01 == 0 ==> (ie & f & 0x1F) & 0x01 == 0,
        ((ie & f & 0x1F) & 0x01 == 0 && (ie & f & 0x1F) & 0x02 == 0) ==> (ie & f & 0x1F) & 0x03 == 0,
        ((ie & f & 0x1F) & 0x03 == 0 && (ie & f & 0x1F) & 0x04 == 0) ==> (ie & f & 0x1F) & 0x07 == 0,
        ((ie & f & 0x1F) & 0x07 == 0 && (ie & f & 0x1F) & 0x08 == 0) ==> (ie & f & 0x1F) & 0x0F == 0,
{
}

/// Of the interrupts both enabled (IE) and requested (IF), the one of the
/// lowest bit is serviced first: VBlank (bit 0), STAT, Timer, Serial,
/// Joypad (bit 4), each at vector 0x40 + 8 * bit. There is none exactly
/// when IE & IF has no bit 0..=4 set.
pub proof fn lemma_interrupt_priority(s: CpuState)
    ensures
        ({
            let p = s.read(0xFFFF) & s.read(0xFF0F) & 0x1F;
            &&& (s.spec_pending_interrupt() is None <==> p == 0)
            &&& (s.spec_pending_interrupt() matches Some(i) ==> {
                let b = interrupt_index(i);
                &&& b < 5
                &&& interrupt_vector(i) == 0x40 + 8 * b
                &&& (p >> b) & 1 == 1
                &&& p & ((1u8 << b) - 1) as u8 == 0
            })
        }),
{
    let ie = s.read(0xFFFF);
    let f = s.read(0xFF0F);
    let p = ie & f & 0x1F;
    lemma_pending_bits(ie, f);
    assert((p & 0x01 != 0) == ((p >> 0u8) & 1 == 1) && (p & 0x02 != 0) == ((p >> 1u8) & 1 == 1)
        && (p & 0x04 != 0) == ((p >> 2u8) & 1 == 1) && (p & 0x08 != 0) == ((p >> 3u8) & 1 == 1)
        && (p & 0x10 != 0) == ((p >> 4u8) & 1 == 1)
        && ((1u8 << 0u8) - 1) as u8 == 0 && ((1u8 << 1u8) - 1) as u8 == 1 && ((1u8 << 2u8) - 1) as u8 == 3
        && ((1u8 << 3u8) - 1) as u8 == 7 && ((1u8 << 4u8) - 1) as u8 == 15
        && p & 0 == 0) by (bit_vector);
}

/// The CB rotates and shifts in arithmetic terms, with carry in `cf`:
/// RLC moves bit 7 to bit 0; RRC bit 0 to bit 7; RL and RR rotate through
/// the carry; SLA doubles; SRA halves keeping bit 7; SWAP exchanges the
/// nibbles; SRL halves. The carry out is the bit shifted out (none for
/// SWAP).
pub proof fn lemma_shift_ops(kind: u8, v: u8, cf: bool)
    ensures
        ({
            let (r, c) = shift_op(kind, v, cf);
            let ci: int = if cf { 1 } else { 0 };
            &&& kind == 0 ==> r == (v * 2) % 256 + v / 128 && c == (v >= 128)
            &&& kind == 1 ==> r == v / 2 + (v % 2) * 128 && c == (v % 2 == 1)
            &&& kind == 2 ==> r == (v * 2) % 256 + ci && c == (v >= 128)
            &&& kind == 3 ==> r == v / 2 + ci * 128 && c == (v % 2 == 1)
            &&& kind == 4 ==> r == (v * 2) % 256 && c == (v >= 128)
            &&& kind == 5 ==> r == v / 2 + (if v >= 128 { 128int } else { 0 }) && c == (v % 2 == 1)
            &&& kind == 6 ==> r == (v % 16) * 16 + v / 16 && !c
            &&& kind >= 7 ==> r == v / 2 && c == (v % 2 == 1)
        }),
{
    assert(((v << 1u8) | (if v & 0x80 == 0x80 { 1u8 } else { 0u8 })) == (v * 2) % 256 + v / 128
        && (v & 0x80 == 0x80) == (v >= 128)
        && ((v >> 1u8) | (if v & 0x01 == 0x01 { 0x80u8 } else { 0u8 })) == v / 2 + (v % 2) * 128
        && (v & 0x01 == 0x01) == (v % 2 == 1)
        && ((v << 1u8) | (if cf { 1u8 } else { 0u8 })) == (v * 2) % 256 + (if cf { 1u8 } else { 0u8 })
        && ((v >> 1u8) | (if cf { 0x80u8 } else { 0u8 })) == v / 2 + (if cf { 1u8 } else { 0u8 }) * 128
        && (v << 1u8) == (v * 2) % 256
        && ((v & 0x80) | (v >> 1u8)) == v / 2 + (if v >= 128 { 128u8 } else { 0u8 })
        && (((v & 0x0F) << 4u8) | (v >> 4u8)) == (v % 16) * 16 + v / 16
        && (v >> 1u8) == v / 2) by (bit_vector);
}

/// A byte written to any register reads back from it.
proof fn lemma_r8_reads_back(s: CpuState, r: R8, x: u8)
    ensures
        s.with_r8(r, x).r8(r) == x,
        r != R8::A ==> s.with_r8(r, x).af == s.af,
{
    crate::cpu::register::lemma_word_bytes_roundtrip(s.af, x, lo_byte(s.af));
    crate::cpu::register::lemma_word_bytes_roundtrip(s.bc, x, lo_byte(s.bc));
    crate::cpu::register::lemma_word_bytes_roundtrip(s.bc, hi_byte(s.bc), x);
    crate::cpu::register::lemma_word_bytes_roundtrip(s.de, x, lo_byte(s.de));
    crate::cpu::register::lemma_word_bytes_roundtrip(s.de, hi_byte(s.de), x);
    crate::cpu::register::lemma_word_bytes_roundtrip(s.hl, x, lo_byte(s.hl));
    crate::cpu::register::lemma_word_bytes_roundtrip(s.hl, hi_byte(s.hl), x);
}

/// INC and DEC of an 8-bit register: it becomes `(v + 1) mod 256` or
/// `(v - 1) mod 256`; Z is set exactly when that is 0; N is set for DEC
/// only; H is the carry out of bit 3 (INC: the low nibble was 0xF) or the
/// borrow from bit 4 (DEC: the low nibble was 0); C stays.
pub proof fn lemma_inc_dec_r8(s: CpuState, r: R8)
    ensures
        ({
            let v = s.r8(r);
            let (t, m) = s.spec_inc_r8(r);
            let (u, n) = s.spec_dec_r8(r);
            &&& t.r8(r) == (v + 1) % 256 && t.zf() == ((v + 1) % 256 == 0) && !t.nf()
            &&& t.hf() == (v % 16 == 15) && t.cf() == s.cf() && m == 1
            &&& u.r8(r) == (v + 255) % 256 && u.zf() == (v == 1) && u.nf()
            &&& u.hf() == (v % 16 == 0) && u.cf() == s.cf() && n == 1
        }),
{
    reveal(CpuState::spec_inc_r8);
    reveal(CpuState::spec_dec_r8);
    let v = s.r8(r);
    assert((v & 0xf == 0xf) == (v % 16 == 15) && (v & 0xf == 0) == (v % 16 == 0)) by (bit_vector);
    let up = wadd8(v, 1);
    let down = wsub8(v, 1);
    assert(up == (v + 1) % 256 && down == (v + 255) % 256);
    let f1 = s.with_flags(up == 0, false, v & 0xf == 0xf, s.cf());
    let f2 = s.with_flags(down == 0, true, v & 0xf == 0, s.cf());
    lemma_flags_read_back(s.af, up == 0, false, v & 0xf == 0xf, s.cf());
    lemma_flags_read_back(s.af, down == 0, true, v & 0xf == 0, s.cf());
    lemma_r8_reads_back(f1, r, up);
    lemma_r8_reads_back(f2, r, down);
    lemma_low_bits_follow(f1.af, up);
    lemma_low_bits_follow(f2.af, down);
}


/// Conditional jumps: JR NZ/Z/NC/C (0x20, 0x28, 0x30, 0x38) and JP
/// NZ/Z/NC/C (0xC2, 0xCA, 0xD2, 0xDA) are taken exactly when Z is clear, Z
/// is set, C is clear or C is set. A taken JR moves PC by the signed byte
/// after the opcode from the next instruction (3 M-cycles), a taken JP loads
/// PC with the little-endian word after the opcode (4); one not taken only
/// steps past the instruction (2 and 3). No register or flag changes.
pub proof fn lemma_conditional_jumps(s: CpuState, clk: Seq<u64>)
    requires
        !s.halt_bug,
        ({
            let op = s.read(s.pc);
            op == 0x20 || op == 0x28 || op == 0x30 || op == 0x38 || op == 0xC2 || op == 0xCA || op == 0xD2
                || op == 0xDA
        }),
    ensures
        ({
            let op = s.read(s.pc);
            let taken = if op == 0x20 || op == 0xC2 {
                !s.zf()
            } else if op == 0x28 || op == 0xCA {
                s.zf()
            } else if op == 0x30 || op == 0xD2 {
                !s.cf()
            } else {
                s.cf()
            };
            let lo = s.read(wadd16(s.pc, 1));
            let hi = s.read(wadd16(s.pc, 2));
            let rel: int = if lo < 128 { lo as int } else { lo - 256 };
            let (t, m) = s.spec_execute(clk);
            &&& t.af == s.af && t.bc == s.bc && t.de == s.de && t.hl == s.hl && t.sp == s.sp
            &&& op < 0x40 ==> {
                &&& t.pc == (if taken { (s.pc + 2 + rel) % 0x10000 } else { (s.pc + 2) % 0x10000 })
                &&& m == (if taken { 3u8 } else { 2u8 })
            }
            &&& op >= 0xC0 ==> {
                &&& t.pc == (if taken { hi * 256 + lo } else { (s.pc + 3) % 0x10000 })
                &&& m == (if taken { 4u8 } else { 3u8 })
            }
        }),
{
    let op = s.read(s.pc);
    let s1 = s.after_imm8();
    assert(s.spec_execute(clk) == s1.spec_dispatch(op, clk)) by {
        reveal(CpuState::spec_execute);
    }
    reveal(CpuState::spec_dispatch);
    reveal(CpuState::spec_low_block);
    reveal(CpuState::spec_low_block_20);
    reveal(CpuState::spec_low_block_30);
    reveal(CpuState::spec_high_block);
    reveal(CpuState::spec_high_block_c0);
    reveal(CpuState::spec_high_block_d0);
    reveal(CpuState::spec_jr_cc_e8);
    reveal(CpuState::spec_jp_cc_n16);
    assert(wadd16(s1.pc, 1) == wadd16(s.pc, 2));
    assert(s1.imm16() == word_of(s.read(wadd16(s.pc, 2)), s.read(wadd16(s.pc, 1))));
}


/// The single-bit facts behind BIT, RES and SET, for bit `b` and any other
/// bit `j` of a byte.
proof fn lemma_single_bits(v: u8, b: u8, j: u8)
    by (bit_vector)
    requires
        b < 8,
        j < 8,
    ensures
        (v & (1u8 << b) == 0) == ((v >> b) & 1 == 0),
        ((v | (1u8 << b)) >> b) & 1 == 1,
        ((v & !(1u8 << b)) >> b) & 1 == 0,
        j != b ==> ((v | (1u8 << b)) >> j) & 1 == (v >> j) & 1,
        j != b ==> ((v & !(1u8 << b)) >> j) & 1 == (v >> j) & 1,
{
}

/// BIT, RES and SET on a register (CB-prefixed opcodes 0x40..=0xFF with
/// an operand other than (HL)), on bit `b = (op / 8) % 8` of register
/// `op % 8`: BIT sets Z exactly when the bit is clear, clears N, sets H and
/// keeps C and every register; RES clears the bit, SET sets it, and both
/// keep every other bit (here: any bit `j`) and the flags. Each takes 2
/// M-cycles.
pub proof fn lemma_bit_res_set(s: CpuState, clk: Seq<u64>, j: u8)
    requires
        !s.halt_bug,
        s.read(s.pc) == 0xCB,
        s.read(wadd16(s.pc, 1)) >= 0x40,
        s.read(wadd16(s.pc, 1)) % 8 != 6,
        j < 8,
    ensures
        ({
            let op = s.read(wadd16(s.pc, 1));
            let b = ((op / 8) % 8) as u8;
            let r = reg_of(op % 8);
            let v = s.r8(r);
            let (t, m) = s.spec_execute(clk);
            &&& m == 2
            &&& op < 0x80 ==> {
                &&& t.zf() == ((v >> b) & 1 == 0) && !t.nf() && t.hf() && t.cf() == s.cf()
                &&& t.a() == s.a() && t.bc == s.bc && t.de == s.de && t.hl == s.hl && t.sp == s.sp
            }
            &&& op >= 0x80 ==> {
                &&& (t.r8(r) >> b) & 1 == (if op >= 0xC0 { 1u8 } else { 0u8 })
                &&& j != b ==> (t.r8(r) >> j) & 1 == (v >> j) & 1
                &&& t.zf() == s.zf() && t.nf() == s.nf() && t.hf() == s.hf() && t.cf() == s.cf()
            }
        }),
{
    let op = s.read(wadd16(s.pc, 1));
    let b = ((op / 8) % 8) as u8;
    let r = reg_of(op % 8);
    let v = s.r8(r);
    let s1 = s.after_imm8();
    assert(s.spec_execute(clk) == s1.spec_dispatch(0xCB, clk)) by {
        reveal(CpuState::spec_execute);
    }
    assert(s1.spec_dispatch(0xCB, clk) == s1.spec_cb(clk)) by {
        reveal(CpuState::spec_dispatch);
        reveal(CpuState::spec_high_block);
        reveal(CpuState::spec_high_block_c0);
    }
    reveal(CpuState::spec_cb);
    let s2 = s1.after_imm8();
    assert(s2.r8(r) == v);
    lemma_single_bits(v, b, j);
    if op < 0x80 {
        assert(((op / 8) - 8) as u8 == b);
        reveal(CpuState::spec_bit);
        lemma_flags_read_back(s2.af, v & (1u8 << b) == 0, false, true, s2.cf());
    } else {
        assert(((op / 8) % 8) as u8 == b);
        reveal(CpuState::spec_res_set);
        let x = if op >= 0xC0 { v | (1u8 << b) } else { v & !(1u8 << b) };
        lemma_r8_reads_back(s2, r, x);
        if r == R8::A {
            lemma_low_bits_follow(s2.af, x);
        }
    }
}


/// CALL then RET: CALL nn (0xCD) jumps to the little-endian word after the
/// opcode and pushes the address of the next instruction (6 M-cycles); a
/// RET (0xC9) there (4 M-cycles) comes back to that address with SP as it
/// was before the CALL, when the two stack bytes lie in plain RAM.
pub proof fn lemma_call_then_ret(s: CpuState, clk: Seq<u64>, clk2: Seq<u64>)
    requires
        s.wf(),
        !s.halt_bug,
        s.read(s.pc) == 0xCD,
        crate::bus::plain_ram(crate::cpu::wsub16(s.sp, 1)),
        crate::bus::plain_ram(crate::cpu::wsub16(s.sp, 2)),
        s.spec_execute(clk).0.read(s.spec_execute(clk).0.pc) == 0xC9,
    ensures
        ({
            let (t, m) = s.spec_execute(clk);
            let (u, n) = t.spec_execute(clk2);
            &&& t.pc == s.read(wadd16(s.pc, 2)) * 256 + s.read(wadd16(s.pc, 1))
            &&& t.sp == (s.sp + 0xFFFE) % 0x10000
            &&& m == 6
            &&& u.pc == (s.pc + 3) % 0x10000
            &&& u.sp == s.sp
            &&& n == 4
        }),
{
    let s1 = s.after_imm8();
    assert(s.spec_execute(clk) == s1.spec_dispatch(0xCD, clk)) by {
        reveal(CpuState::spec_execute);
    }
    assert(s1.spec_dispatch(0xCD, clk) == s1.spec_call_n16(clk)) by {
        reveal(CpuState::spec_dispatch);
        reveal(CpuState::spec_high_block);
        reveal(CpuState::spec_high_block_c0);
    }
    reveal(CpuState::spec_call_n16);
    let s2 = s1.after_imm16();
    crate::cpu::lemma_pop_after_push(s2, s2.pc, clk[0], clk[1]);
    assert(wadd16(s1.pc, 1) == wadd16(s.pc, 2));
    let t = s.spec_execute(clk).0;
    let t1 = t.after_imm8();
    assert(t.spec_execute(clk2) == t1.spec_dispatch(0xC9, clk2)) by {
        reveal(CpuState::spec_execute);
    }
    assert(t1.spec_dispatch(0xC9, clk2) == t1.spec_ret()) by {
        reveal(CpuState::spec_dispatch);
        reveal(CpuState::spec_high_block);
        reveal(CpuState::spec_high_block_c0);
    }
    reveal(CpuState::spec_ret);
}


/// ADD HL,rr (0x09 BC, 0x19 DE, 0x29 HL, 0x39 SP): HL becomes
/// `(HL + rr) mod 65536`; Z stays; N is cleared; H is the carry out of bit
/// 11 and C the carry out of bit 15; A and the other pairs stay; 2 M-cycles.
pub proof fn lemma_add_hl(s: CpuState, clk: Seq<u64>)
    requires
        !s.halt_bug,
        ({
            let op = s.read(s.pc);
            op == 0x09 || op == 0x19 || op == 0x29 || op == 0x39
        }),
    ensures
        ({
            let op = s.read(s.pc);
            let v = if op == 0x09 { s.bc } else if op == 0x19 { s.de } else if op == 0x29 { s.hl } else { s.sp };
            let (t, m) = s.spec_execute(clk);
            &&& t.hl == (s.hl + v) % 0x10000
            &&& t.zf() == s.zf() && !t.nf()
            &&& t.hf() == (s.hl % 0x1000 + v % 0x1000 > 0xFFF)
            &&& t.cf() == (s.hl + v > 0xFFFF)
            &&& t.a() == s.a()
            &&& op != 0x09 ==> t.bc == s.bc
            &&& op != 0x19 ==> t.de == s.de
            &&& op != 0x39 ==> t.sp == s.sp
            &&& m == 2
        }),
{
    let op = s.read(s.pc);
    let s1 = s.after_imm8();
    assert(s.spec_execute(clk) == s1.spec_dispatch(op, clk)) by {
        reveal(CpuState::spec_execute);
    }
    reveal(CpuState::spec_dispatch);
    reveal(CpuState::spec_low_block);
    reveal(CpuState::spec_low_block_00);
    reveal(CpuState::spec_low_block_10);
    reveal(CpuState::spec_low_block_20);
    reveal(CpuState::spec_low_block_30);
    reveal(CpuState::spec_add_hl_r16);
    let v = if op == 0x09 { s.bc } else if op == 0x19 { s.de } else if op == 0x29 { s.hl } else { s.sp };
    let h = s.hl;
    let r = (h + v) as u32;
    assert((((h as u32 ^ v as u32 ^ r) & 0x1000) != 0) == ((h as u32 & 0xFFF) + (v as u32 & 0xFFF) > 0xFFF)
        && ((r & 0x10000) != 0) == (r > 0xFFFF) && (h as u32 & 0xFFF) == h as u32 % 0x1000
        && (v as u32 & 0xFFF) == v as u32 % 0x1000) by (bit_vector)
        requires
            r == h as u32 + v as u32,
            h <= 0xFFFF,
            v <= 0xFFFF,
    ;
    lemma_flags_read_back(s1.af, s1.zf(), false, ((h as u32 ^ v as u32 ^ r) & 0x1000) != 0, (r & 0x10000) != 0);
}

} // verus!
