use vstd::prelude::*;
use crate::cpu::{Cpu, CpuState, R8, R16, wadd8, wsub8, wadd16, wsub16, join_bytes};
use crate::cpu::register::{hi_byte, lo_byte, word_of, Register};

verus! {

/// The register encoded by a 3-bit operand field (6, (HL), is not a register).
pub open spec fn reg_of(i: u8) -> R8 {
    if i == 0 {
        R8::B
    } else if i == 1 {
        R8::C
    } else if i == 2 {
        R8::D
    } else if i == 3 {
        R8::E
    } else if i == 4 {
        R8::H
    } else if i == 5 {
        R8::L
    } else {
        R8::A
    }
}

/// The signed value of a relative-jump or SP-offset byte.
pub open spec fn signed8(n: u8) -> int {
    if n < 128 { n as int } else { n - 256 }
}

/// `a + b + carry` with its flags (Z, N, H, C).
pub open spec fn add_flags(a: u8, b: u8, carry: u32) -> (u8, bool, bool, bool, bool) {
    let r = (a + b + carry) as u32;
    ((r % 256) as u8, r % 256 == 0, false, ((a as u32 ^ b as u32 ^ r) & 0x10) != 0, (r & 0x100) != 0)
}

/// `a - b - carry` (computed in 32 bits, wrapping) with its flags.
pub open spec fn sub_flags(a: u8, b: u8, carry: u32) -> (u8, bool, bool, bool, bool) {
    let r: u32 = if a - b - carry >= 0 { (a - b - carry) as u32 } else { (a - b - carry + 0x1_0000_0000) as u32 };
    ((r % 256) as u8, r % 256 == 0, true, ((a as u32 ^ b as u32 ^ r) & 0x10) != 0, (r & 0x100) != 0)
}

/// The rotate/shift group of the CB table (0 RLC, 1 RRC, 2 RL, 3 RR,
/// 4 SLA, 5 SRA, 6 SWAP, 7 SRL) on `v`, with the carry flag `cf` in: the
/// result and the new C flag (Z is set when the result is 0, N and H clear).
pub open spec fn shift_op(kind: u8, v: u8, cf: bool) -> (u8, bool) {
    if kind == 0 {
        ((v << 1u8) | (if v & 0x80 == 0x80 { 1u8 } else { 0u8 }), v & 0x80 == 0x80)
    } else if kind == 1 {
        ((v >> 1u8) | (if v & 0x01 == 0x01 { 0x80u8 } else { 0u8 }), v & 0x01 == 0x01)
    } else if kind == 2 {
        ((v << 1u8) | (if cf { 1u8 } else { 0u8 }), v & 0x80 == 0x80)
    } else if kind == 3 {
        ((v >> 1u8) | (if cf { 0x80u8 } else { 0u8 }), v & 0x01 == 0x01)
    } else if kind == 4 {
        (v << 1u8, v & 0x80 == 0x80)
    } else if kind == 5 {
        ((v & 0x80) | (v >> 1u8), v & 0x01 == 0x01)
    } else if kind == 6 {
        (((v & 0x0F) << 4u8) | (v >> 4u8), false)
    } else {
        (v >> 1u8, v & 0x01 == 0x01)
    }
}

/// Decimal adjustment of A after a BCD addition or subtraction: the new A
/// and the new C flag.
pub open spec fn daa_result(a: u8, n: bool, h: bool, c: bool) -> (u8, bool) {
    let adjust0: u8 = (if c { 0x60u8 } else { 0u8 }) | (if h { 0x06u8 } else { 0u8 });
    if n {
        (wsub8(a, adjust0), adjust0 & 0x60 != 0)
    } else {
        let adjust1: u8 = if a > 0x99 { adjust0 | 0x60 } else { adjust0 };
        let adjust2: u8 = if a & 0x0F > 0x09 { adjust1 | 0x06 } else { adjust1 };
        (wadd8(a, adjust2), adjust2 & 0x60 != 0)
    }
}

/// SP plus a signed byte, with the H and C flags of the 8-bit addition of
/// its low byte.
pub open spec fn sp_offset(sp: u16, n: u8) -> (u16, bool, bool) {
    let e: u16 = if n < 128 { n as u16 } else { (n + 0xFF00) as u16 };
    let r = wadd16(sp, e);
    (r, (sp ^ e ^ r) & 0x10 != 0, (sp ^ e ^ r) & 0x100 != 0)
}

impl CpuState {
    /// The ALU operation `kind` (0 ADD, 1 ADC, 2 SUB, 3 SBC, 4 AND, 5 XOR,
    /// 6 OR, 7 CP) of A with `v`: flags set, and A replaced but for CP.
    pub open spec fn alu(self, kind: u8, v: u8) -> CpuState {
        let a = self.a();
        let carry: u32 = if self.cf() { 1 } else { 0 };
        if kind == 0 || kind == 1 {
            let (r, z, n, h, c) = add_flags(a, v, if kind == 1 { carry } else { 0 });
            self.with_flags(z, n, h, c).with_r8(R8::A, r)
        } else if kind == 2 || kind == 3 || kind == 7 {
            let (r, z, n, h, c) = sub_flags(a, v, if kind == 3 { carry } else { 0 });
            if kind == 7 {
                self.with_flags(z, n, h, c)
            } else {
                self.with_flags(z, n, h, c).with_r8(R8::A, r)
            }
        } else {
            let r: u8 = if kind == 4 { a & v } else if kind == 5 { a ^ v } else { a | v };
            self.with_r8(R8::A, r).with_flags(r == 0, false, kind == 4, false)
        }
    }
}


/// The sign-extension of a byte to 16 bits.
pub open spec fn ext16(n: u8) -> u16 {
    if n < 128 { n as u16 } else { (n + 0xFF00) as u16 }
}

impl CpuState {
    pub open spec fn with_zf(self, z: bool) -> CpuState {
        CpuState { af: crate::cpu::register::with_word_bit(self.af, 7, z), ..self }
    }

    /// The state after the next byte is fetched (PC moved past it).
    pub open spec fn after_imm8(self) -> CpuState {
        self.with_pc(wadd16(self.pc, 1))
    }

    pub open spec fn after_imm16(self) -> CpuState {
        self.with_pc(wadd16(self.pc, 2))
    }

    #[verifier::opaque]
    pub open spec fn spec_nop(self) -> (CpuState, u8) {
        (self, 1)
    }

    /// EI takes effect after the next instruction.
    #[verifier::opaque]
    pub open spec fn spec_ei(self) -> (CpuState, u8) {
        (if !self.ime { CpuState { scheduled_ei: true, ..self } } else { self }, 1)
    }

    #[verifier::opaque]
    pub open spec fn spec_di(self) -> (CpuState, u8) {
        (CpuState { ime: false, ..self }, 1)
    }

    #[verifier::opaque]
    pub open spec fn spec_halt(self) -> (CpuState, u8) {
        (CpuState { halt_triggered: true, halted: true, ..self }, 1)
    }

    #[verifier::opaque]
    pub open spec fn spec_reti(self) -> (CpuState, u8) {
        (CpuState { ime: true, ..self.popped().with_pc(self.top_of_stack()) }, 4)
    }

    /// RLCA, RRCA, RLA, RRA: the rotation of A, Z cleared.
    #[verifier::opaque]
    pub open spec fn spec_rotate_a(self, kind: u8) -> (CpuState, u8) {
        let (r, c) = shift_op(kind, self.a(), self.cf());
        (self.with_flags(r == 0, false, false, c).with_r8(R8::A, r).with_zf(false), 1)
    }

    #[verifier::opaque]
    pub open spec fn spec_jp_n16(self) -> (CpuState, u8) {
        (self.with_pc(self.imm16()), 4)
    }

    #[verifier::opaque]
    pub open spec fn spec_jp_cc_n16(self, cc: bool) -> (CpuState, u8) {
        if cc { (self.with_pc(self.imm16()), 4) } else { (self.after_imm16(), 3) }
    }

    #[verifier::opaque]
    pub open spec fn spec_jp_hl(self) -> (CpuState, u8) {
        (self.with_pc(self.hl), 1)
    }

    #[verifier::opaque]
    pub open spec fn spec_jr_e8(self) -> (CpuState, u8) {
        (self.with_pc(wadd16(wadd16(self.pc, 1), ext16(self.imm8()))), 3)
    }

    #[verifier::opaque]
    pub open spec fn spec_jr_cc_e8(self, cc: bool) -> (CpuState, u8) {
        if cc {
            (self.with_pc(wadd16(wadd16(self.pc, 1), ext16(self.imm8()))), 3)
        } else {
            (self.after_imm8(), 2)
        }
    }

    #[verifier::opaque]
    pub open spec fn spec_rst(self, vec: u16, clk: Seq<u64>) -> (CpuState, u8) {
        (self.pushed(self.pc, clk[0], clk[1]).with_pc(vec), 4)
    }

    #[verifier::opaque]
    pub open spec fn spec_call_n16(self, clk: Seq<u64>) -> (CpuState, u8) {
        let s = self.after_imm16();
        (s.pushed(s.pc, clk[0], clk[1]).with_pc(self.imm16()), 6)
    }

    #[verifier::opaque]
    pub open spec fn spec_call_cc_n16(self, cc: bool, clk: Seq<u64>) -> (CpuState, u8) {
        let s = self.after_imm16();
        if cc { (s.pushed(s.pc, clk[0], clk[1]).with_pc(self.imm16()), 6) } else { (s, 3) }
    }

    #[verifier::opaque]
    pub open spec fn spec_ret(self) -> (CpuState, u8) {
        (self.popped().with_pc(self.top_of_stack()), 4)
    }

    #[verifier::opaque]
    pub open spec fn spec_ret_cc(self, cc: bool) -> (CpuState, u8) {
        if cc { (self.popped().with_pc(self.top_of_stack()), 5) } else { (self, 2) }
    }

    /// POP AF: the low nibble of F always reads 0.
    #[verifier::opaque]
    pub open spec fn spec_pop_af(self) -> (CpuState, u8) {
        (CpuState { af: self.top_of_stack() & 0xFFF0, ..self.popped() }, 3)
    }

    #[verifier::opaque]
    pub open spec fn spec_pop_r16(self, r: R16) -> (CpuState, u8) {
        (self.popped().with_r16(r, self.top_of_stack()), 3)
    }

    #[verifier::opaque]
    pub open spec fn spec_push_af(self, clk: Seq<u64>) -> (CpuState, u8) {
        (self.pushed(self.af, clk[0], clk[1]), 4)
    }

    #[verifier::opaque]
    pub open spec fn spec_push_r16(self, r: R16, clk: Seq<u64>) -> (CpuState, u8) {
        (self.pushed(self.r16(r), clk[0], clk[1]), 4)
    }

    #[verifier::opaque]
    pub open spec fn spec_ld_r8_r8(self, d: R8, s: R8) -> (CpuState, u8) {
        (self.with_r8(d, self.r8(s)), 1)
    }

    #[verifier::opaque]
    pub open spec fn spec_ld_r8_n8(self, r: R8) -> (CpuState, u8) {
        (self.after_imm8().with_r8(r, self.imm8()), 2)
    }

    #[verifier::opaque]
    pub open spec fn spec_ld_r16_n16(self, r: R16) -> (CpuState, u8) {
        (self.after_imm16().with_r16(r, self.imm16()), 3)
    }

    #[verifier::opaque]
    pub open spec fn spec_ld_hl_n8(self, clk: Seq<u64>) -> (CpuState, u8) {
        (self.after_imm8().write(self.hl, self.imm8(), clk[0]), 3)
    }

    #[verifier::opaque]
    pub open spec fn spec_ld_hl_r8(self, r: R8, clk: Seq<u64>) -> (CpuState, u8) {
        (self.write(self.hl, self.r8(r), clk[0]), 2)
    }

    #[verifier::opaque]
    pub open spec fn spec_ld_r8_hl(self, r: R8) -> (CpuState, u8) {
        (self.with_r8(r, self.read(self.hl)), 2)
    }

    #[verifier::opaque]
    pub open spec fn spec_ld_r16_a(self, r: R16, clk: Seq<u64>) -> (CpuState, u8) {
        (self.write(self.r16(r), self.a(), clk[0]), 2)
    }

    #[verifier::opaque]
    pub open spec fn spec_ld_a_r16(self, r: R16) -> (CpuState, u8) {
        (self.with_r8(R8::A, self.read(self.r16(r))), 2)
    }

    #[verifier::opaque]
    pub open spec fn spec_ld_n16_a(self, clk: Seq<u64>) -> (CpuState, u8) {
        (self.after_imm16().write(self.imm16(), self.a(), clk[0]), 4)
    }

    #[verifier::opaque]
    pub open spec fn spec_ld_a_n16(self) -> (CpuState, u8) {
        (self.after_imm16().with_r8(R8::A, self.read(self.imm16())), 4)
    }

    /// LD (HL+), A and LD (HL-), A.
    #[verifier::opaque]
    pub open spec fn spec_ld_hlid_a(self, inc: bool, clk: Seq<u64>) -> (CpuState, u8) {
        let hl = if inc { wadd16(self.hl, 1) } else { wsub16(self.hl, 1) };
        (self.write(self.hl, self.a(), clk[0]).with_r16(R16::HL, hl), 2)
    }

    /// LD A, (HL+) and LD A, (HL-).
    #[verifier::opaque]
    pub open spec fn spec_ld_a_hlid(self, inc: bool) -> (CpuState, u8) {
        let hl = if inc { wadd16(self.hl, 1) } else { wsub16(self.hl, 1) };
        (self.with_r8(R8::A, self.read(self.hl)).with_r16(R16::HL, hl), 2)
    }

    /// LD (n16), SP: SP stored little-endian.
    #[verifier::opaque]
    pub open spec fn spec_ld_n16_sp(self, clk: Seq<u64>) -> (CpuState, u8) {
        let n = self.imm16();
        (self.after_imm16().write(n, lo_byte(self.sp), clk[0]).write(wadd16(n, 1), hi_byte(self.sp), clk[1]), 5)
    }

    #[verifier::opaque]
    pub open spec fn spec_ld_hl_sp_e8(self) -> (CpuState, u8) {
        let (r, h, c) = sp_offset(self.sp, self.imm8());
        (self.after_imm8().with_flags(false, false, h, c).with_r16(R16::HL, r), 3)
    }

    #[verifier::opaque]
    pub open spec fn spec_ld_sp_hl(self) -> (CpuState, u8) {
        (self.with_r16(R16::SP, self.hl), 2)
    }

    #[verifier::opaque]
    pub open spec fn spec_ldh_n16_a(self, clk: Seq<u64>) -> (CpuState, u8) {
        (self.after_imm8().write((0xFF00 + self.imm8()) as u16, self.a(), clk[0]), 3)
    }

    #[verifier::opaque]
    pub open spec fn spec_ldh_a_n16(self) -> (CpuState, u8) {
        (self.after_imm8().with_r8(R8::A, self.read((0xFF00 + self.imm8()) as u16)), 3)
    }

    #[verifier::opaque]
    pub open spec fn spec_ldh_c_a(self, clk: Seq<u64>) -> (CpuState, u8) {
        (self.write((0xFF00 + self.r8(R8::C)) as u16, self.a(), clk[0]), 2)
    }

    #[verifier::opaque]
    pub open spec fn spec_ldh_a_c(self) -> (CpuState, u8) {
        (self.with_r8(R8::A, self.read((0xFF00 + self.r8(R8::C)) as u16)), 2)
    }

    #[verifier::opaque]
    pub open spec fn spec_daa(self) -> (CpuState, u8) {
        let (r, c) = daa_result(self.a(), self.nf(), self.hf(), self.cf());
        (self.with_r8(R8::A, r).with_flags(r == 0, self.nf(), false, c), 1)
    }

    #[verifier::opaque]
    pub open spec fn spec_cpl(self) -> (CpuState, u8) {
        let s = self.with_r8(R8::A, !self.a());
        (s.with_flags(s.zf(), true, true, s.cf()), 1)
    }

    #[verifier::opaque]
    pub open spec fn spec_scf(self) -> (CpuState, u8) {
        (self.with_flags(self.zf(), false, false, true), 1)
    }

    #[verifier::opaque]
    pub open spec fn spec_ccf(self) -> (CpuState, u8) {
        (self.with_flags(self.zf(), false, false, !self.cf()), 1)
    }

    #[verifier::opaque]
    pub open spec fn spec_inc_r8(self, r: R8) -> (CpuState, u8) {
        let v = self.r8(r);
        let res = wadd8(v, 1);
        (self.with_flags(res == 0, false, v & 0xf == 0xf, self.cf()).with_r8(r, res), 1)
    }

    #[verifier::opaque]
    pub open spec fn spec_dec_r8(self, r: R8) -> (CpuState, u8) {
        let v = self.r8(r);
        let res = wsub8(v, 1);
        (self.with_flags(res == 0, true, v & 0xf == 0, self.cf()).with_r8(r, res), 1)
    }

    #[verifier::opaque]
    pub open spec fn spec_inc_hl(self, clk: Seq<u64>) -> (CpuState, u8) {
        let v = self.read(self.hl);
        let res = wadd8(v, 1);
        (self.with_flags(res == 0, false, v & 0xf == 0xf, self.cf()).write(self.hl, res, clk[0]), 3)
    }

    #[verifier::opaque]
    pub open spec fn spec_dec_hl(self, clk: Seq<u64>) -> (CpuState, u8) {
        let v = self.read(self.hl);
        let res = wsub8(v, 1);
        (self.with_flags(res == 0, true, v & 0xf == 0, self.cf()).write(self.hl, res, clk[0]), 3)
    }

    #[verifier::opaque]
    pub open spec fn spec_inc_r16(self, r: R16) -> (CpuState, u8) {
        (self.with_r16(r, wadd16(self.r16(r), 1)), 2)
    }

    #[verifier::opaque]
    pub open spec fn spec_dec_r16(self, r: R16) -> (CpuState, u8) {
        (self.with_r16(r, wsub16(self.r16(r), 1)), 2)
    }

    /// An ALU operation on A and `v` (a register or (HL) already read).
    #[verifier::opaque]
    pub open spec fn spec_alu_v(self, kind: u8, v: u8, cycles: u8) -> (CpuState, u8) {
        (self.alu(kind, v), cycles)
    }

    /// An ALU operation on A and the immediate byte.
    #[verifier::opaque]
    pub open spec fn spec_alu_n8(self, kind: u8) -> (CpuState, u8) {
        (self.after_imm8().alu(kind, self.imm8()), 2)
    }

    #[verifier::opaque]
    pub open spec fn spec_add_hl_r16(self, v: u16) -> (CpuState, u8) {
        let r = (self.hl + v) as u32;
        (self.with_flags(self.zf(), false, ((self.hl as u32 ^ v as u32 ^ r) & 0x1000) != 0, (r & 0x10000) != 0)
            .with_r16(R16::HL, (r % 0x10000) as u16), 2)
    }

    #[verifier::opaque]
    pub open spec fn spec_add_sp_e8(self) -> (CpuState, u8) {
        let (r, h, c) = sp_offset(self.sp, self.imm8());
        (self.after_imm8().with_flags(false, false, h, c).with_r16(R16::SP, r), 4)
    }

    /// The operand `reg` of a CB instruction: a register, or (HL) for 6.
    pub open spec fn cb_operand(self, reg: u8) -> u8 {
        if reg == 6 { self.read(self.hl) } else { self.r8(reg_of(reg)) }
    }

    /// The operand `reg` replaced by `v` (clock `t` for (HL)).
    pub open spec fn cb_store(self, reg: u8, v: u8, t: u64) -> CpuState {
        if reg == 6 { self.write(self.hl, v, t) } else { self.with_r8(reg_of(reg), v) }
    }

    /// RLC, RRC, RL, RR, SLA, SRA, SWAP, SRL on an operand.
    #[verifier::opaque]
    pub open spec fn spec_shift(self, kind: u8, reg: u8, clk: Seq<u64>) -> CpuState {
        let (r, c) = shift_op(kind, self.cb_operand(reg), self.cf());
        self.with_flags(r == 0, false, false, c).cb_store(reg, r, clk[0])
    }

    /// BIT: Z set when the bit is clear.
    #[verifier::opaque]
    pub open spec fn spec_bit(self, bit: u8, reg: u8) -> CpuState {
        self.with_flags(self.cb_operand(reg) & (1u8 << bit) == 0, false, true, self.cf())
    }

    /// RES (`set` false) or SET (`set` true) of a bit of an operand.
    #[verifier::opaque]
    pub open spec fn spec_res_set(self, bit: u8, reg: u8, set: bool, clk: Seq<u64>) -> CpuState {
        let v = self.cb_operand(reg);
        self.cb_store(reg, if set { v | (1u8 << bit) } else { v & !(1u8 << bit) }, clk[0])
    }

    /// A CB-prefixed instruction (PC at its second byte): rotations and
    /// shifts, BIT, RES and SET on a register or (HL).
    #[verifier::opaque]
    pub open spec fn spec_cb(self, clk: Seq<u64>) -> (CpuState, u8) {
        let op = self.imm8();
        let s = self.after_imm8();
        let reg = op % 8;
        let kind = op / 8;
        let cycles: u8 = if reg != 6 { 2 } else if 8 <= kind < 16 { 3 } else { 4 };
        let r = if kind < 8 {
            s.spec_shift(kind, reg, clk)
        } else if kind < 16 {
            s.spec_bit((kind - 8) as u8, reg)
        } else {
            s.spec_res_set((kind % 8) as u8, reg, kind >= 24, clk)
        };
        (r, cycles)
    }
}

/// The register of a 3-bit operand field (not 6).
pub fn reg_code(i: u8) -> (r: R8)
    ensures
        r == reg_of(i),
{
    if i == 0 {
        R8::B
    } else if i == 1 {
        R8::C
    } else if i == 2 {
        R8::D
    } else if i == 3 {
        R8::E
    } else if i == 4 {
        R8::H
    } else if i == 5 {
        R8::L
    } else {
        R8::A
    }
}

/// The sign-extension of a byte to 16 bits.
pub fn sign_extend(n: u8) -> (r: u16)
    ensures
        r == ext16(n),
{
    if n < 128 { n as u16 } else { n as u16 + 0xFF00 }
}

/// HL after an LD (HL+)/(HL-) access.
pub fn hl_step(hl: u16, inc: bool) -> (r: u16)
    ensures
        r == if inc { wadd16(hl, 1) } else { wsub16(hl, 1) },
{
    if inc { hl.wrapping_add(1) } else { hl.wrapping_sub(1) }
}

/// The rotate/shift `kind` of `v` with carry in `cf`: result and carry out.
pub fn shift_value(kind: u8, v: u8, cf: bool) -> (r: (u8, bool))
    requires
        kind < 8,
    ensures
        r == shift_op(kind, v, cf),
{
    if kind == 0 {
        ((v << 1u8) | (if v & 0x80 == 0x80 { 1u8 } else { 0u8 }), v & 0x80 == 0x80)
    } else if kind == 1 {
        ((v >> 1u8) | (if v & 0x01 == 0x01 { 0x80u8 } else { 0u8 }), v & 0x01 == 0x01)
    } else if kind == 2 {
        ((v << 1u8) | (if cf { 1u8 } else { 0u8 }), v & 0x80 == 0x80)
    } else if kind == 3 {
        ((v >> 1u8) | (if cf { 0x80u8 } else { 0u8 }), v & 0x01 == 0x01)
    } else if kind == 4 {
        (v << 1u8, v & 0x80 == 0x80)
    } else if kind == 5 {
        ((v & 0x80) | (v >> 1u8), v & 0x01 == 0x01)
    } else if kind == 6 {
        (((v & 0x0F) << 4u8) | (v >> 4u8), false)
    } else {
        (v >> 1u8, v & 0x01 == 0x01)
    }
}

impl Cpu {
    pub(crate) fn nop(&mut self) -> (r: u8)
        requires
            old(self).wf(),
        ensures
            final(self).ran(*old(self), 0),
            (final(self)@, r) == old(self)@.spec_nop(),
            1 <= r <= 6,
    {
        reveal(CpuState::spec_nop);
        1
    }

    pub(crate) fn ei(&mut self) -> (r: u8)
        requires
            old(self).wf(),
        ensures
            final(self).ran(*old(self), 0),
            (final(self)@, r) == old(self)@.spec_ei(),
            1 <= r <= 6,
    {
        reveal(CpuState::spec_ei);
        if !self.ime {
            self.scheduled_ei = true;
        }
        1
    }

    pub(crate) fn di(&mut self) -> (r: u8)
        requires
            old(self).wf(),
        ensures
            final(self).ran(*old(self), 0),
            (final(self)@, r) == old(self)@.spec_di(),
            1 <= r <= 6,
    {
        reveal(CpuState::spec_di);
        self.ime = false;
        1
    }

    pub(crate) fn halt(&mut self) -> (r: u8)
        requires
            old(self).wf(),
        ensures
            final(self).ran(*old(self), 0),
            (final(self)@, r) == old(self)@.spec_halt(),
            1 <= r <= 6,
    {
        reveal(CpuState::spec_halt);
        self.halt_triggered = true;
        self.halted = true;
        1
    }

    pub(crate) fn reti(&mut self) -> (r: u8)
        requires
            old(self).wf(),
        ensures
            final(self).ran(*old(self), 0),
            (final(self)@, r) == old(self)@.spec_reti(),
            1 <= r <= 6,
    {
        reveal(CpuState::spec_reti);
        let res = self.pop_stack();
        self.set_pc(res);
        self.ime = true;
        4
    }

    pub(crate) fn rotate_a(&mut self, kind: u8) -> (r: u8)
        requires
            old(self).wf(),
            kind < 4,
        ensures
            final(self).ran(*old(self), 0),
            (final(self)@, r) == old(self)@.spec_rotate_a(kind),
            1 <= r <= 6,
    {
        reveal(CpuState::spec_rotate_a);
        let a = self.a();
        let res = self.shift_and_set_flags(kind, a);
        self.set_a(res);
        self.set_zflag(false);
        1
    }

    pub(crate) fn jp_n16(&mut self) -> (r: u8)
        requires
            old(self).wf(),
        ensures
            final(self).ran(*old(self), 0),
            (final(self)@, r) == old(self)@.spec_jp_n16(),
            1 <= r <= 6,
    {
        reveal(CpuState::spec_jp_n16);
        let n16 = self.n16();
        self.set_pc(n16);
        4
    }

    pub(crate) fn jp_cc_n16(&mut self, cc: bool) -> (r: u8)
        requires
            old(self).wf(),
        ensures
            final(self).ran(*old(self), 0),
            (final(self)@, r) == old(self)@.spec_jp_cc_n16(cc),
            1 <= r <= 6,
    {
        reveal(CpuState::spec_jp_cc_n16);
        let n16 = self.n16();
        if cc {
            self.set_pc(n16);
            4
        } else {
            3
        }
    }

    pub(crate) fn jp_hl(&mut self) -> (r: u8)
        requires
            old(self).wf(),
        ensures
            final(self).ran(*old(self), 0),
            (final(self)@, r) == old(self)@.spec_jp_hl(),
            1 <= r <= 6,
    {
        reveal(CpuState::spec_jp_hl);
        let hl = self.hl.full();
        self.set_pc(hl);
        1
    }

    #[verifier::rlimit(30)]
    pub(crate) fn jr_e8(&mut self) -> (r: u8)
        requires
            old(self).wf(),
        ensures
            final(self).ran(*old(self), 0),
            (final(self)@, r) == old(self)@.spec_jr_e8(),
            1 <= r <= 6,
    {
        reveal(CpuState::spec_jr_e8);
        let n = self.n8();
        let pc = self.pc.full().wrapping_add(sign_extend(n));
        self.set_pc(pc);
        3
    }

    #[verifier::rlimit(40)]
    pub(crate) fn jr_cc_e8(&mut self, cc: bool) -> (r: u8)
        requires
            old(self).wf(),
        ensures
            final(self).ran(*old(self), 0),
            (final(self)@, r) == old(self)@.spec_jr_cc_e8(cc),
            1 <= r <= 6,
    {
        reveal(CpuState::spec_jr_cc_e8);
        let n = self.n8();
        if cc {
            let pc = self.pc.full().wrapping_add(sign_extend(n));
            self.set_pc(pc);
            3
        } else {
            2
        }
    }

    pub(crate) fn rst(&mut self, vec: u16) -> (r: u8)
        requires
            old(self).wf(),
        ensures
            final(self).ran(*old(self), 2),
            forall|ext: Seq<u64>| #[trigger] old(self)@.spec_rst(vec, final(self).clock_since(*old(self)) + ext) == (final(self)@, r),
            1 <= r <= 6,
    {
        reveal(CpuState::spec_rst);
        let ghost c0 = self.clock@;
        let pc = self.pc.full();
        self.push_stack(pc);
        self.set_pc(vec);
        4
    }

    pub(crate) fn call_n16(&mut self) -> (r: u8)
        requires
            old(self).wf(),
        ensures
            final(self).ran(*old(self), 2),
            forall|ext: Seq<u64>| #[trigger] old(self)@.spec_call_n16(final(self).clock_since(*old(self)) + ext) == (final(self)@, r),
            1 <= r <= 6,
    {
        reveal(CpuState::spec_call_n16);
        let ghost c0 = self.clock@;
        let n16 = self.n16();
        let pc = self.pc.full();
        self.push_stack(pc);
        self.set_pc(n16);
        6
    }

    pub(crate) fn call_cc_n16(&mut self, cc: bool) -> (r: u8)
        requires
            old(self).wf(),
        ensures
            final(self).ran(*old(self), (if cc { 2 } else { 0 })),
            forall|ext: Seq<u64>| #[trigger] old(self)@.spec_call_cc_n16(cc, final(self).clock_since(*old(self)) + ext) == (final(self)@, r),
            1 <= r <= 6,
    {
        reveal(CpuState::spec_call_cc_n16);
        let ghost c0 = self.clock@;
        let n16 = self.n16();
        if cc {
            let pc = self.pc.full();
            self.push_stack(pc);
            self.set_pc(n16);
            6
        } else {
                3
        }
    }

    pub(crate) fn ret(&mut self) -> (r: u8)
        requires
            old(self).wf(),
        ensures
            final(self).ran(*old(self), 0),
            (final(self)@, r) == old(self)@.spec_ret(),
            1 <= r <= 6,
    {
        reveal(CpuState::spec_ret);
        let res = self.pop_stack();
        self.set_pc(res);
        4
    }

    pub(crate) fn ret_cc(&mut self, cc: bool) -> (r: u8)
        requires
            old(self).wf(),
        ensures
            final(self).ran(*old(self), 0),
            (final(self)@, r) == old(self)@.spec_ret_cc(cc),
            1 <= r <= 6,
    {
        reveal(CpuState::spec_ret_cc);
        if cc {
            let res = self.pop_stack();
            self.set_pc(res);
            5
        } else {
            2
        }
    }

    pub(crate) fn pop_af(&mut self) -> (r: u8)
        requires
            old(self).wf(),
        ensures
            final(self).ran(*old(self), 0),
            (final(self)@, r) == old(self)@.spec_pop_af(),
            1 <= r <= 6,
    {
        reveal(CpuState::spec_pop_af);
        let res = self.pop_stack();
        self.af = Register(res & 0xFFF0);
        3
    }

    pub(crate) fn pop_r16(&mut self, reg: R16) -> (r: u8)
        requires
            old(self).wf(),
        ensures
            final(self).ran(*old(self), 0),
            (final(self)@, r) == old(self)@.spec_pop_r16(reg),
            1 <= r <= 6,
    {
        reveal(CpuState::spec_pop_r16);
        let res = self.pop_stack();
        self.set_r16(reg, res);
        3
    }

    pub(crate) fn push_af(&mut self) -> (r: u8)
        requires
            old(self).wf(),
        ensures
            final(self).ran(*old(self), 2),
            forall|ext: Seq<u64>| #[trigger] old(self)@.spec_push_af(final(self).clock_since(*old(self)) + ext) == (final(self)@, r),
            1 <= r <= 6,
    {
        reveal(CpuState::spec_push_af);
        let ghost c0 = self.clock@;
        let af = self.af.full();
        self.push_stack(af);
        4
    }

    pub(crate) fn push_r16(&mut self, reg: R16) -> (r: u8)
        requires
            old(self).wf(),
        ensures
            final(self).ran(*old(self), 2),
            forall|ext: Seq<u64>| #[trigger] old(self)@.spec_push_r16(reg, final(self).clock_since(*old(self)) + ext) == (final(self)@, r),
            1 <= r <= 6,
    {
        reveal(CpuState::spec_push_r16);
        let ghost c0 = self.clock@;
        let v = self.r16(reg);
        self.push_stack(v);
        4
    }

    pub(crate) fn ld_r8_r8(&mut self, d: R8, s: R8) -> (r: u8)
        requires
            old(self).wf(),
        ensures
            final(self).ran(*old(self), 0),
            (final(self)@, r) == old(self)@.spec_ld_r8_r8(d, s),
            1 <= r <= 6,
    {
        reveal(CpuState::spec_ld_r8_r8);
        let v = self.r8(s);
        self.set_r8(d, v);
        1
    }

    pub(crate) fn ld_r8_n8(&mut self, reg: R8) -> (r: u8)
        requires
            old(self).wf(),
        ensures
            final(self).ran(*old(self), 0),
            (final(self)@, r) == old(self)@.spec_ld_r8_n8(reg),
            1 <= r <= 6,
    {
        reveal(CpuState::spec_ld_r8_n8);
        let n8 = self.n8();
        self.set_r8(reg, n8);
        2
    }

    pub(crate) fn ld_r16_n16(&mut self, reg: R16) -> (r: u8)
        requires
            old(self).wf(),
        ensures
            final(self).ran(*old(self), 0),
            (final(self)@, r) == old(self)@.spec_ld_r16_n16(reg),
            1 <= r <= 6,
    {
        reveal(CpuState::spec_ld_r16_n16);
        let n16 = self.n16();
        self.set_r16(reg, n16);
        3
    }

    pub(crate) fn ld_hl_n8(&mut self) -> (r: u8)
        requires
            old(self).wf(),
        ensures
            final(self).ran(*old(self), 1),
            forall|ext: Seq<u64>| #[trigger] old(self)@.spec_ld_hl_n8(final(self).clock_since(*old(self)) + ext) == (final(self)@, r),
            1 <= r <= 6,
    {
        reveal(CpuState::spec_ld_hl_n8);
        let ghost c0 = self.clock@;
        let n8 = self.n8();
        let hl = self.hl.full();
        self.write_byte(hl, n8);
        3
    }

    pub(crate) fn ld_hl_r8(&mut self, reg: R8) -> (r: u8)
        requires
            old(self).wf(),
        ensures
            final(self).ran(*old(self), 1),
            forall|ext: Seq<u64>| #[trigger] old(self)@.spec_ld_hl_r8(reg, final(self).clock_since(*old(self)) + ext) == (final(self)@, r),
            1 <= r <= 6,
    {
        reveal(CpuState::spec_ld_hl_r8);
        let ghost c0 = self.clock@;
        let v = self.r8(reg);
        let hl = self.hl.full();
        self.write_byte(hl, v);
        2
    }

    pub(crate) fn ld_r8_hl(&mut self, reg: R8) -> (r: u8)
        requires
            old(self).wf(),
        ensures
            final(self).ran(*old(self), 0),
            (final(self)@, r) == old(self)@.spec_ld_r8_hl(reg),
            1 <= r <= 6,
    {
        reveal(CpuState::spec_ld_r8_hl);
        let v = self.read_byte(self.hl.full());
        self.set_r8(reg, v);
        2
    }

    pub(crate) fn ld_r16_a(&mut self, reg: R16) -> (r: u8)
        requires
            old(self).wf(),
        ensures
            final(self).ran(*old(self), 1),
            forall|ext: Seq<u64>| #[trigger] old(self)@.spec_ld_r16_a(reg, final(self).clock_since(*old(self)) + ext) == (final(self)@, r),
            1 <= r <= 6,
    {
        reveal(CpuState::spec_ld_r16_a);
        let ghost c0 = self.clock@;
        let addr = self.r16(reg);
        let a = self.a();
        self.write_byte(addr, a);
        2
    }

    pub(crate) fn ld_a_r16(&mut self, reg: R16) -> (r: u8)
        requires
            old(self).wf(),
        ensures
            final(self).ran(*old(self), 0),
            (final(self)@, r) == old(self)@.spec_ld_a_r16(reg),
            1 <= r <= 6,
    {
        reveal(CpuState::spec_ld_a_r16);
        let v = self.read_byte(self.r16(reg));
        self.set_a(v);
        2
    }

    pub(crate) fn ld_n16_a(&mut self) -> (r: u8)
        requires
            old(self).wf(),
        ensures
            final(self).ran(*old(self), 1),
            forall|ext: Seq<u64>| #[trigger] old(self)@.spec_ld_n16_a(final(self).clock_since(*old(self)) + ext) == (final(self)@, r),
            1 <= r <= 6,
    {
        reveal(CpuState::spec_ld_n16_a);
        let ghost c0 = self.clock@;
        let n16 = self.n16();
        let a = self.a();
        self.write_byte(n16, a);
        4
    }

    pub(crate) fn ld_a_n16(&mut self) -> (r: u8)
        requires
            old(self).wf(),
        ensures
            final(self).ran(*old(self), 0),
            (final(self)@, r) == old(self)@.spec_ld_a_n16(),
            1 <= r <= 6,
    {
        reveal(CpuState::spec_ld_a_n16);
        let n16 = self.n16();
        let v = self.read_byte(n16);
        self.set_a(v);
        4
    }

    #[verifier::rlimit(30)]
    pub(crate) fn ld_hlid_a(&mut self, inc: bool) -> (r: u8)
        requires
            old(self).wf(),
        ensures
            final(self).ran(*old(self), 1),
            forall|ext: Seq<u64>| #[trigger] old(self)@.spec_ld_hlid_a(inc, final(self).clock_since(*old(self)) + ext) == (final(self)@, r),
            1 <= r <= 6,
    {
        reveal(CpuState::spec_ld_hlid_a);
        let ghost c0 = self.clock@;
        let hl = self.hl.full();
        let a = self.a();
        self.write_byte(hl, a);
        self.hl = Register(hl_step(hl, inc));
        2
    }

    #[verifier::rlimit(30)]
    pub(crate) fn ld_a_hlid(&mut self, inc: bool) -> (r: u8)
        requires
            old(self).wf(),
        ensures
            final(self).ran(*old(self), 0),
            (final(self)@, r) == old(self)@.spec_ld_a_hlid(inc),
            1 <= r <= 6,
    {
        reveal(CpuState::spec_ld_a_hlid);
        let hl = self.hl.full();
        let v = self.read_byte(hl);
        self.set_a(v);
        self.hl = Register(hl_step(hl, inc));
        2
    }

    pub(crate) fn ld_n16_sp(&mut self) -> (r: u8)
        requires
            old(self).wf(),
        ensures
            final(self).ran(*old(self), 2),
            forall|ext: Seq<u64>| #[trigger] old(self)@.spec_ld_n16_sp(final(self).clock_since(*old(self)) + ext) == (final(self)@, r),
            1 <= r <= 6,
    {
        reveal(CpuState::spec_ld_n16_sp);
        let ghost c0 = self.clock@;
        let n16 = self.n16();
        let sp = self.sp.full();
        proof {
            crate::cpu::register::lemma_split_word(sp);
        }
        self.write_byte(n16, (sp & 0xFF) as u8);
        self.write_byte(n16.wrapping_add(1), ((sp & 0xFF00) >> 8u16) as u8);
        5
    }

    pub(crate) fn ld_hl_sp_e8(&mut self) -> (r: u8)
        requires
            old(self).wf(),
        ensures
            final(self).ran(*old(self), 0),
            (final(self)@, r) == old(self)@.spec_ld_hl_sp_e8(),
            1 <= r <= 6,
    {
        reveal(CpuState::spec_ld_hl_sp_e8);
        let res = self.sp_offset_and_set_flags();
        self.hl = Register(res);
        3
    }

    pub(crate) fn ld_sp_hl(&mut self) -> (r: u8)
        requires
            old(self).wf(),
        ensures
            final(self).ran(*old(self), 0),
            (final(self)@, r) == old(self)@.spec_ld_sp_hl(),
            1 <= r <= 6,
    {
        reveal(CpuState::spec_ld_sp_hl);
        self.sp = Register(self.hl.full());
        2
    }

    pub(crate) fn ldh_n16_a(&mut self) -> (r: u8)
        requires
            old(self).wf(),
        ensures
            final(self).ran(*old(self), 1),
            forall|ext: Seq<u64>| #[trigger] old(self)@.spec_ldh_n16_a(final(self).clock_since(*old(self)) + ext) == (final(self)@, r),
            1 <= r <= 6,
    {
        reveal(CpuState::spec_ldh_n16_a);
        let ghost c0 = self.clock@;
        let n = self.n8();
        let a = self.a();
        self.write_byte(0xFF00 + n as u16, a);
        3
    }

    pub(crate) fn ldh_a_n16(&mut self) -> (r: u8)
        requires
            old(self).wf(),
        ensures
            final(self).ran(*old(self), 0),
            (final(self)@, r) == old(self)@.spec_ldh_a_n16(),
            1 <= r <= 6,
    {
        reveal(CpuState::spec_ldh_a_n16);
        let n = self.n8();
        let v = self.read_byte(0xFF00 + n as u16);
        self.set_a(v);
        3
    }

    pub(crate) fn ldh_c_a(&mut self) -> (r: u8)
        requires
            old(self).wf(),
        ensures
            final(self).ran(*old(self), 1),
            forall|ext: Seq<u64>| #[trigger] old(self)@.spec_ldh_c_a(final(self).clock_since(*old(self)) + ext) == (final(self)@, r),
            1 <= r <= 6,
    {
        reveal(CpuState::spec_ldh_c_a);
        let ghost c0 = self.clock@;
        let c = self.r8(R8::C);
        let a = self.a();
        self.write_byte(0xFF00 + c as u16, a);
        2
    }

    pub(crate) fn ldh_a_c(&mut self) -> (r: u8)
        requires
            old(self).wf(),
        ensures
            final(self).ran(*old(self), 0),
            (final(self)@, r) == old(self)@.spec_ldh_a_c(),
            1 <= r <= 6,
    {
        reveal(CpuState::spec_ldh_a_c);
        let c = self.r8(R8::C);
        let v = self.read_byte(0xFF00 + c as u16);
        self.set_a(v);
        2
    }

    pub(crate) fn daa(&mut self) -> (r: u8)
        requires
            old(self).wf(),
        ensures
            final(self).ran(*old(self), 0),
            (final(self)@, r) == old(self)@.spec_daa(),
            1 <= r <= 6,
    {
        reveal(CpuState::spec_daa);
        let a = self.a();
        let n = self.nflag();
        let adjust0: u8 = (if self.cflag() { 0x60u8 } else { 0u8 }) | (if self.hflag() { 0x06u8 } else { 0u8 });
        let (res, adjust): (u8, u8) = if n {
            (a.wrapping_sub(adjust0), adjust0)
        } else {
            let adjust1: u8 = if a > 0x99 { adjust0 | 0x60 } else { adjust0 };
            let adjust2: u8 = if a & 0x0F > 0x09 { adjust1 | 0x06 } else { adjust1 };
            (a.wrapping_add(adjust2), adjust2)
        };
        self.set_a(res);
        self.set_all_flags(res == 0, n, false, adjust & 0x60 != 0);
        1
    }

    pub(crate) fn cpl(&mut self) -> (r: u8)
        requires
            old(self).wf(),
        ensures
            final(self).ran(*old(self), 0),
            (final(self)@, r) == old(self)@.spec_cpl(),
            1 <= r <= 6,
    {
        reveal(CpuState::spec_cpl);
        let a = self.a();
        self.set_a(!a);
        let z = self.zflag();
        let c = self.cflag();
        self.set_all_flags(z, true, true, c);
        1
    }

    pub(crate) fn scf(&mut self) -> (r: u8)
        requires
            old(self).wf(),
        ensures
            final(self).ran(*old(self), 0),
            (final(self)@, r) == old(self)@.spec_scf(),
            1 <= r <= 6,
    {
        reveal(CpuState::spec_scf);
        let z = self.zflag();
        self.set_all_flags(z, false, false, true);
        1
    }

    pub(crate) fn ccf(&mut self) -> (r: u8)
        requires
            old(self).wf(),
        ensures
            final(self).ran(*old(self), 0),
            (final(self)@, r) == old(self)@.spec_ccf(),
            1 <= r <= 6,
    {
        reveal(CpuState::spec_ccf);
        let z = self.zflag();
        let c = self.cflag();
        self.set_all_flags(z, false, false, !c);
        1
    }

    pub(crate) fn inc_r8(&mut self, reg: R8) -> (r: u8)
        requires
            old(self).wf(),
        ensures
            final(self).ran(*old(self), 0),
            (final(self)@, r) == old(self)@.spec_inc_r8(reg),
            1 <= r <= 6,
    {
        reveal(CpuState::spec_inc_r8);
        let v = self.r8(reg);
        let res = v.wrapping_add(1);
        let c = self.cflag();
        self.set_all_flags(res == 0, false, v & 0xf == 0xf, c);
        self.set_r8(reg, res);
        1
    }

    pub(crate) fn dec_r8(&mut self, reg: R8) -> (r: u8)
        requires
            old(self).wf(),
        ensures
            final(self).ran(*old(self), 0),
            (final(self)@, r) == old(self)@.spec_dec_r8(reg),
            1 <= r <= 6,
    {
        reveal(CpuState::spec_dec_r8);
        let v = self.r8(reg);
        let res = v.wrapping_sub(1);
        let c = self.cflag();
        self.set_all_flags(res == 0, true, v & 0xf == 0, c);
        self.set_r8(reg, res);
        1
    }

    #[verifier::rlimit(100)]
    pub(crate) fn inc_hl(&mut self) -> (r: u8)
        requires
            old(self).wf(),
        ensures
            final(self).ran(*old(self), 1),
            forall|ext: Seq<u64>| #[trigger] old(self)@.spec_inc_hl(final(self).clock_since(*old(self)) + ext) == (final(self)@, r),
            1 <= r <= 6,
    {
        reveal(CpuState::spec_inc_hl);
        let ghost c0 = self.clock@;
        let hl = self.hl.full();
        let v = self.read_byte(hl);
        let res = v.wrapping_add(1);
        let c = self.cflag();
        self.set_all_flags(res == 0, false, v & 0xf == 0xf, c);
        let ghost s1 = self@;
        self.write_byte(hl, res);
        proof {
            let t = self@.bus.cartridge.rtc_time();
            assert(self.clock_since(*old(self)) =~= seq![t]);
            assert(self@ == s1.write(hl, res, t));
            assert((self@, 3u8) == old(self)@.spec_inc_hl(seq![t]));
        }
        3
    }

    #[verifier::rlimit(100)]
    pub(crate) fn dec_hl(&mut self) -> (r: u8)
        requires
            old(self).wf(),
        ensures
            final(self).ran(*old(self), 1),
            forall|ext: Seq<u64>| #[trigger] old(self)@.spec_dec_hl(final(self).clock_since(*old(self)) + ext) == (final(self)@, r),
            1 <= r <= 6,
    {
        reveal(CpuState::spec_dec_hl);
        let ghost c0 = self.clock@;
        let hl = self.hl.full();
        let v = self.read_byte(hl);
        let res = v.wrapping_sub(1);
        let c = self.cflag();
        self.set_all_flags(res == 0, true, v & 0xf == 0, c);
        let ghost s1 = self@;
        self.write_byte(hl, res);
        proof {
            let t = self@.bus.cartridge.rtc_time();
            assert(self.clock_since(*old(self)) =~= seq![t]);
            assert(self@ == s1.write(hl, res, t));
            assert((self@, 3u8) == old(self)@.spec_dec_hl(seq![t]));
        }
        3
    }

    pub(crate) fn inc_r16(&mut self, reg: R16) -> (r: u8)
        requires
            old(self).wf(),
        ensures
            final(self).ran(*old(self), 0),
            (final(self)@, r) == old(self)@.spec_inc_r16(reg),
            1 <= r <= 6,
    {
        reveal(CpuState::spec_inc_r16);
        let v = self.r16(reg);
        self.set_r16(reg, v.wrapping_add(1));
        2
    }

    pub(crate) fn dec_r16(&mut self, reg: R16) -> (r: u8)
        requires
            old(self).wf(),
        ensures
            final(self).ran(*old(self), 0),
            (final(self)@, r) == old(self)@.spec_dec_r16(reg),
            1 <= r <= 6,
    {
        reveal(CpuState::spec_dec_r16);
        let v = self.r16(reg);
        self.set_r16(reg, v.wrapping_sub(1));
        2
    }

    pub(crate) fn add_hl_r16(&mut self, v: u16) -> (r: u8)
        requires
            old(self).wf(),
        ensures
            final(self).ran(*old(self), 0),
            (final(self)@, r) == old(self)@.spec_add_hl_r16(v),
            1 <= r <= 6,
    {
        reveal(CpuState::spec_add_hl_r16);
        let res = self.add16_and_set_flags(self.hl.full() as u32, v as u32);
        self.hl = Register(res);
        2
    }

    pub(crate) fn add_sp_e8(&mut self) -> (r: u8)
        requires
            old(self).wf(),
        ensures
            final(self).ran(*old(self), 0),
            (final(self)@, r) == old(self)@.spec_add_sp_e8(),
            1 <= r <= 6,
    {
        reveal(CpuState::spec_add_sp_e8);
        let res = self.sp_offset_and_set_flags();
        self.sp = Register(res);
        4
    }


    /// The rotate/shift `kind` of `v`, setting Z (result 0), N, H (clear)
    /// and C.
    pub(crate) fn shift_and_set_flags(&mut self, kind: u8, v: u8) -> (r: u8)
        requires
            kind < 8,
        ensures
            r == shift_op(kind, v, old(self)@.cf()).0,
            final(self)@ == old(self)@.with_flags(r == 0, false, false, shift_op(kind, v, old(self)@.cf()).1),
            final(self).clock == old(self).clock,
    {
        let cf = self.cflag();
        let (res, c) = shift_value(kind, v, cf);
        self.set_all_flags(res == 0, false, false, c);
        res
    }

    /// HL-style 16-bit addition: H from bit 11, C from bit 15; Z kept.
    pub(crate) fn add16_and_set_flags(&mut self, a: u32, b: u32) -> (r: u16)
        requires
            a <= 0xFFFF,
            b <= 0xFFFF,
        ensures
            r == ((a + b) % 0x10000) as u16,
            final(self)@ == old(self)@.with_flags(
                old(self)@.zf(),
                false,
                ((a ^ b ^ ((a + b) as u32)) & 0x1000) != 0,
                (((a + b) as u32) & 0x10000) != 0,
            ),
            final(self).clock == old(self).clock,
    {
        let r: u32 = a + b;
        let z = self.zflag();
        self.set_all_flags(z, false, (a ^ b ^ r) & 0x1000 != 0, r & 0x10000 != 0);
        (r % 0x10000) as u16
    }

    /// SP plus the signed immediate byte (moving PC past it), setting H and
    /// C from the low byte's addition and clearing Z and N.
    pub(crate) fn sp_offset_and_set_flags(&mut self) -> (r: u16)
        requires
            old(self).wf(),
        ensures
            r == sp_offset(old(self)@.sp, old(self)@.imm8()).0,
            final(self)@ == old(self)@.after_imm8().with_flags(
                false,
                false,
                sp_offset(old(self)@.sp, old(self)@.imm8()).1,
                sp_offset(old(self)@.sp, old(self)@.imm8()).2,
            ),
            final(self).clock == old(self).clock,
    {
        let sp = self.sp.full();
        let n = self.n8();
        let e: u16 = if n < 128 { n as u16 } else { n as u16 + 0xFF00 };
        let res = sp.wrapping_add(e);
        self.set_all_flags(false, false, (sp ^ e ^ res) & 0x10 != 0, (sp ^ e ^ res) & 0x100 != 0);
        res
    }

    /// `a - b - carry` (carry the C flag when `with_carry`), setting the flags.
    pub(crate) fn sub_and_set_flags(&mut self, a: u8, b: u8, with_carry: bool) -> (r: u8)
        ensures
            ({
                let carry: u32 = if with_carry && old(self)@.cf() { 1 } else { 0 };
                let f = sub_flags(a, b, carry);
                r == f.0 && final(self)@ == old(self)@.with_flags(f.1, f.2, f.3, f.4)
            }),
            final(self).clock == old(self).clock,
    {
        let carry: u32 = if with_carry && self.cflag() { 1 } else { 0 };
        let r: u32 = (a as u32).wrapping_sub(b as u32).wrapping_sub(carry);
        self.set_all_flags(r % 256 == 0, true, (a as u32 ^ b as u32 ^ r) & 0x10 != 0, r & 0x100 != 0);
        (r % 256) as u8
    }

    /// `a + b + carry` (carry the C flag when `with_carry`), setting the flags.
    pub(crate) fn add_and_set_flags(&mut self, a: u8, b: u8, with_carry: bool) -> (r: u8)
        ensures
            ({
                let carry: u32 = if with_carry && old(self)@.cf() { 1 } else { 0 };
                let f = add_flags(a, b, carry);
                r == f.0 && final(self)@ == old(self)@.with_flags(f.1, f.2, f.3, f.4)
            }),
            final(self).clock == old(self).clock,
    {
        let carry: u32 = if with_carry && self.cflag() { 1 } else { 0 };
        let r: u32 = a as u32 + b as u32 + carry;
        self.set_all_flags(r % 256 == 0, false, (a as u32 ^ b as u32 ^ r) & 0x10 != 0, r & 0x100 != 0);
        (r % 256) as u8
    }

    /// The ALU operation `kind` on A and `v`.
    pub(crate) fn alu_a(&mut self, kind: u8, v: u8)
        requires
            kind < 8,
        ensures
            final(self)@ == old(self)@.alu(kind, v),
            final(self).clock == old(self).clock,
    {
        let a = self.a();
        if kind == 0 || kind == 1 {
            let res = self.add_and_set_flags(a, v, kind == 1);
            self.set_a(res);
        } else if kind == 2 || kind == 3 || kind == 7 {
            let res = self.sub_and_set_flags(a, v, kind == 3);
            if kind != 7 {
                self.set_a(res);
            }
        } else {
            let res = if kind == 4 { a & v } else if kind == 5 { a ^ v } else { a | v };
            self.set_a(res);
            self.set_all_flags(res == 0, false, kind == 4, false);
        }
    }

    /// ADD, ADC, SUB, SBC, AND, XOR, OR or CP of A with a register value.
    pub(crate) fn alu_a_r8(&mut self, kind: u8, v: u8) -> (r: u8)
        requires
            old(self).wf(),
            kind < 8,
        ensures
            final(self).ran(*old(self), 0),
            (final(self)@, r) == old(self)@.spec_alu_v(kind, v, 1),
            1 <= r <= 6,
    {
        reveal(CpuState::spec_alu_v);
        self.alu_a(kind, v);
        1
    }

    /// ADD, ADC, SUB, SBC, AND, XOR, OR or CP of A with (HL).
    pub(crate) fn alu_a_hl(&mut self, kind: u8) -> (r: u8)
        requires
            old(self).wf(),
            kind < 8,
        ensures
            final(self).ran(*old(self), 0),
            (final(self)@, r) == old(self)@.spec_alu_v(kind, old(self)@.read(old(self)@.hl), 2),
            1 <= r <= 6,
    {
        reveal(CpuState::spec_alu_v);
        let v = self.read_byte(self.hl.full());
        self.alu_a(kind, v);
        2
    }

    /// ADD, ADC, SUB, SBC, AND, XOR, OR or CP of A with the immediate byte.
    pub(crate) fn alu_a_n8(&mut self, kind: u8) -> (r: u8)
        requires
            old(self).wf(),
            kind < 8,
        ensures
            final(self).ran(*old(self), 0),
            (final(self)@, r) == old(self)@.spec_alu_n8(kind),
            1 <= r <= 6,
    {
        reveal(CpuState::spec_alu_n8);
        let v = self.n8();
        self.alu_a(kind, v);
        2
    }

    /// Reads a CB operand: a register, or (HL) for 6.
    pub(crate) fn cb_operand(&self, reg: u8) -> (v: u8)
        requires
            self.wf(),
            reg < 8,
        ensures
            v == self@.cb_operand(reg),
    {
        if reg == 6 {
            self.read_byte(self.hl.full())
        } else {
            self.r8(reg_code(reg))
        }
    }

    /// Writes a CB operand: a register, or (HL) for 6.
    pub(crate) fn cb_store(&mut self, reg: u8, v: u8)
        requires
            old(self).wf(),
            reg < 8,
        ensures
            final(self).ran(*old(self), 1),
            final(self)@ == old(self)@.cb_store(reg, v, final(self).clock_since(*old(self))[0]),
            reg == 6 ==> final(self).clock_since(*old(self)).len() == 1,
    {
        if reg == 6 {
            let hl = self.hl.full();
            self.write_byte(hl, v);
            proof {
                let t = self@.bus.cartridge.rtc_time();
                assert(self.clock_since(*old(self)) =~= seq![t]);
            }
        } else {
            self.set_r8(reg_code(reg), v);
        }
    }

    /// RLC, RRC, RL, RR, SLA, SRA, SWAP or SRL of an operand.
    pub(crate) fn shift_operand(&mut self, kind: u8, reg: u8)
        requires
            old(self).wf(),
            kind < 8,
            reg < 8,
        ensures
            final(self).ran(*old(self), 1),
            forall|ext: Seq<u64>| #[trigger] old(self)@.spec_shift(kind, reg, final(self).clock_since(*old(self)) + ext) == final(self)@,
    {
        reveal(CpuState::spec_shift);
        let v = self.cb_operand(reg);
        let res = self.shift_and_set_flags(kind, v);
        self.cb_store(reg, res);
    }

    /// BIT: sets Z when the bit of the operand is clear.
    pub(crate) fn bit_u3(&mut self, bit: u8, reg: u8)
        requires
            old(self).wf(),
            bit < 8,
            reg < 8,
        ensures
            final(self).ran(*old(self), 0),
            final(self)@ == old(self)@.spec_bit(bit, reg),
    {
        reveal(CpuState::spec_bit);
        let v = self.cb_operand(reg);
        let c = self.cflag();
        self.set_all_flags(v & (1u8 << bit) == 0, false, true, c);
    }

    /// RES (`set` false) or SET (`set` true) of a bit of an operand.
    pub(crate) fn res_set_u3(&mut self, bit: u8, reg: u8, set: bool)
        requires
            old(self).wf(),
            bit < 8,
            reg < 8,
        ensures
            final(self).ran(*old(self), 1),
            forall|ext: Seq<u64>| #[trigger] old(self)@.spec_res_set(bit, reg, set, final(self).clock_since(*old(self)) + ext) == final(self)@,
    {
        reveal(CpuState::spec_res_set);
        let v = self.cb_operand(reg);
        self.cb_store(reg, if set { v | (1u8 << bit) } else { v & !(1u8 << bit) });
    }

    /// Executes a CB-prefixed instruction (the 0xCB already fetched).
    pub(crate) fn cb_execute(&mut self) -> (r: u8)
        requires
            old(self).wf(),
        ensures
            final(self).ran(*old(self), 1),
            forall|ext: Seq<u64>| #[trigger] old(self)@.spec_cb(final(self).clock_since(*old(self)) + ext) == (final(self)@, r),
            1 <= r <= 6,
    {
        reveal(CpuState::spec_cb);
        let op = self.n8();
        let reg = op % 8;
        let kind = op / 8;
        let cycles: u8 = if reg != 6 { 2 } else if 8 <= kind && kind < 16 { 3 } else { 4 };
        if kind < 8 {
            self.shift_operand(kind, reg);
        } else if kind < 16 {
            self.bit_u3(kind - 8, reg);
        } else {
            self.res_set_u3(kind % 8, reg, kind >= 24);
        }
        cycles
    }
}

} // verus!
