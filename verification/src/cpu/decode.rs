use vstd::prelude::*;
use crate::cpu::{Cpu, CpuState, R8, R16};
use crate::cpu::instr::{reg_code, reg_of};

verus! {

/// `s` extended with zeros to length `n` (unchanged if not shorter).
pub open spec fn padded(s: Seq<u64>, n: nat) -> Seq<u64> {
    if s.len() >= n { s } else { s + Seq::new((n - s.len()) as nat, |i: int| 0u64) }
}

impl CpuState {
    /// The loads 0x40..=0x7F (0x76 is HALT): `LD dst, src` with 6 meaning (HL).
    #[verifier::opaque]
    pub open spec fn spec_ld_block(self, op: u8, clk: Seq<u64>) -> (CpuState, u8) {
        let d = ((op - 0x40) / 8) as u8;
        let src = op % 8;
        if op == 0x76 {
            self.spec_halt()
        } else if src == 6 {
            self.spec_ld_r8_hl(reg_of(d))
        } else if d == 6 {
            self.spec_ld_hl_r8(reg_of(src), clk)
        } else {
            self.spec_ld_r8_r8(reg_of(d), reg_of(src))
        }
    }

    /// The ALU operations 0x80..=0xBF on A and a register or (HL).
    #[verifier::opaque]
    pub open spec fn spec_alu_block(self, op: u8) -> (CpuState, u8) {
        let kind = ((op - 0x80) / 8) as u8;
        let src = op % 8;
        if src == 6 {
            self.spec_alu_v(kind, self.read(self.hl), 2)
        } else {
            self.spec_alu_v(kind, self.r8(reg_of(src)), 1)
        }
    }

    /// The opcodes 0x00..=0x3F (0x10, STOP, excluded).
    #[verifier::opaque]
    pub open spec fn spec_low_block(self, op: u8, clk: Seq<u64>) -> (CpuState, u8) {
        if op < 0x10 {
            self.spec_low_block_00(op, clk)
        } else if op < 0x20 {
            self.spec_low_block_10(op, clk)
        } else if op < 0x30 {
            self.spec_low_block_20(op, clk)
        } else if op < 0x40 {
            self.spec_low_block_30(op, clk)
        } else {
            self.spec_nop()
        }
    }

    /// The opcodes 0x00..=0x0F.
    #[verifier::opaque]
    pub open spec fn spec_low_block_00(self, op: u8, clk: Seq<u64>) -> (CpuState, u8) {
        if op == 0x00 {
            self.spec_nop()
        } else if op == 0x01 {
            self.spec_ld_r16_n16(R16::BC)
        } else if op == 0x02 {
            self.spec_ld_r16_a(R16::BC, clk)
        } else if op == 0x03 {
            self.spec_inc_r16(R16::BC)
        } else if op == 0x04 {
            self.spec_inc_r8(R8::B)
        } else if op == 0x05 {
            self.spec_dec_r8(R8::B)
        } else if op == 0x06 {
            self.spec_ld_r8_n8(R8::B)
        } else if op == 0x07 {
            self.spec_rotate_a(0u8)
        } else if op == 0x08 {
            self.spec_ld_n16_sp(clk)
        } else if op == 0x09 {
            self.spec_add_hl_r16(self.bc)
        } else if op == 0x0A {
            self.spec_ld_a_r16(R16::BC)
        } else if op == 0x0B {
            self.spec_dec_r16(R16::BC)
        } else if op == 0x0C {
            self.spec_inc_r8(R8::C)
        } else if op == 0x0D {
            self.spec_dec_r8(R8::C)
        } else if op == 0x0E {
            self.spec_ld_r8_n8(R8::C)
        } else if op == 0x0F {
            self.spec_rotate_a(1u8)
        } else {
            self.spec_nop()
        }
    }

    /// The opcodes 0x10..=0x1F.
    #[verifier::opaque]
    pub open spec fn spec_low_block_10(self, op: u8, clk: Seq<u64>) -> (CpuState, u8) {
        if op == 0x11 {
            self.spec_ld_r16_n16(R16::DE)
        } else if op == 0x12 {
            self.spec_ld_r16_a(R16::DE, clk)
        } else if op == 0x13 {
            self.spec_inc_r16(R16::DE)
        } else if op == 0x14 {
            self.spec_inc_r8(R8::D)
        } else if op == 0x15 {
            self.spec_dec_r8(R8::D)
        } else if op == 0x16 {
            self.spec_ld_r8_n8(R8::D)
        } else if op == 0x17 {
            self.spec_rotate_a(2u8)
        } else if op == 0x18 {
            self.spec_jr_e8()
        } else if op == 0x19 {
            self.spec_add_hl_r16(self.de)
        } else if op == 0x1A {
            self.spec_ld_a_r16(R16::DE)
        } else if op == 0x1B {
            self.spec_dec_r16(R16::DE)
        } else if op == 0x1C {
            self.spec_inc_r8(R8::E)
        } else if op == 0x1D {
            self.spec_dec_r8(R8::E)
        } else if op == 0x1E {
            self.spec_ld_r8_n8(R8::E)
        } else if op == 0x1F {
            self.spec_rotate_a(3u8)
        } else {
            self.spec_nop()
        }
    }

    /// The opcodes 0x20..=0x2F.
    #[verifier::opaque]
    pub open spec fn spec_low_block_20(self, op: u8, clk: Seq<u64>) -> (CpuState, u8) {
        if op == 0x20 {
            self.spec_jr_cc_e8(!self.zf())
        } else if op == 0x21 {
            self.spec_ld_r16_n16(R16::HL)
        } else if op == 0x22 {
            self.spec_ld_hlid_a(true, clk)
        } else if op == 0x23 {
            self.spec_inc_r16(R16::HL)
        } else if op == 0x24 {
            self.spec_inc_r8(R8::H)
        } else if op == 0x25 {
            self.spec_dec_r8(R8::H)
        } else if op == 0x26 {
            self.spec_ld_r8_n8(R8::H)
        } else if op == 0x27 {
            self.spec_daa()
        } else if op == 0x28 {
            self.spec_jr_cc_e8(self.zf())
        } else if op == 0x29 {
            self.spec_add_hl_r16(self.hl)
        } else if op == 0x2A {
            self.spec_ld_a_hlid(true)
        } else if op == 0x2B {
            self.spec_dec_r16(R16::HL)
        } else if op == 0x2C {
            self.spec_inc_r8(R8::L)
        } else if op == 0x2D {
            self.spec_dec_r8(R8::L)
        } else if op == 0x2E {
            self.spec_ld_r8_n8(R8::L)
        } else if op == 0x2F {
            self.spec_cpl()
        } else {
            self.spec_nop()
        }
    }

    /// The opcodes 0x30..=0x3F.
    #[verifier::opaque]
    pub open spec fn spec_low_block_30(self, op: u8, clk: Seq<u64>) -> (CpuState, u8) {
        if op == 0x30 {
            self.spec_jr_cc_e8(!self.cf())
        } else if op == 0x31 {
            self.spec_ld_r16_n16(R16::SP)
        } else if op == 0x32 {
            self.spec_ld_hlid_a(false, clk)
        } else if op == 0x33 {
            self.spec_inc_r16(R16::SP)
        } else if op == 0x34 {
            self.spec_inc_hl(clk)
        } else if op == 0x35 {
            self.spec_dec_hl(clk)
        } else if op == 0x36 {
            self.spec_ld_hl_n8(clk)
        } else if op == 0x37 {
            self.spec_scf()
        } else if op == 0x38 {
            self.spec_jr_cc_e8(self.cf())
        } else if op == 0x39 {
            self.spec_add_hl_r16(self.sp)
        } else if op == 0x3A {
            self.spec_ld_a_hlid(false)
        } else if op == 0x3B {
            self.spec_dec_r16(R16::SP)
        } else if op == 0x3C {
            self.spec_inc_r8(R8::A)
        } else if op == 0x3D {
            self.spec_dec_r8(R8::A)
        } else if op == 0x3E {
            self.spec_ld_r8_n8(R8::A)
        } else if op == 0x3F {
            self.spec_ccf()
        } else {
            self.spec_nop()
        }
    }

    /// The opcodes 0xC0..=0xFF (unused opcodes act as NOP).
    #[verifier::opaque]
    pub open spec fn spec_high_block(self, op: u8, clk: Seq<u64>) -> (CpuState, u8) {
        if op < 0xD0 {
            self.spec_high_block_c0(op, clk)
        } else if op < 0xE0 {
            self.spec_high_block_d0(op, clk)
        } else if op < 0xF0 {
            self.spec_high_block_e0(op, clk)
        } else if op <= 0xFF {
            self.spec_high_block_f0(op, clk)
        } else {
            self.spec_nop()
        }
    }

    /// The opcodes 0xC0..=0xCF.
    #[verifier::opaque]
    pub open spec fn spec_high_block_c0(self, op: u8, clk: Seq<u64>) -> (CpuState, u8) {
        if op == 0xC0 {
            self.spec_ret_cc(!self.zf())
        } else if op == 0xC1 {
            self.spec_pop_r16(R16::BC)
        } else if op == 0xC2 {
            self.spec_jp_cc_n16(!self.zf())
        } else if op == 0xC3 {
            self.spec_jp_n16()
        } else if op == 0xC4 {
            self.spec_call_cc_n16(!self.zf(), clk)
        } else if op == 0xC5 {
            self.spec_push_r16(R16::BC, clk)
        } else if op == 0xC6 {
            self.spec_alu_n8(0u8)
        } else if op == 0xC7 {
            self.spec_rst(0x00, clk)
        } else if op == 0xC8 {
            self.spec_ret_cc(self.zf())
        } else if op == 0xC9 {
            self.spec_ret()
        } else if op == 0xCA {
            self.spec_jp_cc_n16(self.zf())
        } else if op == 0xCB {
            self.spec_cb(clk)
        } else if op == 0xCC {
            self.spec_call_cc_n16(self.zf(), clk)
        } else if op == 0xCD {
            self.spec_call_n16(clk)
        } else if op == 0xCE {
            self.spec_alu_n8(1u8)
        } else if op == 0xCF {
            self.spec_rst(0x08, clk)
        } else {
            self.spec_nop()
        }
    }

    /// The opcodes 0xD0..=0xDF.
    #[verifier::opaque]
    pub open spec fn spec_high_block_d0(self, op: u8, clk: Seq<u64>) -> (CpuState, u8) {
        if op == 0xD0 {
            self.spec_ret_cc(!self.cf())
        } else if op == 0xD1 {
            self.spec_pop_r16(R16::DE)
        } else if op == 0xD2 {
            self.spec_jp_cc_n16(!self.cf())
        } else if op == 0xD4 {
            self.spec_call_cc_n16(!self.cf(), clk)
        } else if op == 0xD5 {
            self.spec_push_r16(R16::DE, clk)
        } else if op == 0xD6 {
            self.spec_alu_n8(2u8)
        } else if op == 0xD7 {
            self.spec_rst(0x10, clk)
        } else if op == 0xD8 {
            self.spec_ret_cc(self.cf())
        } else if op == 0xD9 {
            self.spec_reti()
        } else if op == 0xDA {
            self.spec_jp_cc_n16(self.cf())
        } else if op == 0xDC {
            self.spec_call_cc_n16(self.cf(), clk)
        } else if op == 0xDE {
            self.spec_alu_n8(3u8)
        } else if op == 0xDF {
            self.spec_rst(0x18, clk)
        } else {
            self.spec_nop()
        }
    }

    /// The opcodes 0xE0..=0xEF.
    #[verifier::opaque]
    pub open spec fn spec_high_block_e0(self, op: u8, clk: Seq<u64>) -> (CpuState, u8) {
        if op == 0xE0 {
            self.spec_ldh_n16_a(clk)
        } else if op == 0xE1 {
            self.spec_pop_r16(R16::HL)
        } else if op == 0xE2 {
            self.spec_ldh_c_a(clk)
        } else if op == 0xE5 {
            self.spec_push_r16(R16::HL, clk)
        } else if op == 0xE6 {
            self.spec_alu_n8(4u8)
        } else if op == 0xE7 {
            self.spec_rst(0x20, clk)
        } else if op == 0xE8 {
            self.spec_add_sp_e8()
        } else if op == 0xE9 {
            self.spec_jp_hl()
        } else if op == 0xEA {
            self.spec_ld_n16_a(clk)
        } else if op == 0xEE {
            self.spec_alu_n8(5u8)
        } else if op == 0xEF {
            self.spec_rst(0x28, clk)
        } else {
            self.spec_nop()
        }
    }

    /// The opcodes 0xF0..=0xFF.
    #[verifier::opaque]
    pub open spec fn spec_high_block_f0(self, op: u8, clk: Seq<u64>) -> (CpuState, u8) {
        if op == 0xF0 {
            self.spec_ldh_a_n16()
        } else if op == 0xF1 {
            self.spec_pop_af()
        } else if op == 0xF2 {
            self.spec_ldh_a_c()
        } else if op == 0xF3 {
            self.spec_di()
        } else if op == 0xF5 {
            self.spec_push_af(clk)
        } else if op == 0xF6 {
            self.spec_alu_n8(6u8)
        } else if op == 0xF7 {
            self.spec_rst(0x30, clk)
        } else if op == 0xF8 {
            self.spec_ld_hl_sp_e8()
        } else if op == 0xF9 {
            self.spec_ld_sp_hl()
        } else if op == 0xFA {
            self.spec_ld_a_n16()
        } else if op == 0xFB {
            self.spec_ei()
        } else if op == 0xFE {
            self.spec_alu_n8(7u8)
        } else if op == 0xFF {
            self.spec_rst(0x38, clk)
        } else {
            self.spec_nop()
        }
    }

    /// The instruction at PC: its opcode is fetched (PC moved past it,
    /// unless the HALT bug repeats it) and executed.
    #[verifier::opaque]
    pub open spec fn spec_execute(self, clk: Seq<u64>) -> (CpuState, u8) {
        let op = self.read(self.pc);
        let s = if self.halt_bug { CpuState { halt_bug: false, ..self } } else { self.after_imm8() };
        s.spec_dispatch(op, clk)
    }

    /// The instruction with opcode `op`, PC past the opcode.
    #[verifier::opaque]
    pub open spec fn spec_dispatch(self, op: u8, clk: Seq<u64>) -> (CpuState, u8) {
        if 0x40 <= op < 0x80 {
            self.spec_ld_block(op, clk)
        } else if 0x80 <= op < 0xC0 {
            self.spec_alu_block(op)
        } else if op < 0x40 {
            self.spec_low_block(op, clk)
        } else {
            self.spec_high_block(op, clk)
        }
    }
}

impl Cpu {
    /// The loads 0x40..=0x7F (0x76 is HALT).
    fn execute_ld_block(&mut self, op: u8) -> (r: u8)
        requires
            old(self).wf(),
            0x40 <= op < 0x80,
        ensures
            final(self).ran(*old(self), 2),
            forall|ext: Seq<u64>| #[trigger] old(self)@.spec_ld_block(op, final(self).clock_since(*old(self)) + ext) == (final(self)@, r),
            1 <= r <= 6,
    {
        reveal(CpuState::spec_ld_block);
        let d = (op - 0x40) / 8;
        let src = op % 8;
        if op == 0x76 {
            self.halt()
        } else if src == 6 {
            self.ld_r8_hl(reg_code(d))
        } else if d == 6 {
            self.ld_hl_r8(reg_code(src))
        } else {
            self.ld_r8_r8(reg_code(d), reg_code(src))
        }
    }

    /// The ALU operations 0x80..=0xBF.
    fn execute_alu_block(&mut self, op: u8) -> (r: u8)
        requires
            old(self).wf(),
            0x80 <= op < 0xC0,
        ensures
            final(self).ran(*old(self), 2),
            (final(self)@, r) == old(self)@.spec_alu_block(op),
            1 <= r <= 6,
    {
        reveal(CpuState::spec_alu_block);
        let kind = (op - 0x80) / 8;
        let src = op % 8;
        if src == 6 {
            self.alu_a_hl(kind)
        } else {
            let v = self.r8(reg_code(src));
            self.alu_a_r8(kind, v)
        }
    }

    /// The opcodes 0x00..=0x3F (0x10, STOP, excluded).
    fn execute_low_block(&mut self, op: u8) -> (r: u8)
        requires
            old(self).wf(),
            0 <= op < 64,
            op != 0x10,
        ensures
            final(self).ran(*old(self), 2),
            forall|ext: Seq<u64>| #[trigger] old(self)@.spec_low_block(op, final(self).clock_since(*old(self)) + ext) == (final(self)@, r),
            1 <= r <= 6,
    {
        reveal(CpuState::spec_low_block);
        if op < 0x10 {
            self.execute_low_block_00(op)
        } else if op < 0x20 {
            self.execute_low_block_10(op)
        } else if op < 0x30 {
            self.execute_low_block_20(op)
        } else if op < 0x40 {
            self.execute_low_block_30(op)
        } else {
            self.nop()
        }
    }

    /// The opcodes 0x00..=0x0F.
    #[verifier::rlimit(50)]
    fn execute_low_block_00(&mut self, op: u8) -> (r: u8)
        requires
            old(self).wf(),
            0x00 <= op < 0x10,
        ensures
            final(self).ran(*old(self), 2),
            forall|ext: Seq<u64>| #[trigger] old(self)@.spec_low_block_00(op, final(self).clock_since(*old(self)) + ext) == (final(self)@, r),
            1 <= r <= 6,
    {
        reveal(CpuState::spec_low_block_00);
        match op {
            0x00 => self.nop(),
            0x01 => self.ld_r16_n16(R16::BC),
            0x02 => self.ld_r16_a(R16::BC),
            0x03 => self.inc_r16(R16::BC),
            0x04 => self.inc_r8(R8::B),
            0x05 => self.dec_r8(R8::B),
            0x06 => self.ld_r8_n8(R8::B),
            0x07 => self.rotate_a(0),
            0x08 => self.ld_n16_sp(),
            0x09 => {
                let v = self.r16(R16::BC);
                self.add_hl_r16(v)
            },
            0x0A => self.ld_a_r16(R16::BC),
            0x0B => self.dec_r16(R16::BC),
            0x0C => self.inc_r8(R8::C),
            0x0D => self.dec_r8(R8::C),
            0x0E => self.ld_r8_n8(R8::C),
            0x0F => self.rotate_a(1),
            _ => self.nop(),
        }
    }

    /// The opcodes 0x10..=0x1F.
    #[verifier::rlimit(50)]
    fn execute_low_block_10(&mut self, op: u8) -> (r: u8)
        requires
            old(self).wf(),
            0x10 <= op < 0x20,
            op != 0x10,
        ensures
            final(self).ran(*old(self), 2),
            forall|ext: Seq<u64>| #[trigger] old(self)@.spec_low_block_10(op, final(self).clock_since(*old(self)) + ext) == (final(self)@, r),
            1 <= r <= 6,
    {
        reveal(CpuState::spec_low_block_10);
        match op {
            0x11 => self.ld_r16_n16(R16::DE),
            0x12 => self.ld_r16_a(R16::DE),
            0x13 => self.inc_r16(R16::DE),
            0x14 => self.inc_r8(R8::D),
            0x15 => self.dec_r8(R8::D),
            0x16 => self.ld_r8_n8(R8::D),
            0x17 => self.rotate_a(2),
            0x18 => self.jr_e8(),
            0x19 => {
                let v = self.r16(R16::DE);
                self.add_hl_r16(v)
            },
            0x1A => self.ld_a_r16(R16::DE),
            0x1B => self.dec_r16(R16::DE),
            0x1C => self.inc_r8(R8::E),
            0x1D => self.dec_r8(R8::E),
            0x1E => self.ld_r8_n8(R8::E),
            0x1F => self.rotate_a(3),
            _ => self.nop(),
        }
    }

    /// The opcodes 0x20..=0x2F.
    #[verifier::rlimit(50)]
    fn execute_low_block_20(&mut self, op: u8) -> (r: u8)
        requires
            old(self).wf(),
            0x20 <= op < 0x30,
        ensures
            final(self).ran(*old(self), 2),
            forall|ext: Seq<u64>| #[trigger] old(self)@.spec_low_block_20(op, final(self).clock_since(*old(self)) + ext) == (final(self)@, r),
            1 <= r <= 6,
    {
        reveal(CpuState::spec_low_block_20);
        match op {
            0x20 => {
                let cc = !self.zflag();
                self.jr_cc_e8(cc)
            },
            0x21 => self.ld_r16_n16(R16::HL),
            0x22 => self.ld_hlid_a(true),
            0x23 => self.inc_r16(R16::HL),
            0x24 => self.inc_r8(R8::H),
            0x25 => self.dec_r8(R8::H),
            0x26 => self.ld_r8_n8(R8::H),
            0x27 => self.daa(),
            0x28 => {
                let cc = self.zflag();
                self.jr_cc_e8(cc)
            },
            0x29 => {
                let v = self.r16(R16::HL);
                self.add_hl_r16(v)
            },
            0x2A => self.ld_a_hlid(true),
            0x2B => self.dec_r16(R16::HL),
            0x2C => self.inc_r8(R8::L),
            0x2D => self.dec_r8(R8::L),
            0x2E => self.ld_r8_n8(R8::L),
            0x2F => self.cpl(),
            _ => self.nop(),
        }
    }

    /// The opcodes 0x30..=0x3F.
    #[verifier::rlimit(50)]
    fn execute_low_block_30(&mut self, op: u8) -> (r: u8)
        requires
            old(self).wf(),
            0x30 <= op < 0x40,
        ensures
            final(self).ran(*old(self), 2),
            forall|ext: Seq<u64>| #[trigger] old(self)@.spec_low_block_30(op, final(self).clock_since(*old(self)) + ext) == (final(self)@, r),
            1 <= r <= 6,
    {
        reveal(CpuState::spec_low_block_30);
        match op {
            0x30 => {
                let cc = !self.cflag();
                self.jr_cc_e8(cc)
            },
            0x31 => self.ld_r16_n16(R16::SP),
            0x32 => self.ld_hlid_a(false),
            0x33 => self.inc_r16(R16::SP),
            0x34 => self.inc_hl(),
            0x35 => self.dec_hl(),
            0x36 => self.ld_hl_n8(),
            0x37 => self.scf(),
            0x38 => {
                let cc = self.cflag();
                self.jr_cc_e8(cc)
            },
            0x39 => {
                let v = self.r16(R16::SP);
                self.add_hl_r16(v)
            },
            0x3A => self.ld_a_hlid(false),
            0x3B => self.dec_r16(R16::SP),
            0x3C => self.inc_r8(R8::A),
            0x3D => self.dec_r8(R8::A),
            0x3E => self.ld_r8_n8(R8::A),
            0x3F => self.ccf(),
            _ => self.nop(),
        }
    }

    /// The opcodes 0xC0..=0xFF (unused opcodes act as NOP).
    fn execute_high_block(&mut self, op: u8) -> (r: u8)
        requires
            old(self).wf(),
            192 <= op < 256,
        ensures
            final(self).ran(*old(self), 2),
            forall|ext: Seq<u64>| #[trigger] old(self)@.spec_high_block(op, final(self).clock_since(*old(self)) + ext) == (final(self)@, r),
            1 <= r <= 6,
    {
        reveal(CpuState::spec_high_block);
        if op < 0xD0 {
            self.execute_high_block_c0(op)
        } else if op < 0xE0 {
            self.execute_high_block_d0(op)
        } else if op < 0xF0 {
            self.execute_high_block_e0(op)
        } else if op <= 0xFF {
            self.execute_high_block_f0(op)
        } else {
            self.nop()
        }
    }

    /// The opcodes 0xC0..=0xCF.
    #[verifier::rlimit(50)]
    fn execute_high_block_c0(&mut self, op: u8) -> (r: u8)
        requires
            old(self).wf(),
            0xC0 <= op < 0xD0,
        ensures
            final(self).ran(*old(self), 2),
            forall|ext: Seq<u64>| #[trigger] old(self)@.spec_high_block_c0(op, final(self).clock_since(*old(self)) + ext) == (final(self)@, r),
            1 <= r <= 6,
    {
        reveal(CpuState::spec_high_block_c0);
        match op {
            0xC0 => {
                let cc = !self.zflag();
                self.ret_cc(cc)
            },
            0xC1 => self.pop_r16(R16::BC),
            0xC2 => {
                let cc = !self.zflag();
                self.jp_cc_n16(cc)
            },
            0xC3 => self.jp_n16(),
            0xC4 => {
                let cc = !self.zflag();
                self.call_cc_n16(cc)
            },
            0xC5 => self.push_r16(R16::BC),
            0xC6 => self.alu_a_n8(0),
            0xC7 => self.rst(0x00),
            0xC8 => {
                let cc = self.zflag();
                self.ret_cc(cc)
            },
            0xC9 => self.ret(),
            0xCA => {
                let cc = self.zflag();
                self.jp_cc_n16(cc)
            },
            0xCB => self.cb_execute(),
            0xCC => {
                let cc = self.zflag();
                self.call_cc_n16(cc)
            },
            0xCD => self.call_n16(),
            0xCE => self.alu_a_n8(1),
            0xCF => self.rst(0x08),
            _ => self.nop(),
        }
    }

    /// The opcodes 0xD0..=0xDF.
    #[verifier::rlimit(50)]
    fn execute_high_block_d0(&mut self, op: u8) -> (r: u8)
        requires
            old(self).wf(),
            0xD0 <= op < 0xE0,
        ensures
            final(self).ran(*old(self), 2),
            forall|ext: Seq<u64>| #[trigger] old(self)@.spec_high_block_d0(op, final(self).clock_since(*old(self)) + ext) == (final(self)@, r),
            1 <= r <= 6,
    {
        reveal(CpuState::spec_high_block_d0);
        match op {
            0xD0 => {
                let cc = !self.cflag();
                self.ret_cc(cc)
            },
            0xD1 => self.pop_r16(R16::DE),
            0xD2 => {
                let cc = !self.cflag();
                self.jp_cc_n16(cc)
            },
            0xD4 => {
                let cc = !self.cflag();
                self.call_cc_n16(cc)
            },
            0xD5 => self.push_r16(R16::DE),
            0xD6 => self.alu_a_n8(2),
            0xD7 => self.rst(0x10),
            0xD8 => {
                let cc = self.cflag();
                self.ret_cc(cc)
            },
            0xD9 => self.reti(),
            0xDA => {
                let cc = self.cflag();
                self.jp_cc_n16(cc)
            },
            0xDC => {
                let cc = self.cflag();
                self.call_cc_n16(cc)
            },
            0xDE => self.alu_a_n8(3),
            0xDF => self.rst(0x18),
            _ => self.nop(),
        }
    }

    /// The opcodes 0xE0..=0xEF.
    #[verifier::rlimit(50)]
    fn execute_high_block_e0(&mut self, op: u8) -> (r: u8)
        requires
            old(self).wf(),
            0xE0 <= op < 0xF0,
        ensures
            final(self).ran(*old(self), 2),
            forall|ext: Seq<u64>| #[trigger] old(self)@.spec_high_block_e0(op, final(self).clock_since(*old(self)) + ext) == (final(self)@, r),
            1 <= r <= 6,
    {
        reveal(CpuState::spec_high_block_e0);
        match op {
            0xE0 => self.ldh_n16_a(),
            0xE1 => self.pop_r16(R16::HL),
            0xE2 => self.ldh_c_a(),
            0xE5 => self.push_r16(R16::HL),
            0xE6 => self.alu_a_n8(4),
            0xE7 => self.rst(0x20),
            0xE8 => self.add_sp_e8(),
            0xE9 => self.jp_hl(),
            0xEA => self.ld_n16_a(),
            0xEE => self.alu_a_n8(5),
            0xEF => self.rst(0x28),
            _ => self.nop(),
        }
    }

    /// The opcodes 0xF0..=0xFF.
    #[verifier::rlimit(50)]
    fn execute_high_block_f0(&mut self, op: u8) -> (r: u8)
        requires
            old(self).wf(),
            0xF0 <= op < 0x100,
        ensures
            final(self).ran(*old(self), 2),
            forall|ext: Seq<u64>| #[trigger] old(self)@.spec_high_block_f0(op, final(self).clock_since(*old(self)) + ext) == (final(self)@, r),
            1 <= r <= 6,
    {
        reveal(CpuState::spec_high_block_f0);
        match op {
            0xF0 => self.ldh_a_n16(),
            0xF1 => self.pop_af(),
            0xF2 => self.ldh_a_c(),
            0xF3 => self.di(),
            0xF5 => self.push_af(),
            0xF6 => self.alu_a_n8(6),
            0xF7 => self.rst(0x30),
            0xF8 => self.ld_hl_sp_e8(),
            0xF9 => self.ld_sp_hl(),
            0xFA => self.ld_a_n16(),
            0xFB => self.ei(),
            0xFE => self.alu_a_n8(7),
            0xFF => self.rst(0x38),
            _ => self.nop(),
        }
    }

    /// Executes the instruction with opcode `op` (PC already past it).
    fn execute_opcode(&mut self, op: u8) -> (r: u8)
        requires
            old(self).wf(),
            op != 0x10,
        ensures
            final(self).ran(*old(self), 2),
            forall|ext: Seq<u64>| #[trigger] old(self)@.spec_dispatch(op, final(self).clock_since(*old(self)) + ext) == (final(self)@, r),
            1 <= r <= 6,
    {
        reveal(CpuState::spec_dispatch);
        if 0x40 <= op && op < 0x80 {
            self.execute_ld_block(op)
        } else if 0x80 <= op && op < 0xC0 {
            self.execute_alu_block(op)
        } else if op < 0x40 {
            self.execute_low_block(op)
        } else {
            self.execute_high_block(op)
        }
    }

    /// Executes the next instruction (a pending HALT bug makes the opcode
    /// at PC run without PC moving past it); returns its M-cycles. Every
    /// instruction is given two clock readings, used or not.
    #[verifier::rlimit(40)]
    pub(crate) fn execute_next_instruction(&mut self) -> (r: u8)
        requires
            old(self).wf(),
            old(self)@.read(old(self)@.pc) != 0x10,
        ensures
            final(self).wf(),
            final(self).clock@.len() == old(self).clock@.len() + 2,
            forall|i: int| 0 <= i < old(self).clock@.len() ==> #[trigger] final(self).clock@[i] == old(self).clock@[i],
            (final(self)@, r) == old(self)@.spec_execute(final(self).clock_since(*old(self))),
            1 <= r <= 6,
    {
        reveal(CpuState::spec_execute);
        let opcode = self.read_byte(self.pc.full());
        if self.halt_bug {
            self.halt_bug = false;
        } else {
            let pc = self.pc.full().wrapping_add(1);
            self.set_pc(pc);
        }
        let ghost mid = *self;
        let cycles = self.execute_opcode(opcode);
        let ghost used = self.clock_since(mid);
        let ghost target = (old(self).clock@.len() + 2) as nat;
        let ghost zeros = Seq::new((2 - used.len()) as nat, |i: int| 0u64);
        assert(mid@.spec_dispatch(opcode, used + zeros) == (self@, cycles));
        self.clock = Ghost(padded(self.clock@, target));
        assert(self.clock_since(*old(self)) =~= used + zeros);
        assert(mid@ == (if old(self)@.halt_bug {
            CpuState { halt_bug: false, ..old(self)@ }
        } else {
            old(self)@.after_imm8()
        }));
        cycles
    }
}

} // verus!
