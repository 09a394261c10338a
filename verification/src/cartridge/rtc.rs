use vstd::prelude::*;
use vstd::arithmetic::power::pow;

verus! {

pub const RTC_REGISTERS_SIZE: usize = 5;

pub const RTC_SAVE_SIZE: usize = 13;

pub const SECONDS_PER_DAY: u64 = 86400;

/// The big-endian value of the first `n` bytes of `s`.
pub open spec fn be_value(s: Seq<u8>, n: nat) -> nat
    decreases n,
{
    if n == 0 || n > s.len() {
        0
    } else {
        be_value(s, (n - 1) as nat) * 256 + s[n - 1] as nat
    }
}

/// The `n` lowest bytes of `t` in big-endian order.
pub open spec fn be_bytes(t: nat, n: nat) -> Seq<u8>
    decreases n,
{
    if n == 0 {
        Seq::empty()
    } else {
        be_bytes(t / 256, (n - 1) as nat).push((t % 256) as u8)
    }
}

/// The day counter held in registers 3 (low 8 bits) and 4 (bit 0).
pub open spec fn days_of(regs: Seq<u8>) -> u64 {
    ((regs[4] as u64 & 0x01) * 256 + regs[3] as u64) as u64
}

/// The RTC registers (seconds, minutes, hours, days low, days high/flags)
/// after `elapsed` seconds have passed.
pub open spec fn advanced_registers(regs: Seq<u8>, elapsed: u64) -> Seq<u8> {
    let new_days = days_of(regs) + elapsed / SECONDS_PER_DAY;
    let flags = regs[4] & 0xFE;
    seq![
        ((regs[0] + elapsed) % 60) as u8,
        ((regs[1] + elapsed / 60) % 60) as u8,
        ((regs[2] + elapsed / 3600) % 24) as u8,
        (new_days % 256) as u8,
        if 256 <= new_days <= 511 { flags | 0x01 } else if new_days > 511 { flags | 0x80 } else { flags },
    ]
}

/// The clock after latching at `now` (no earlier than its register time):
/// advanced to `now`, with the readable registers showing the result.
pub open spec fn rtc_latched_at(rtc: Rtc, now: u64) -> Rtc {
    let u = rtc.spec_update_at(now);
    Rtc { out_registers: u.rtc_registers, ..u }
}

/// The later of a clock reading and a register time: a clock that reads
/// earlier than the register time counts as no time elapsed.
pub open spec fn later(now: u64, register_time: u64) -> u64 {
    if now < register_time { register_time } else { now }
}

/// The register time held in a save (its bytes 5..13, big-endian).
pub open spec fn saved_time(save: Seq<u8>) -> u64 {
    be_value(save.subrange(5, 13), 8) as u64
}

/// The clock a save holds, as it stands at the saved time: the saved
/// registers, latched registers zero, register 0 selected.
pub open spec fn restored(save: Seq<u8>) -> Rtc {
    Rtc {
        out_registers: spec_array_from(seq![0u8, 0, 0, 0, 0]),
        rtc_registers: spec_array_from(save.subrange(0, 5)),
        register_time: saved_time(save),
        active_register: 0,
    }
}

/// The clock a save holds, advanced to `now`.
pub open spec fn restored_at(save: Seq<u8>, now: u64) -> Rtc {
    restored(save).spec_update_at(later(now, saved_time(save)))
}

/// The MBC3 real-time clock.
#[derive(Clone, Copy)]
pub struct Rtc {
    pub out_registers: [u8; RTC_REGISTERS_SIZE],
    pub rtc_registers: [u8; RTC_REGISTERS_SIZE],
    pub register_time: u64,
    pub active_register: usize,
}

impl Rtc {
    pub open spec fn wf(self) -> bool {
        self.active_register < RTC_REGISTERS_SIZE
    }

    /// The clock after `update_registers_at(now)`.
    pub open spec fn spec_update_at(self, now: u64) -> Rtc {
        Rtc {
            rtc_registers: spec_array_from(advanced_registers(self.rtc_registers@, (now - self.register_time) as u64)),
            register_time: now,
            ..self
        }
    }

    /// A clock with all registers zero that counts from `now`.
    pub open spec fn spec_new(now: u64) -> Rtc {
        Rtc {
            out_registers: spec_array_from(seq![0u8, 0, 0, 0, 0]),
            rtc_registers: spec_array_from(seq![0u8, 0, 0, 0, 0]),
            register_time: now,
            active_register: 0,
        }
    }

    /// A clock with all registers zero that starts counting at `now`
    /// (seconds since the UNIX epoch, read by the caller).
    pub fn new(now: u64) -> (r: Self)
        ensures
            r.wf(),
            r.out_registers@ == seq![0u8, 0, 0, 0, 0],
            r.rtc_registers@ == seq![0u8, 0, 0, 0, 0],
            r.register_time == now,
            r.active_register == 0,
            r == Rtc::spec_new(now),
    {
        let r = Rtc { out_registers: [0u8; RTC_REGISTERS_SIZE], rtc_registers: [0u8; RTC_REGISTERS_SIZE], register_time: now, active_register: 0 };
        assert(r.out_registers@ =~= seq![0u8, 0, 0, 0, 0]);
        assert(r.rtc_registers@ =~= seq![0u8, 0, 0, 0, 0]);
        proof {
            lemma_array_from(r.out_registers, seq![0u8, 0, 0, 0, 0]);
            lemma_array_from(r.rtc_registers, seq![0u8, 0, 0, 0, 0]);
        }
        r
    }

    /// Restores registers and register time from a save (registers, then the
    /// time as a big-endian u64), without advancing the registers.
    pub fn from_save_at_saved_time(save: [u8; RTC_SAVE_SIZE]) -> (r: Self)
        ensures
            r.wf(),
            r.rtc_registers@ == save@.subrange(0, 5),
            r.out_registers@ == seq![0u8, 0, 0, 0, 0],
            r.register_time as nat == be_value(save@.subrange(5, 13), 8),
            r.active_register == 0,
    {
        let mut registers = [0u8; RTC_REGISTERS_SIZE];
        let mut i: usize = 0;
        while i < RTC_REGISTERS_SIZE
            invariant
                i <= RTC_REGISTERS_SIZE,
                forall|j: int| 0 <= j < i ==> registers@[j] == save@[j],
            decreases RTC_REGISTERS_SIZE - i,
        {
            registers[i] = save[i];
            i = i + 1;
        }
        assert(registers@ =~= save@.subrange(0, 5));
        let ghost tb = save@.subrange(5, 13);
        proof {
            vstd::arithmetic::power::lemma_pow0(256);
        }
        let mut t: u64 = 0;
        let mut k: usize = 0;
        while k < 8
            invariant
                k <= 8,
                tb == save@.subrange(5, 13),
                t as nat == be_value(tb, k as nat),
                (t as nat) < pow(256, k as nat),
            decreases 8 - k,
        {
            proof {
                lemma_be_step(tb, k as nat);
                vstd::arithmetic::power::lemma_pow_positive(256, k as nat);
                lemma_pow256_8();
                vstd::arithmetic::power::lemma_pow_increases(256, (k + 1) as nat, 8);
            }
            assert(t * 256 + save[5 + k] < pow(256, (k + 1) as nat)) by (nonlinear_arith)
                requires
                    (t as nat) < pow(256, k as nat),
                    pow(256, (k + 1) as nat) == pow(256, k as nat) * 256,
                    save[5 + k] < 256,
            ;
            assert(pow(256, (k + 1) as nat) <= pow(256, 8));
            t = t * 256 + save[5 + k] as u64;
            k = k + 1;
        }
        let r = Rtc { out_registers: [0u8; RTC_REGISTERS_SIZE], rtc_registers: registers, register_time: t, active_register: 0 };
        assert(r.out_registers@ =~= seq![0u8, 0, 0, 0, 0]);
        r
    }

    /// Restores the state of the registers and the register time from a
    /// save, then advances the registers to `now` (a `now` before the saved
    /// time counts as no time elapsed).
    pub fn from_save(save: [u8; RTC_SAVE_SIZE], now: u64) -> (r: Self)
        ensures
            r.wf(),
            r == restored_at(save@, now),
    {
        let mut rtc = Rtc::from_save_at_saved_time(save);
        proof {
            lemma_array_from(rtc.out_registers, seq![0u8, 0, 0, 0, 0]);
            lemma_array_from(rtc.rtc_registers, save@.subrange(0, 5));
        }
        let t = if now < rtc.register_time { rtc.register_time } else { now };
        rtc.update_registers_at(t);
        rtc
    }

    /// The save of a clock as it stands: registers, then the register time
    /// as a big-endian u64.
    pub fn to_save_at_saved_time(&self) -> (r: [u8; RTC_SAVE_SIZE])
        ensures
            r@.subrange(0, 5) == self.rtc_registers@,
            r@.subrange(5, 13) == be_bytes(self.register_time as nat, 8),
    {
        let mut save = [0u8; RTC_SAVE_SIZE];
        let mut i: usize = 0;
        while i < RTC_REGISTERS_SIZE
            invariant
                i <= RTC_REGISTERS_SIZE,
                forall|j: int| 0 <= j < i ==> save@[j] == self.rtc_registers@[j],
            decreases RTC_REGISTERS_SIZE - i,
        {
            save[i] = self.rtc_registers[i];
            i = i + 1;
        }
        let ghost prefix = save@.subrange(0, 5);
        assert(prefix =~= self.rtc_registers@);
        let mut t = self.register_time;
        let mut k: usize = 0;
        while k < 8
            invariant
                k <= 8,
                save@.subrange(0, 5) == self.rtc_registers@,
                be_bytes(self.register_time as nat, 8) == be_bytes(t as nat, (8 - k) as nat) + save@.subrange(13 - k, 13),
            decreases 8 - k,
        {
            let ghost before = save@;
            save[12 - k] = (t % 256) as u8;
            proof {
                assert(save@.subrange(0, 5) =~= before.subrange(0, 5));
                assert(save@.subrange(12 - k, 13) =~= seq![(t % 256) as u8] + before.subrange(13 - k, 13));
                let bb = be_bytes(t as nat, (8 - k) as nat);
                assert(bb == be_bytes((t / 256) as nat, (7 - k) as nat).push((t % 256) as u8));
                assert(be_bytes((t / 256) as nat, (7 - k) as nat).push((t % 256) as u8) + before.subrange(13 - k, 13)
                    =~= be_bytes((t / 256) as nat, (7 - k) as nat) + save@.subrange(12 - k, 13));
            }
            t = t / 256;
            k = k + 1;
        }
        assert(be_bytes(t as nat, 0) =~= Seq::<u8>::empty());
        assert(save@.subrange(5, 13) =~= be_bytes(t as nat, 0) + save@.subrange(5, 13));
        save
    }

    /// The save of the clock advanced to `now` (a `now` before the register
    /// time counts as no time elapsed): registers, then that time as a
    /// big-endian u64.
    pub fn to_save(&self, now: u64) -> (r: [u8; RTC_SAVE_SIZE])
        requires
            self.wf(),
        ensures
            r@ == self.save_bytes(now),
    {
        let mut rtc = *self;
        let t = if now < rtc.register_time { rtc.register_time } else { now };
        rtc.update_registers_at(t);
        let r = rtc.to_save_at_saved_time();
        assert(r@ =~= r@.subrange(0, 5) + r@.subrange(5, 13));
        r
    }

    /// The bytes of a save of the clock advanced to `now`: the advanced
    /// registers, then the time they were advanced to as a big-endian u64.
    pub open spec fn save_bytes(self, now: u64) -> Seq<u8> {
        let t = later(now, self.register_time);
        advanced_registers(self.rtc_registers@, (t - self.register_time) as u64) + be_bytes(t as nat, 8)
    }

    /// Selects the register that reads and writes go to (codes 0x08..=0x0C).
    pub fn set_active_reg(&mut self, byte: u8)
        requires
            0x08 <= byte <= 0x0C,
        ensures
            *final(self) == (Rtc { active_register: (byte - 8) as usize, ..*old(self) }),
    {
        self.active_register = byte as usize - 8;
    }

    /// Writes the selected (latched) register.
    pub fn write(&mut self, byte: u8)
        requires
            old(self).wf(),
        ensures
            final(self).wf(),
            final(self).out_registers@ == old(self).out_registers@.update(old(self).active_register as int, byte),
            final(self).rtc_registers == old(self).rtc_registers,
            final(self).register_time == old(self).register_time,
            final(self).active_register == old(self).active_register,
    {
        self.out_registers[self.active_register] = byte;
    }

    /// Reads the selected (latched) register.
    pub fn read(&self) -> (r: u8)
        requires
            self.wf(),
        ensures
            r == self.out_registers@[self.active_register as int],
    {
        self.out_registers[self.active_register]
    }

    /// Advances the clock data to `now` (a `now` before the register time
    /// counts as no time elapsed) and latches it onto the readable registers.
    pub fn latch_clock_data(&mut self, now: u64)
        requires
            old(self).wf(),
        ensures
            final(self).wf(),
            *final(self) == rtc_latched_at(*old(self), later(now, old(self).register_time)),
            final(self).out_registers == final(self).rtc_registers,
            final(self).rtc_registers@ == advanced_registers(
                old(self).rtc_registers@,
                (later(now, old(self).register_time) - old(self).register_time) as u64,
            ),
    {
        let t = if now < self.register_time { self.register_time } else { now };
        self.update_registers_at(t);
        self.out_registers = self.rtc_registers;
    }

    /// Advances the registers by the seconds from the register time to
    /// `now`, which becomes the register time.
    pub fn update_registers_at(&mut self, now: u64)
        requires
            old(self).wf(),
            now >= old(self).register_time,
        ensures
            final(self).wf(),
            *final(self) == old(self).spec_update_at(now),
            final(self).rtc_registers@ == advanced_registers(old(self).rtc_registers@, (now - old(self).register_time) as u64),
    {
        let elapsed = now - self.register_time;
        let old_regs = self.rtc_registers;
        proof {
            lemma_days_bound(old_regs@);
        }
        let d = self.get_days();
        self.rtc_registers[0] = ((self.rtc_registers[0] as u64 % 60 + elapsed % 60) % 60) as u8;
        self.rtc_registers[1] = ((self.rtc_registers[1] as u64 % 60 + (elapsed / 60) % 60) % 60) as u8;
        self.rtc_registers[2] = ((self.rtc_registers[2] as u64 % 24 + (elapsed / 3600) % 24) % 24) as u8;
        let new_days = d + elapsed / SECONDS_PER_DAY;
        self.rtc_registers[3] = (new_days % 256) as u8;
        self.rtc_registers[4] = self.rtc_registers[4] & 0xFE;
        if new_days >= 256 && new_days <= 511 {
            self.rtc_registers[4] = self.rtc_registers[4] | 0x01;
        } else if new_days > 511 {
            self.rtc_registers[4] = self.rtc_registers[4] | 0x80;
        }
        self.register_time = now;
        proof {
            lemma_add_mod(old_regs@[0] as int, elapsed as int, 60);
            lemma_add_mod(old_regs@[1] as int, (elapsed / 60) as int, 60);
            lemma_add_mod(old_regs@[2] as int, (elapsed / 3600) as int, 24);
            assert(self.rtc_registers@ =~= advanced_registers(old_regs@, elapsed));
            lemma_array_from(self.rtc_registers, advanced_registers(old_regs@, elapsed));
        }
    }

    fn get_days(&self) -> (r: u64)
        ensures
            r == days_of(self.rtc_registers@),
            r <= 511,
    {
        proof {
            lemma_days_bound(self.rtc_registers@);
        }
        let days_lo = self.rtc_registers[3] as u64;
        let days_hi = self.rtc_registers[4] as u64 & 0x01;
        days_hi * 256 + days_lo
    }
}

/// The 5-register array whose view is `s`.
pub open spec fn spec_array_from(s: Seq<u8>) -> [u8; RTC_REGISTERS_SIZE] {
    choose|a: [u8; RTC_REGISTERS_SIZE]| a@ == s
}

proof fn lemma_array_from(a: [u8; RTC_REGISTERS_SIZE], s: Seq<u8>)
    requires
        a@ == s,
    ensures
        spec_array_from(s) == a,
{
    broadcast use vstd::array::axiom_array_ext_equal;
    let c = spec_array_from(s);
    assert(c@ == s);
    assert(c =~= a);
}

proof fn lemma_days_bound(regs: Seq<u8>)
    requires
        regs.len() == RTC_REGISTERS_SIZE,
    ensures
        days_of(regs) <= 511,
        days_of(regs) == (regs[4] as u64 & 0x01) * 256 + regs[3] as u64,
{
    crate::bits::lemma_u8_nibbles(regs[4]);
    assert((regs[4] as u64 & 0x01) <= 1) by {
        crate::bits::lemma_u64_low_bit(regs[4] as u64);
    }
}

proof fn lemma_add_mod(a: int, b: int, m: int)
    requires
        0 <= a,
        0 <= b,
        0 < m,
    ensures
        (a % m + b % m) % m == (a + b) % m,
{
    vstd::arithmetic::div_mod::lemma_add_mod_noop(a, b, m);
}

proof fn lemma_pow256_8()
    ensures
        pow(256, 8) == 0x1_0000_0000_0000_0000,
{
    vstd::arithmetic::power::lemma_pow1(256);
    vstd::arithmetic::power::lemma_pow_adds(256, 1, 1);
    assert(pow(256, 2) == 65536);
    vstd::arithmetic::power::lemma_pow_adds(256, 2, 2);
    assert(pow(256, 4) == 0x1_0000_0000);
    vstd::arithmetic::power::lemma_pow_adds(256, 4, 4);
    assert(pow(256, 8) == 0x1_0000_0000 * 0x1_0000_0000);
}

proof fn lemma_be_step(s: Seq<u8>, k: nat)
    requires
        k < 8,
        s.len() == 8,
    ensures
        be_value(s, k + 1) == be_value(s, k) * 256 + s[k as int] as nat,
        pow(256, k + 1) == pow(256, k) * 256,
{
    vstd::arithmetic::power::lemma_pow_adds(256, k, 1);
    vstd::arithmetic::power::lemma_pow1(256);
}

/// The big-endian value of the `n` lowest bytes of `t` is `t` modulo 256^n.
pub proof fn lemma_be_roundtrip(t: nat, n: nat)
    ensures
        be_bytes(t, n).len() == n,
        be_value(be_bytes(t, n), n) == (t as int) % pow(256, n),
    decreases n,
{
    if n == 0 {
        vstd::arithmetic::power::lemma_pow0(256);
    } else {
        lemma_be_roundtrip(t / 256, (n - 1) as nat);
        let s = be_bytes(t, n);
        let p = be_bytes(t / 256, (n - 1) as nat);
        assert(s.len() == n);
        lemma_be_value_prefix(p, (t % 256) as u8, (n - 1) as nat);
        vstd::arithmetic::power::lemma_pow_positive(256, (n - 1) as nat);
        vstd::arithmetic::power::lemma_pow_adds(256, 1, (n - 1) as nat);
        vstd::arithmetic::power::lemma_pow1(256);
        vstd::arithmetic::div_mod::lemma_breakdown(t as int, 256, pow(256, (n - 1) as nat) as int);
        vstd::arithmetic::mul::lemma_mul_is_commutative(256, ((t / 256) as int % pow(256, (n - 1) as nat)));
    }
}

proof fn lemma_be_value_prefix(p: Seq<u8>, b: u8, n: nat)
    requires
        p.len() == n,
    ensures
        be_value(p.push(b), n + 1) == be_value(p, n) * 256 + b as nat,
{
    lemma_be_value_extend(p, b, n);
}

proof fn lemma_be_value_extend(p: Seq<u8>, b: u8, k: nat)
    requires
        k <= p.len(),
    ensures
        be_value(p.push(b), k) == be_value(p, k),
        k == p.len() ==> be_value(p.push(b), k + 1) == be_value(p, k) * 256 + b as nat,
    decreases k,
{
    if k > 0 {
        lemma_be_value_extend(p, b, (k - 1) as nat);
        assert(p.push(b)[k - 1] == p[k - 1]);
    }
    assert(be_value(p.push(b), k) == be_value(p, k));
    if k == p.len() {
        assert(p.push(b)[k as int] == b);
        assert(be_value(p.push(b), k + 1) == be_value(p.push(b), k) * 256 + p.push(b)[k as int] as nat);
    }
}

/// A save holds the register time so that restoring it gives the same time
/// back: the 8 bytes written by `to_save_at_saved_time` read back as the
/// register time in `from_save_at_saved_time`.
pub proof fn lemma_register_time_roundtrip(t: u64)
    ensures
        be_value(be_bytes(t as nat, 8), 8) == t,
{
    lemma_be_roundtrip(t as nat, 8);
    lemma_pow256_8();
    vstd::arithmetic::div_mod::lemma_small_mod(t as nat, pow(256, 8) as nat);
    assert((t as int) % pow(256, 8) == t);
}

/// Every 5-byte sequence is the view of an array.
proof fn lemma_array_exists(s: Seq<u8>)
    requires
        s.len() == RTC_REGISTERS_SIZE,
    ensures
        spec_array_from(s)@ == s,
{
    let a: [u8; RTC_REGISTERS_SIZE] = [s[0], s[1], s[2], s[3], s[4]];
    assert(a@ =~= s);
}

/// The big-endian value of `n` bytes is below 256^n.
proof fn lemma_be_value_bound(s: Seq<u8>, n: nat)
    requires
        n <= s.len(),
    ensures
        be_value(s, n) < pow(256, n),
    decreases n,
{
    if n == 0 {
        vstd::arithmetic::power::lemma_pow0(256);
    } else {
        lemma_be_value_bound(s, (n - 1) as nat);
        vstd::arithmetic::power::lemma_pow_adds(256, (n - 1) as nat, 1);
        vstd::arithmetic::power::lemma_pow1(256);
        let v = be_value(s, (n - 1) as nat);
        let p = pow(256, (n - 1) as nat);
        let b = s[n - 1];
        assert(v * 256 + b < p * 256) by (nonlinear_arith)
            requires
                v < p,
                b < 256,
        ;
    }
}

/// The `n` big-endian bytes of the value of the first `n` bytes of `s` are
/// those bytes.
proof fn lemma_be_bytes_of_value(s: Seq<u8>, n: nat)
    requires
        n <= s.len(),
    ensures
        be_bytes(be_value(s, n), n) == s.subrange(0, n as int),
    decreases n,
{
    if n == 0 {
        assert(s.subrange(0, 0) =~= Seq::<u8>::empty());
    } else {
        lemma_be_bytes_of_value(s, (n - 1) as nat);
        let v = be_value(s, (n - 1) as nat);
        let b = s[n - 1];
        let w = v * 256 + b as nat;
        assert(w / 256 == v && w % 256 == b) by (nonlinear_arith)
            requires
                w == v * 256 + b as nat,
                0 <= b < 256,
        ;
        assert(s.subrange(0, n as int) =~= s.subrange(0, n - 1).push(b));
    }
}

proof fn lemma_low_bit_restore(x: u8)
    ensures
        (x as u64 & 0x01) == 1 ==> (x & 0xFE) | 0x01 == x,
        (x as u64 & 0x01) == 0 ==> x & 0xFE == x,
        (x as u64 & 0x01) <= 1,
{
    assert((x as u64 & 0x01) == 1 ==> (x & 0xFE) | 0x01 == x) by (bit_vector);
    assert((x as u64 & 0x01) == 0 ==> x & 0xFE == x) by (bit_vector);
    assert((x as u64 & 0x01) <= 1) by (bit_vector);
}

/// Advancing valid registers by no time leaves them as they are.
proof fn lemma_advance_zero(regs: Seq<u8>)
    requires
        regs.len() == RTC_REGISTERS_SIZE,
        regs[0] < 60,
        regs[1] < 60,
        regs[2] < 24,
    ensures
        advanced_registers(regs, 0) == regs,
{
    lemma_low_bit_restore(regs[4]);
    lemma_days_bound(regs);
    assert(advanced_registers(regs, 0) =~= regs);
}

/// Restoring a save and saving it again, at a time no later than the saved
/// time, gives the save back, when its registers hold valid seconds,
/// minutes and hours.
pub proof fn lemma_save_roundtrip(save: Seq<u8>, now: u64)
    requires
        save.len() == RTC_SAVE_SIZE,
        save[0] < 60,
        save[1] < 60,
        save[2] < 24,
        now <= saved_time(save),
    ensures
        restored_at(save, now).save_bytes(now) == save,
{
    let regs = save.subrange(0, 5);
    let tb = save.subrange(5, 13);
    lemma_be_value_bound(tb, 8);
    lemma_pow256_8();
    let st = saved_time(save);
    assert(st as nat == be_value(tb, 8));
    lemma_array_exists(regs);
    lemma_advance_zero(regs);
    let r0 = restored(save);
    assert(r0.rtc_registers@ == regs);
    let r1 = restored_at(save, now);
    assert(r1.register_time == st);
    assert(r1.rtc_registers@ == regs);
    lemma_be_bytes_of_value(tb, 8);
    assert(tb.subrange(0, 8) =~= tb);
    assert(r1.save_bytes(now) == regs + be_bytes(st as nat, 8));
    assert(save =~= regs + tb);
}

} // verus!
