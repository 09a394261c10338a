use vstd::prelude::*;

verus! {

/// DIV is incremented every 256 T-cycles / 64 M-cycles.
pub const T_CYCLES_PER_DIV_INC: u32 = 256;

/// Counts steps and reports how many whole periods have elapsed.
pub struct Stepper {
    pub steps_so_far: u32,
    pub period: u32,
}

impl Stepper {
    /// A stepper is well formed when its period is positive and the
    /// progress into the current period is below it.
    pub open spec fn wf(self) -> bool {
        0 < self.period && self.steps_so_far < self.period
    }

    /// The stepper after `step(steps)`.
    pub open spec fn spec_step(self, steps: u32) -> Stepper {
        Stepper {
            steps_so_far: ((self.steps_so_far + steps) % (self.period as int)) as u32,
            period: self.period,
        }
    }

    /// What `step(steps)` returns: the number of whole periods elapsed.
    pub open spec fn spec_periods(self, steps: u32) -> u32 {
        ((self.steps_so_far + steps) / (self.period as int)) as u32
    }

    /// Initializes a Stepper with initial steps and period (units are arbitrary).
    pub fn new(steps_so_far: u32, period: u32) -> (r: Self)
        ensures
            r.steps_so_far == steps_so_far,
            r.period == period,
    {
        Stepper { steps_so_far, period }
    }

    /// Steps through the given steps, returning the number of periods elapsed.
    pub fn step(&mut self, steps: u32) -> (r: u32)
        requires
            old(self).period > 0,
            old(self).steps_so_far + steps <= u32::MAX,
        ensures
            r == old(self).spec_periods(steps),
            *final(self) == old(self).spec_step(steps),
    {
        let total = self.steps_so_far + steps;
        let mut steps_to_take = total;
        let mut periods_elapsed: u32 = 0;
        while steps_to_take >= self.period
            invariant
                self.period > 0,
                steps_to_take + periods_elapsed * self.period == total,
                periods_elapsed <= total - steps_to_take,
            decreases steps_to_take,
        {
            assert((periods_elapsed + 1) * self.period == periods_elapsed * self.period
                + self.period) by (nonlinear_arith);
            steps_to_take = steps_to_take - self.period;
            periods_elapsed = periods_elapsed + 1;
        }
        proof {
            vstd::arithmetic::div_mod::lemma_fundamental_div_mod_converse(
                total as int,
                self.period as int,
                periods_elapsed as int,
                steps_to_take as int,
            );
        }
        self.steps_so_far = total % self.period;
        periods_elapsed
    }

    /// Changes the period.
    pub fn set_period(&mut self, period: u32)
        ensures
            final(self).period == period,
            final(self).steps_so_far == old(self).steps_so_far,
    {
        self.period = period;
    }
}

/// Stepping never loses or invents steps: the steps already counted plus
/// the new ones equal the elapsed periods times the period plus what is
/// left over, and what is left over stays below the period.
pub proof fn lemma_stepper_conserves_steps(s: Stepper, steps: u32)
    requires
        s.period > 0,
        s.steps_so_far + steps <= u32::MAX,
    ensures
        s.steps_so_far + steps == s.spec_periods(steps) * s.period + s.spec_step(steps).steps_so_far,
        s.spec_step(steps).wf(),
{
    let total = s.steps_so_far + steps;
    let p = s.period as int;
    vstd::arithmetic::div_mod::lemma_fundamental_div_mod(total, p);
    vstd::arithmetic::div_mod::lemma_mod_pos_bound(total, p);
    assert(0 <= total / p <= total) by (nonlinear_arith)
        requires
            p >= 1,
            total >= 0,
    {
        vstd::arithmetic::div_mod::lemma_div_pos_is_pos(total, p);
        vstd::arithmetic::div_mod::lemma_div_is_ordered_by_denominator(total, 1, p);
    }
    vstd::arithmetic::mul::lemma_mul_is_commutative(total / p, p);
    assert(s.spec_periods(steps) as int == total / p);
    assert(s.spec_step(steps).steps_so_far as int == total % p);
}

/// TIMA and whether it overflowed after `n` increments, reloading from TMA
/// on every overflow.
pub open spec fn tima_run(tima: u8, tma: u8, n: nat) -> (u8, bool)
    decreases n,
{
    if n == 0 {
        (tima, false)
    } else {
        let prev = tima_run(tima, tma, (n - 1) as nat);
        let next = ((prev.0 + 1) % 256) as u8;
        if next == 0 {
            (tma, true)
        } else {
            (next, prev.1)
        }
    }
}

/// The TIMA period in T-cycles selected by the low bits of TAC.
pub open spec fn tima_period(tac: u8) -> u32 {
    let sel = tac & 0x03;
    if sel == 0 {
        1024
    } else if sel == 1 {
        16
    } else if sel == 2 {
        64
    } else {
        256
    }
}

/// The DIV, TIMA, TMA and TAC timer registers.
pub struct Timer {
    pub div: u8,
    pub tima: u8,
    pub tma: u8,
    pub tac: u8,
    pub div_stepper: Stepper,
    pub tima_stepper: Stepper,
    /// A TMA write that takes effect after the next TIMA step.
    pub next_tma: Option<u8>,
}

impl Timer {
    pub open spec fn wf(self) -> bool {
        &&& self.div_stepper.wf()
        &&& self.div_stepper.period == T_CYCLES_PER_DIV_INC
        &&& 0 < self.tima_stepper.period
        &&& self.tima_stepper.steps_so_far < 1024
    }

    /// The timer after stepping TIMA over `t` T-cycles, with whether TIMA overflowed.
    pub open spec fn spec_step_tima(self, t: u32) -> (Timer, bool) {
        let st = Stepper { steps_so_far: self.tima_stepper.steps_so_far, period: tima_period(self.tac) };
        let n = st.spec_periods(t);
        let run = tima_run(self.tima, self.tma, n as nat);
        (
            Timer {
                tima: run.0,
                tma: match self.next_tma { Some(v) => v, None => self.tma },
                tima_stepper: st.spec_step(t),
                next_tma: None,
                ..self
            },
            run.1,
        )
    }

    /// The timer after `step(t)`, with whether TIMA overflowed.
    pub open spec fn spec_step(self, t: u32) -> (Timer, bool) {
        let ds = self.div_stepper;
        let div = if ds.spec_periods(t) > 0 { ((self.div + 1) % 256) as u8 } else { self.div };
        let after_div = Timer { div, div_stepper: ds.spec_step(t), ..self };
        if self.tac & 0x04 != 0 {
            after_div.spec_step_tima(t)
        } else {
            (after_div, false)
        }
    }

    /// What `read_io(addr)` returns.
    pub open spec fn spec_read_io(self, addr: usize) -> u8 {
        if addr == 0xFF04 {
            self.div
        } else if addr == 0xFF05 {
            self.tima
        } else if addr == 0xFF06 {
            self.tma
        } else {
            self.tac
        }
    }

    /// The timer after `write_io(addr, byte)`.
    pub open spec fn spec_write_io(self, addr: usize, byte: u8) -> Timer {
        if addr == 0xFF04 {
            Timer { div: 0, ..self }
        } else if addr == 0xFF05 {
            Timer { tima: byte, ..self }
        } else if addr == 0xFF06 {
            Timer { next_tma: Some(byte), ..self }
        } else {
            Timer { tac: byte, ..self }
        }
    }

    /// The state of a new timer: every register and counter cleared, TIMA
    /// counting in 1024-cycle periods.
    pub open spec fn spec_initial() -> Timer {
        Timer {
            div: 0,
            tima: 0,
            tma: 0,
            tac: 0,
            div_stepper: Stepper { steps_so_far: 0, period: T_CYCLES_PER_DIV_INC },
            tima_stepper: Stepper { steps_so_far: 0, period: 1024 },
            next_tma: None,
        }
    }

    /// A timer with every register cleared.
    pub fn new() -> (r: Self)
        ensures
            r.wf(),
            r == Timer::spec_initial(),
            r.div == 0 && r.tima == 0 && r.tma == 0 && r.tac == 0,
            r.div_stepper == (Stepper { steps_so_far: 0, period: T_CYCLES_PER_DIV_INC }),
            r.tima_stepper == (Stepper { steps_so_far: 0, period: 1024 }),
            r.next_tma.is_none(),
    {
        Timer {
            div: 0,
            tima: 0,
            tma: 0,
            tac: 0,
            div_stepper: Stepper::new(0, T_CYCLES_PER_DIV_INC),
            tima_stepper: Stepper::new(0, 1024),
            next_tma: None,
        }
    }

    /// Ticks the timer registers over the given period (in T-cycles); returns
    /// true if TIMA overflowed. The step counters must not overflow.
    pub fn step(&mut self, t_cycles: u32) -> (r: bool)
        requires
            old(self).wf(),
            old(self).div_stepper.steps_so_far + t_cycles <= u32::MAX,
            old(self).tima_stepper.steps_so_far + t_cycles <= u32::MAX,
        ensures
            final(self).wf(),
            (*final(self), r) == old(self).spec_step(t_cycles),
    {
        let steps = self.div_stepper.step(t_cycles);
        if steps > 0 {
            self.div = self.div.wrapping_add(1);
        }
        proof {
            lemma_stepper_conserves_steps(old(self).div_stepper, t_cycles);
        }
        if self.tac & 0x04 != 0 {
            self.step_tima(t_cycles)
        } else {
            false
        }
    }

    fn step_tima(&mut self, t_cycles: u32) -> (r: bool)
        requires
            old(self).wf(),
            old(self).tima_stepper.steps_so_far + t_cycles <= u32::MAX,
        ensures
            final(self).wf(),
            (*final(self), r) == old(self).spec_step_tima(t_cycles),
    {
        let sel = self.tac & 0x03;
        let period: u32 = if sel == 0 {
            1024
        } else if sel == 1 {
            16
        } else if sel == 2 {
            64
        } else {
            256
        };
        self.tima_stepper.set_period(period);
        let ghost st = self.tima_stepper;
        assert(st == (Stepper { steps_so_far: old(self).tima_stepper.steps_so_far, period: tima_period(old(self).tac) }));
        proof {
            lemma_stepper_conserves_steps(st, t_cycles);
        }
        let mut tima_overflow = false;
        let steps = self.tima_stepper.step(t_cycles);
        let mut tima = self.tima;
        let tma = self.tma;
        let mut i: u32 = 0;
        while i < steps
            invariant
                i <= steps,
                (tima, tima_overflow) == tima_run(old(self).tima, tma, i as nat),
                tma == old(self).tma,
            decreases steps - i,
        {
            tima = tima.wrapping_add(1);
            if tima == 0 {
                tima_overflow = true;
                tima = tma;
            }
            i = i + 1;
        }
        self.tima = tima;
        match self.next_tma {
            Some(v) => {
                self.tma = v;
                self.next_tma = None;
            },
            None => {},
        }
        tima_overflow
    }

    /// Reads one of DIV, TIMA, TMA or TAC.
    pub fn read_io(&self, addr: usize) -> (r: u8)
        requires
            0xFF04 <= addr <= 0xFF07,
        ensures
            r == self.spec_read_io(addr),
    {
        match addr {
            0xFF04 => self.div,
            0xFF05 => self.tima,
            0xFF06 => self.tma,
            _ => self.tac,
        }
    }

    /// Writes one of DIV (which resets it), TIMA, TMA (effective after the
    /// next TIMA step) or TAC.
    pub fn write_io(&mut self, addr: usize, byte: u8)
        requires
            0xFF04 <= addr <= 0xFF07,
        ensures
            *final(self) == old(self).spec_write_io(addr, byte),
    {
        match addr {
            0xFF04 => self.div = 0x00,
            0xFF05 => self.tima = byte,
            0xFF06 => self.next_tma = Some(byte),
            _ => self.tac = byte,
        }
    }

    /// Reads DIV.
    pub fn read_div(&self) -> (r: u8)
        ensures
            r == self.div,
    {
        self.div
    }

    /// Resets DIV to zero.
    pub fn reset_div(&mut self)
        ensures
            *final(self) == (Timer { div: 0, ..*old(self) }),
    {
        self.div = 0;
    }
}

/// TIMA overflows at most once per 256 increments: a run of fewer increments
/// than it takes to reach 256 from the current value never overflows and
/// simply adds.
pub proof fn lemma_tima_run_no_overflow(tima: u8, tma: u8, n: nat)
    requires
        tima + n < 256,
    ensures
        tima_run(tima, tma, n) == ((tima + n) as u8, false),
    decreases n,
{
    if n > 0 {
        lemma_tima_run_no_overflow(tima, tma, (n - 1) as nat);
    }
}

/// With the timer on (TAC bit 2), TIMA counts once per 1024, 16, 64 or 256
/// T-cycles for TAC & 3 = 0, 1, 2, 3: a step of `n` T-cycles adds the
/// number of whole periods completed (counting the cycles left over from
/// earlier steps), keeps the remainder for the next step, and reports no
/// overflow while TIMA stays below 256. With the timer off TIMA stays.
pub proof fn lemma_tima_rate(t: Timer, n: u32)
    requires
        t.wf(),
        t.div_stepper.steps_so_far + n <= u32::MAX,
        t.tima_stepper.steps_so_far + n <= u32::MAX,
    ensures
        ({
            let p: int = if t.tac & 3 == 0 { 1024 } else if t.tac & 3 == 1 { 16 } else if t.tac & 3 == 2 { 64 } else { 256 };
            let k = (t.tima_stepper.steps_so_far + n) / p;
            let (r, overflow) = t.spec_step(n);
            &&& t.tac & 0x04 != 0 ==> {
                &&& r.tima_stepper.steps_so_far == (t.tima_stepper.steps_so_far + n) % p
                &&& (t.tima + k < 256 ==> r.tima == t.tima + k && !overflow)
            }
            &&& t.tac & 0x04 == 0 ==> r.tima == t.tima && !overflow
        }),
{
    let p: int = if t.tac & 3 == 0 { 1024 } else if t.tac & 3 == 1 { 16 } else if t.tac & 3 == 2 { 64 } else { 256 };
    assert(tima_period(t.tac) == p);
    let k = (t.tima_stepper.steps_so_far + n) / p;
    if t.tac & 0x04 != 0 && t.tima + k < 256 {
        lemma_tima_run_no_overflow(t.tima, t.tma, k as nat);
    }
}

/// DIV counts T-cycles in periods of 256: a step of `n` T-cycles that
/// completes a period (counting the cycles left over from earlier steps)
/// advances DIV by one (wrapping at 256), one that completes none leaves it,
/// and the remainder is kept for the next step.
pub proof fn lemma_div_rate(t: Timer, n: u32)
    requires
        t.wf(),
        t.div_stepper.steps_so_far + n <= u32::MAX,
        t.tima_stepper.steps_so_far + n <= u32::MAX,
    ensures
        ({
            let (r, _overflow) = t.spec_step(n);
            let total = t.div_stepper.steps_so_far + n;
            &&& r.div == (if total >= 256 { (t.div + 1) % 256 } else { t.div as int })
            &&& r.div_stepper.steps_so_far == total % 256
        }),
{
}


/// With the timer on, a step that completes exactly as many periods as it
/// takes TIMA to pass 0xFF overflows: TIMA is reloaded from TMA and the
/// overflow (the timer interrupt) is reported.
pub proof fn lemma_tima_overflow(t: Timer, n: u32)
    requires
        t.wf(),
        t.tac & 0x04 != 0,
        t.div_stepper.steps_so_far + n <= u32::MAX,
        t.tima_stepper.steps_so_far + n <= u32::MAX,
    ensures
        ({
            let p: int = if t.tac & 3 == 0 { 1024 } else if t.tac & 3 == 1 { 16 } else if t.tac & 3 == 2 { 64 } else { 256 };
            let (r, overflow) = t.spec_step(n);
            (t.tima_stepper.steps_so_far + n) / p == 256 - t.tima ==> r.tima == t.tma && overflow
        }),
{
    let p: int = if t.tac & 3 == 0 { 1024 } else if t.tac & 3 == 1 { 16 } else if t.tac & 3 == 2 { 64 } else { 256 };
    assert(tima_period(t.tac) == p);
    let k = (t.tima_stepper.steps_so_far + n) / p;
    if k == 256 - t.tima {
        lemma_tima_run_no_overflow(t.tima, t.tma, (k - 1) as nat);
        assert(tima_run(t.tima, t.tma, k as nat) == (t.tma, true));
    }
}

} // verus!
