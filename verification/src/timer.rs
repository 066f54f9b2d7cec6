//! The timer subsystem: a divider that always advances at 1/64 of the
//! master tick rate, and a main counter that advances at a configurable
//! rate while its enable bit is set, reloading from the modulo register
//! and raising the timer interrupt on each overflow.

use vstd::prelude::*;
use vstd::arithmetic::div_mod::{
    lemma_add_mod_noop, lemma_fundamental_div_mod_converse_div,
    lemma_fundamental_div_mod_converse_mod,
};
use crate::interrupt::INT_TIMER;

verus! {

/// Sub-tick accumulators of the two counters.
#[derive(Default, Debug)]
pub struct Clock {
    pub div: u32,
    pub tima: u32,
}

/// The timer: the divider register `div`, the main counter `tima`, its
/// reload register `tma`, and the control register `tac` (bit 2 enables
/// the main counter, bits 0 and 1 select its rate).
#[derive(Debug)]
pub struct Timer {
    pub clock: Clock,
    pub div: u8,
    pub tima: u8,
    pub tma: u8,
    pub tac: u8,
    pub tima_speed: u32,
}

/// The main counter after `k` increments, starting from `t0`: each
/// overflow past 255 reloads the counter from `tma`.
pub open spec fn tima_after(t0: u8, tma: u8, k: nat) -> u8
    decreases k,
{
    if k == 0 {
        t0
    } else {
        let p = tima_after(t0, tma, (k - 1) as nat);
        if p == 255 {
            tma
        } else {
            (p + 1) as u8
        }
    }
}

/// Whether any of `k` increments starting from `t0` overflowed past 255
/// (each such overflow reloads and raises the timer interrupt).
pub open spec fn tima_wrapped(t0: u8, tma: u8, k: nat) -> bool
    decreases k,
{
    if k == 0 {
        false
    } else {
        tima_wrapped(t0, tma, (k - 1) as nat) || tima_after(t0, tma, (k - 1) as nat) == 255
    }
}

impl Timer {
    /// Sub-tick progress of the divider.
    pub open spec fn clock_div(self) -> u32 {
        self.clock.div
    }

    /// Sub-tick progress of the main counter.
    pub open spec fn clock_tima(self) -> u32 {
        self.clock.tima
    }

    /// Ticks per main-counter increment, as `update` compiles it from the
    /// control register.
    pub open spec fn speed(self) -> u32 {
        self.tima_speed
    }

    /// The compiled rate is one of the four selectable ones and the
    /// divider accumulator stays below its threshold.
    pub open spec fn wf(self) -> bool {
        (self.speed() == 256 || self.speed() == 4 || self.speed() == 16 || self.speed() == 64)
            && self.clock_div() < 64
    }

    /// A timer with cleared registers, at the slowest rate.
    pub fn new() -> (t: Timer)
        ensures
            t.wf(),
            t.div == 0 && t.tima == 0 && t.tma == 0 && t.tac == 0,
            t.clock_div() == 0 && t.clock_tima() == 0,
            t.speed() == 256,
    {
        Timer {
            div: 0,
            tima: 0,
            tma: 0,
            tac: 0,
            tima_speed: 256,
            clock: Clock { tima: 0, div: 0 },
        }
    }

    /// Recompiles the main-counter rate from the low two bits of the
    /// control register; everything else is untouched.
    pub fn update(&mut self)
        ensures
            final(self).speed() == (if old(self).tac % 4 == 0 {
                256u32
            } else if old(self).tac % 4 == 1 {
                4u32
            } else if old(self).tac % 4 == 2 {
                16u32
            } else {
                64u32
            }),
            final(self).div == old(self).div && final(self).tima == old(self).tima,
            final(self).tma == old(self).tma && final(self).tac == old(self).tac,
            final(self).clock_div() == old(self).clock_div(),
            final(self).clock_tima() == old(self).clock_tima(),
            old(self).wf() ==> final(self).wf(),
    {
        match self.tac % 4 {
            0 => {
                self.tima_speed = 256;
            },
            1 => {
                self.tima_speed = 4;
            },
            2 => {
                self.tima_speed = 16;
            },
            _ => {
                self.tima_speed = 64;
            },
        }
    }

    /// Advances both counters by `ticks` master ticks.
    ///
    /// The divider always advances: it gains one count per 64 accumulated
    /// ticks, wrapping modulo 256.  The main counter advances only while
    /// the enable bit (bit 2 of `tac`) is set, gaining one count per
    /// `speed` accumulated ticks; every overflow past 255 reloads it from
    /// `tma` and ORs the timer bit into the interrupt-request byte.  With
    /// the enable bit clear the main counter, its accumulator and the
    /// interrupt byte are untouched.
    pub fn step(&mut self, ticks: u32, if_: &mut u8)
        requires
            old(self).wf(),
            old(self).clock_div() + ticks <= u32::MAX,
            old(self).clock_tima() + ticks <= u32::MAX,
        ensures
            final(self).wf(),
            final(self).tma == old(self).tma && final(self).tac == old(self).tac,
            final(self).speed() == old(self).speed(),
            final(self).clock_div() == (old(self).clock_div() + ticks) % 64,
            final(self).div == ((old(self).div + (old(self).clock_div() + ticks) / 64)
                % 0x100) as u8,
            old(self).tac & 4 == 0 ==> final(self).tima == old(self).tima
                && final(self).clock_tima() == old(self).clock_tima()
                && *final(if_) == *old(if_),
            old(self).tac & 4 != 0 ==> ({
                let total = old(self).clock_tima() + ticks;
                let k = (total / old(self).speed() as int) as nat;
                final(self).clock_tima() == total % old(self).speed() as int && final(self).tima
                    == tima_after(old(self).tima, old(self).tma, k) && *final(if_) == (
                if tima_wrapped(old(self).tima, old(self).tma, k) {
                    *old(if_) | INT_TIMER
                } else {
                    *old(if_)
                })
            }),
    {
        let ghost total_d: int = self.clock.div + ticks;
        let ghost div0 = self.div;
        let ghost n: int = 0;
        self.clock.div = self.clock.div + ticks;

        while self.clock.div >= 64
            invariant
                total_d - self.clock.div == 64 * n,
                n >= 0,
                self.div == ((div0 + n) % 0x100) as u8,
                self.tima == old(self).tima && self.tma == old(self).tma,
                self.tac == old(self).tac && self.tima_speed == old(self).tima_speed,
                self.clock.tima == old(self).clock.tima,
                *if_ == *old(if_),
            decreases self.clock.div,
        {
            self.div = self.div.wrapping_add(1);
            self.clock.div = self.clock.div - 64;
            proof {
                lemma_add_mod_noop(div0 + n, 1, 0x100);
                n = n + 1;
            }
        }
        proof {
            lemma_fundamental_div_mod_converse_div(total_d, 64, n, self.clock.div as int);
            lemma_fundamental_div_mod_converse_mod(total_d, 64, n, self.clock.div as int);
        }

        if self.tac & 0x4 != 0 {
            self.clock.tima = self.clock.tima + ticks;
            let ghost total_t: int = self.clock.tima as int;
            let ghost t0 = self.tima;
            let ghost if0 = *if_;
            let ghost k: int = 0;

            while self.clock.tima >= self.tima_speed
                invariant
                    self.tima_speed == old(self).tima_speed,
                    self.tima_speed >= 4,
                    total_t - self.clock.tima == self.tima_speed * k,
                    k >= 0,
                    self.tima == tima_after(t0, old(self).tma, k as nat),
                    *if_ == (if tima_wrapped(t0, old(self).tma, k as nat) {
                        if0 | INT_TIMER
                    } else {
                        if0
                    }),
                    self.tma == old(self).tma && self.tac == old(self).tac,
                    self.div == ((div0 + total_d / 64) % 0x100) as u8,
                    self.clock.div == total_d % 64,
                decreases self.clock.tima,
            {
                self.tima = self.tima.wrapping_add(1);
                if self.tima == 0 {
                    self.tima = self.tma;
                    *if_ = *if_ | INT_TIMER;
                    proof {
                        assert(((if0 | INT_TIMER) | INT_TIMER) == (if0 | INT_TIMER))
                            by (bit_vector);
                    }
                }
                self.clock.tima = self.clock.tima - self.tima_speed;
                proof {
                    assert(self.tima_speed * (k + 1) == self.tima_speed * k + self.tima_speed)
                        by (nonlinear_arith);
                    k = k + 1;
                }
            }
            proof {
                lemma_fundamental_div_mod_converse_div(
                    total_t,
                    self.tima_speed as int,
                    k,
                    self.clock.tima as int,
                );
                lemma_fundamental_div_mod_converse_mod(
                    total_t,
                    self.tima_speed as int,
                    k,
                    self.clock.tima as int,
                );
            }
        }
    }
}

} // verus!
