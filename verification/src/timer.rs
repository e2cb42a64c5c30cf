//! The divider/timer subsystem: a free-running divider and a
//! programmable counter that raises the timer interrupt on overflow.
use vstd::prelude::*;

use crate::cpu::INT_TIMER;

verus! {

/// Timer state. `divider` is DIV, `counter` is TIMA, `modulo` is TMA;
/// `speed` and `enabled` unpack TAC. The two clocks accumulate machine
/// cycles until a full period has passed.
pub struct Timer {
    pub divider: u8,
    pub counter: u8,
    pub modulo: u8,
    pub speed: u8,
    pub enabled: bool,
    pub div_clock: usize,
    pub counter_clock: usize,
}

/// Counter period in machine cycles for each TAC speed code.
pub open spec fn spec_period(speed: u8) -> nat {
    if speed == 0 {
        256
    } else if speed == 1 {
        4
    } else if speed == 2 {
        16
    } else {
        64
    }
}

/// Stepping the divider: one increment (wrapping) per 64 machine cycles
/// of accumulated backlog.
pub open spec fn spec_divider_steps(divider: u8, clock: nat) -> (u8, nat)
    decreases clock,
{
    if clock < 64 {
        (divider, clock)
    } else {
        spec_divider_steps(if divider == 0xff {
            0
        } else {
            (divider + 1) as u8
        }, (clock - 64) as nat)
    }
}

/// Stepping the counter: one increment per full period of backlog; an
/// overflow reloads the counter from `modulo` and fires the interrupt.
/// Yields the final counter, the remaining backlog, and whether any
/// overflow happened.
pub open spec fn spec_counter_steps(counter: u8, modulo: u8, clock: nat, period: nat) -> (
    u8,
    nat,
    bool,
)
    decreases clock,
    when period >= 4
{
    if clock < period {
        (counter, clock, false)
    } else {
        let next = if counter == 0xff {
            modulo
        } else {
            (counter + 1) as u8
        };
        let rest = spec_counter_steps(next, modulo, (clock - period) as nat, period);
        (rest.0, rest.1, rest.2 || counter == 0xff)
    }
}

/// The interrupt bits one timer call raises: the timer bit exactly
/// when the enabled counter's fold overflows.
pub open spec fn spec_timer_ints(pre: Timer, cycles: nat) -> u8 {
    if pre.enabled && spec_counter_steps(
        pre.counter,
        pre.modulo,
        (pre.counter_clock + cycles) as nat,
        spec_period(pre.speed),
    ).2 {
        INT_TIMER
    } else {
        0
    }
}

/// Everything one timer call changes and returns, as a relation
/// between the timer before and after: the divider gains one per 64
/// machine cycles of backlog, the enabled counter folds over its
/// period (reporting the timer interrupt bit on overflow), and the
/// control registers are untouched.
pub open spec fn spec_cycle_rel(pre: Timer, post: Timer, cycles: nat, ints: u8) -> bool {
    &&& ({
        let d = spec_divider_steps(pre.divider, (pre.div_clock + cycles) as nat);
        post.divider == d.0 && post.div_clock == d.1
    })
    &&& (pre.enabled ==> ({
        let c = spec_counter_steps(
            pre.counter,
            pre.modulo,
            (pre.counter_clock + cycles) as nat,
            spec_period(pre.speed),
        );
        &&& post.counter == c.0
        &&& post.counter_clock == c.1
        &&& ints == if c.2 {
            INT_TIMER
        } else {
            0
        }
    }))
    &&& (!pre.enabled ==> post.counter == pre.counter && post.counter_clock == pre.counter_clock
        && ints == 0)
    &&& post.counter_clock < 256 || !pre.enabled
    &&& post.modulo == pre.modulo
    &&& post.speed == pre.speed
    &&& post.enabled == pre.enabled
}

impl Timer {
    /// The accumulators hold strictly less than one full period.
    pub open spec fn wf(self) -> bool {
        &&& self.speed < 4
        &&& self.div_clock < 64
        &&& self.counter_clock < 256
    }

    pub fn new() -> (r: Timer)
        ensures
            r.wf(),
            r.divider == 0 && r.counter == 0 && r.modulo == 0xff,
            r.speed == 0 && !r.enabled,
            r.div_clock == 0 && r.counter_clock == 0,
    {
        Timer {
            divider: 0,
            counter: 0,
            modulo: 0xff,
            speed: 0,
            enabled: false,
            div_clock: 0,
            counter_clock: 0,
        }
    }

    /// Advances the timer by `cycles` machine cycles. The divider gains
    /// one per 64 cycles; when enabled, the counter gains one per period,
    /// reloading from `modulo` and raising the timer interrupt on
    /// overflow. Returns the newly raised interrupt bits.
    pub fn cycle(&mut self, cycles: usize) -> (r: u8)
        requires
            old(self).wf(),
            cycles <= 0x1000_0000,
        ensures
            final(self).wf(),
            spec_cycle_rel(*old(self), *final(self), cycles as nat, r),
    {
        self.div_clock = self.div_clock + cycles;
        while self.div_clock >= 64
            invariant
                spec_divider_steps(old(self).divider, (old(self).div_clock + cycles) as nat)
                    == spec_divider_steps(self.divider, self.div_clock as nat),
                self.div_clock <= old(self).div_clock + cycles,
                self.counter == old(self).counter,
                self.counter_clock == old(self).counter_clock,
                self.modulo == old(self).modulo,
                self.speed == old(self).speed,
                self.enabled == old(self).enabled,
            decreases self.div_clock,
        {
            self.div_clock = self.div_clock - 64;
            self.divider = self.divider.wrapping_add(1);
        }

        let mut fired = false;
        if self.enabled {
            let period: usize = match self.speed {
                0b00 => 256,
                0b01 => 4,
                0b10 => 16,
                _ => 64,
            };
            assert(period == spec_period(self.speed));

            self.counter_clock = self.counter_clock + cycles;
            while self.counter_clock >= period
                invariant
                    period == spec_period(old(self).speed),
                    ({
                        let c = spec_counter_steps(
                            old(self).counter,
                            old(self).modulo,
                            (old(self).counter_clock + cycles) as nat,
                            period as nat,
                        );
                        let here = spec_counter_steps(
                            self.counter,
                            self.modulo,
                            self.counter_clock as nat,
                            period as nat,
                        );
                        c.0 == here.0 && c.1 == here.1 && c.2 == (here.2 || fired)
                    }),
                    spec_divider_steps(old(self).divider, (old(self).div_clock + cycles) as nat) == (
                    self.divider,
                    self.div_clock as nat,
                    ),
                    self.div_clock < 64,
                    self.counter_clock <= (old(self).counter_clock + cycles) as nat,
                    self.modulo == old(self).modulo,
                    self.speed == old(self).speed,
                    self.enabled == old(self).enabled,
                decreases self.counter_clock,
            {
                self.counter_clock = self.counter_clock - period;
                self.counter = self.counter.wrapping_add(1);

                if self.counter == 0 {
                    self.counter = self.modulo;
                    fired = true;
                }
            }
        }

        if fired {
            INT_TIMER
        } else {
            0
        }
    }

    /// Packs the TAC byte: speed in bits 0-1, enable in bit 2.
    pub fn timer_control(&self) -> (r: u8)
        requires
            self.speed < 4,
        ensures
            r == self.speed + if self.enabled {
                4u8
            } else {
                0u8
            },
    {
        let mut result = self.speed;

        if self.enabled {
            result |= 0b100;
        }

        proof {
            lemma_tac_pack(self.speed);
        }
        result
    }

    /// Unpacks a TAC write: speed from bits 0-1, enable from bit 2.
    pub fn set_timer_control(&mut self, value: u8)
        ensures
            final(self).speed == value & 0b11,
            final(self).enabled == (value & 0b100 != 0),
            final(self).speed < 4,
            final(self).divider == old(self).divider,
            final(self).counter == old(self).counter,
            final(self).modulo == old(self).modulo,
            final(self).div_clock == old(self).div_clock,
            final(self).counter_clock == old(self).counter_clock,
            old(self).wf() ==> final(self).wf(),
    {
        self.speed = value & 0b11;
        self.enabled = value & 0b100 != 0;
        proof {
            lemma_tac_unpack(value);
        }
    }
}

proof fn lemma_tac_pack(speed: u8)
    by (bit_vector)
    requires
        speed < 4,
    ensures
        speed | 0b100 == speed + 4,
{
}

proof fn lemma_tac_unpack(value: u8)
    by (bit_vector)
    ensures
        value & 0b11 < 4,
{
}

} // verus!
