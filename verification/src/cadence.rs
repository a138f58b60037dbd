//! The cadence of the timers: instructions run many times faster than the
//! 60 Hz clock of the timers, so a driver ticks the timers once in every so
//! many machine cycles.

use vstd::prelude::*;

verus! {

/// Counts machine cycles and tells when a tick of the timers is due: once in
/// every `ratio` cycles.
pub struct Cadence {
    /// The number of machine cycles for each tick of the timers.
    pub ratio: u32,
    /// The number of machine cycles since the last tick of the timers.
    pub count: u32,
}

/// The number of ticks of the timers that are due in the course of `cycles`
/// machine cycles, when `count` cycles have passed since the last tick.
pub open spec fn ticks_due(ratio: u32, count: u32, cycles: nat) -> nat {
    ((count + cycles) / ratio as int) as nat
}

/// The counter after `cycles` machine cycles.
pub open spec fn count_after(ratio: u32, count: u32, cycles: nat) -> u32 {
    ((count + cycles) % ratio as int) as u32
}

/// The counter after `cycles` machine cycles, counted one cycle at a time.
pub open spec fn count_steps(ratio: u32, count: u32, cycles: nat) -> u32
    decreases cycles,
{
    if cycles == 0 {
        count
    } else {
        count_after(ratio, count_steps(ratio, count, (cycles - 1) as nat), 1)
    }
}

/// The ticks of the timers that fall due in `cycles` machine cycles, counted
/// one cycle at a time.
pub open spec fn tick_steps(ratio: u32, count: u32, cycles: nat) -> nat
    decreases cycles,
{
    if cycles == 0 {
        0
    } else {
        tick_steps(ratio, count, (cycles - 1) as nat) + ticks_due(
            ratio,
            count_steps(ratio, count, (cycles - 1) as nat),
            1,
        )
    }
}

impl Cadence {
    /// The ratio is not zero, and the counter is below it.
    pub open spec fn wf(&self) -> bool {
        0 <= self.count < self.ratio
    }

    /// A cadence of one tick of the timers in every `ratio` machine cycles.
    pub fn new(ratio: u32) -> (cadence: Cadence)
        requires
            ratio > 0,
        ensures
            cadence.wf(),
            cadence.ratio == ratio,
            cadence.count == 0,
    {
        Cadence { ratio, count: 0 }
    }

    /// Counts one machine cycle. Returns whether a tick of the timers is due
    /// now: whether this is the last of `ratio` cycles.
    pub fn advance(&mut self) -> (due: bool)
        requires
            old(self).wf(),
        ensures
            final(self).wf(),
            final(self).ratio == old(self).ratio,
            due == (old(self).count + 1 == old(self).ratio),
            final(self).count == (if due {
                0
            } else {
                old(self).count + 1
            }),
            final(self).count == count_after(old(self).ratio, old(self).count, 1),
            ticks_due(old(self).ratio, old(self).count, 1) == (if due {
                1nat
            } else {
                0nat
            }),
    {
        proof {
            lemma_one_cycle(self.ratio as int, self.count as int);
        }
        if self.count + 1 == self.ratio {
            self.count = 0;
            true
        } else {
            self.count = self.count + 1;
            false
        }
    }
}

/// One more machine cycle either fills the ratio, and the counter starts
/// again at zero, or does not, and the counter goes up by one.
proof fn lemma_one_cycle(ratio: int, count: int)
    requires
        0 <= count < ratio,
    ensures
        count + 1 == ratio ==> (count + 1) / ratio == 1 && (count + 1) % ratio == 0,
        count + 1 < ratio ==> (count + 1) / ratio == 0 && (count + 1) % ratio == count + 1,
{
    if count + 1 == ratio {
        vstd::arithmetic::div_mod::lemma_fundamental_div_mod_converse(count + 1, ratio, 1, 0);
    } else {
        vstd::arithmetic::div_mod::lemma_fundamental_div_mod_converse(
            count + 1,
            ratio,
            0,
            count + 1,
        );
    }
}

/// In any run of machine cycles the timers tick once for each full `ratio`
/// cycles, whatever the number of cycles: never twice for one.
pub proof fn law_cadence(ratio: u32, count: u32, cycles: nat)
    requires
        0 <= count < ratio,
    ensures
        count_steps(ratio, count, cycles) == count_after(ratio, count, cycles),
        tick_steps(ratio, count, cycles) == ticks_due(ratio, count, cycles),
    decreases cycles,
{
    if cycles > 0 {
        let before = (cycles - 1) as nat;
        law_cadence(ratio, count, before);
        let total = count + before;
        let r = ratio as int;
        vstd::arithmetic::div_mod::lemma_fundamental_div_mod(total, r);
        vstd::arithmetic::div_mod::lemma_mod_pos_bound(total, r);
        lemma_one_cycle(r, total % r);
        let q = total / r + (total % r + 1) / r;
        let m = (total % r + 1) % r;
        assert(total + 1 == q * r + m) by (nonlinear_arith)
            requires
                total == r * (total / r) + total % r,
                q == total / r + (total % r + 1) / r,
                (total % r + 1 == r && (total % r + 1) / r == 1 && m == 0) || (total % r + 1 < r
                    && (total % r + 1) / r == 0 && m == total % r + 1),
        ;
        vstd::arithmetic::div_mod::lemma_fundamental_div_mod_converse(total + 1, r, q, m);
    } else {
        vstd::arithmetic::div_mod::lemma_fundamental_div_mod_converse(
            count as int,
            ratio as int,
            0,
            count as int,
        );
    }
}

} // verus!
