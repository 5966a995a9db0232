//! How often a free-running dual 8-bit timer of the PTM times out, and when its output is high.

use crate::mc6840::{lemma_next_division, Timer};
use vstd::arithmetic::div_mod::{lemma_basic_div, lemma_small_mod};
use vstd::prelude::*;

verus! {

impl Timer {
    /// Whether the timer is a dual 8-bit continuous timer that every E clock cycle clocks, with its
    /// gate input low.
    pub open spec fn free_running_dual(self) -> bool {
        &&& self.triggered
        &&& self.continuous()
        &&& self.dual8bit_mode
        &&& !self.external_clock
        &&& self.prescaler is None
        &&& !self.gate_level
        &&& self.gate_sync.settled_low()
    }
}

proof fn lemma_dual_tick(t: Timer)
    requires
        t.free_running_dual(),
        t.latch != 0,
        !t.carry_in,
    ensures
        ({
            let high = t.counter as int / 256;
            let low = t.counter as int % 256;
            let after = t.ticked();
            &&& after.free_running_dual()
            &&& after.latch == t.latch
            &&& after.irq_enabled == t.irq_enabled
            &&& !after.carry_in
            &&& low > 0 ==> after.counter == t.counter - 1 && after.output_state == t.output_state
                && after.irq_active == t.irq_active
            &&& low == 0 && high > 0 ==> after.counter == (high - 1) * 256 + t.latch as int % 256
                && after.output_state == (t.output_state || high == 1) && after.irq_active
                == t.irq_active
            &&& low == 0 && high == 0 ==> after.counter == t.latch && !after.output_state
                && after.irq_active == t.irq_enabled
        }),
{
    let s = t.gate_sync;
    assert(s.sampled(false).pipeline =~= s.pipeline);
    assert(s.sampled(false) == s);
    assert(!s.recognizes(t.awaiting_edge));
}

proof fn lemma_dual_position(low: nat, high: nat, at: nat)
    requires
        at < (low + 1) * (high + 1),
    ensures
        at / (low + 1) <= high,
        at % (low + 1) <= low,
        at + 1 == (low + 1) * (high + 1) <==> at / (low + 1) == high && at % (low + 1) == low,
        at >= high * (low + 1) <==> at / (low + 1) == high,
{
    let d = (low + 1) as int;
    let q = at as int / d;
    let r = at as int % d;
    vstd::arithmetic::div_mod::lemma_fundamental_div_mod(at as int, d);
    vstd::arithmetic::div_mod::lemma_mod_bound(at as int, d);
    assert(q <= high) by (nonlinear_arith)
        requires
            at == d * q + r,
            0 <= r < d,
            at < d * (high + 1),
            d > 0,
    ;
    assert(d * (high + 1) == d * high + d && high * d == d * high) by (nonlinear_arith);
    if q == high {
    } else {
        assert(d * q + d <= d * high) by (nonlinear_arith)
            requires
                q + 1 <= high,
                d > 0,
        ;
    }
}

/// A dual 8-bit continuous timer that was loaded with a latch of high byte `high` and low byte `low`,
/// not both zero, times out every `(low + 1) * (high + 1)` clocks, and interrupts with the first
/// time-out. In between the low byte of its counter counts down from `low` once for every value of
/// the high byte, which counts down from `high`. Its output is high for exactly the last `low + 1`
/// clocks of each period, unless the high byte is zero: then it stays low.
pub proof fn dual_timer_has_period(t: Timer, low: nat, high: nat, n: nat)
    requires
        t.free_running_dual(),
        t.counter == t.latch,
        !t.carry_in,
        !t.output_state,
        !t.irq_active,
        t.latch == 256 * high + low,
        low < 256,
        t.latch != 0,
    ensures
        ({
            let period = (low + 1) * (high + 1);
            let at = n % period;
            let now = t.ticked_times(n);
            &&& now.counter == 256 * (high - at / (low + 1)) + (low - at % (low + 1))
            &&& now.counter == t.latch <==> at == 0
            &&& now.output_state <==> high > 0 && at >= period - (low + 1)
            &&& now.irq_active <==> t.irq_enabled && n >= period
            &&& now.free_running_dual() && !now.carry_in && now.latch == t.latch && now.irq_enabled
                == t.irq_enabled
        }),
    decreases n,
{
    let period = (low + 1) * (high + 1);
    let d = low + 1;
    assert(period > 0 && period - d == high * d) by (nonlinear_arith)
        requires
            period == (low + 1) * (high + 1),
            d == low + 1,
    ;
    assert(t.latch as int % 256 == low && t.latch as int / 256 == high);
    if n == 0 {
        lemma_small_mod(0, period);
        lemma_dual_position(low, high, 0);
        lemma_basic_div(0, d as int);
        lemma_small_mod(0, d);
        assert(high > 0 ==> high * d > 0) by (nonlinear_arith)
            requires
                d > 0,
        ;
    } else {
        let m = (n - 1) as nat;
        dual_timer_has_period(t, low, high, m);
        let before = t.ticked_times(m);
        lemma_dual_tick(before);
        lemma_next_division(m, period);
        let at = m % period;
        lemma_dual_position(low, high, at);
        lemma_next_division(at, d);
        lemma_dual_position(low, high, n % period);
        assert(before.counter as int / 256 == high - at / d);
        assert(before.counter as int % 256 == low - at % d);
        if m < period {
            lemma_small_mod(m, period);
        }
        lemma_basic_div(0, d as int);
        lemma_small_mod(0, d);
        assert(high > 0 ==> high * d > 0) by (nonlinear_arith)
            requires
                d > 0,
        ;
        let next_at = n % period;
        if next_at == 0 {
        } else {
            assert(next_at == at + 1);
            assert(next_at / d > 0 || next_at % d > 0) by {
                vstd::arithmetic::div_mod::lemma_fundamental_div_mod(next_at as int, d as int);
                if next_at / d == 0 {
                    assert(d * (next_at / d) == 0) by (nonlinear_arith)
                        requires
                            next_at / d == 0,
                    ;
                }
            }
        }
    }
}

} // verus!
