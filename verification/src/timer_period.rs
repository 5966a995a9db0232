//! How often a free-running 16-bit timer of the PTM times out.

use crate::mc6840::{lemma_next_division, Synchronizer, Timer};
use vstd::arithmetic::div_mod::{lemma_basic_div, lemma_small_mod};
use vstd::prelude::*;

verus! {

impl Synchronizer {
    /// Whether the input has been low for so long that nothing else is left in the pipeline.
    pub open spec fn settled_low(self) -> bool {
        &&& self.wf()
        &&& self.edge_triggered
        &&& !self.prev_recognized
        &&& forall|i: int| 0 <= i < 4 ==> !(#[trigger] self.pipeline[i])
    }
}

impl Timer {
    /// Whether the timer is a 16-bit continuous timer that every E clock cycle clocks, with its gate
    /// input low.
    pub open spec fn free_running(self) -> bool {
        &&& self.triggered
        &&& self.continuous()
        &&& !self.dual8bit_mode
        &&& !self.external_clock
        &&& self.prescaler is None
        &&& !self.gate_level
        &&& self.gate_sync.settled_low()
    }

    /// Whether the counter was just loaded.
    pub open spec fn just_loaded(self) -> bool {
        self.counter == self.latch && self.carry_in == (self.latch == 0)
    }

    /// Number of clocks from one time-out of a 16-bit continuous timer to the next. A latch of zero
    /// stands for a count of 65536.
    pub open spec fn period(self) -> nat {
        if self.latch == 0 {
            65537
        } else {
            (self.latch + 1) as nat
        }
    }

    /// A free-running timer `n` ticks after it was loaded: what is left to count, the output toggled
    /// once per period, and the interrupt of the first time-out.
    pub open spec fn free_run(self, n: nat) -> Timer {
        let at = n % self.period();
        Timer {
            counter: if at == 0 {
                self.latch
            } else {
                (self.period() - 1 - at) as u16
            },
            carry_in: self.latch == 0 && at == 0,
            irq_active: if n < self.period() {
                self.irq_active
            } else {
                self.irq_enabled
            },
            output_state: if (n / self.period()) % 2 == 0 {
                self.output_state
            } else {
                !self.output_state
            },
            clock_sync: self.ticked_times(n).clock_sync,
            ..self
        }
    }
}

proof fn lemma_tick(t: Timer)
    requires
        t.free_running(),
    ensures
        t.ticked() == if t.counter == 0 && !t.carry_in {
            Timer {
                counter: t.latch,
                carry_in: t.latch == 0,
                irq_active: t.irq_enabled,
                output_state: !t.output_state,
                clock_sync: t.clock_sync.sampled(t.clock_level),
                ..t
            }
        } else {
            Timer {
                counter: if t.counter == 0 {
                    0xFFFF
                } else {
                    (t.counter - 1) as u16
                },
                carry_in: false,
                clock_sync: t.clock_sync.sampled(t.clock_level),
                ..t
            }
        },
{
    let s = t.gate_sync;
    assert(s.sampled(false).pipeline =~= s.pipeline);
    assert(s.sampled(false) == s);
    assert(!s.recognizes(t.awaiting_edge));
}

#[verifier::spinoff_prover]
#[verifier::rlimit(40)]
proof fn lemma_free_run(t: Timer, n: nat)
    requires
        t.free_running(),
        t.just_loaded(),
    ensures
        t.ticked_times(n) == t.free_run(n),
    decreases n,
{
    let p = t.period();
    if n == 0 {
        lemma_small_mod(0, p);
        lemma_basic_div(0, p as int);
    } else {
        let m = (n - 1) as nat;
        lemma_free_run(t, m);
        lemma_tick(t.free_run(m));
        lemma_next_division(m, p);
        if m < p {
            lemma_small_mod(m, p);
            lemma_basic_div(m as int, p as int);
        }
    }
}

/// A free-running timer has the period `latch + 1`, or 65537 for a latch of zero: it is loaded anew
/// after every period, its output toggles at every multiple of the period and only there, and its
/// interrupt comes with the first time-out.
pub proof fn free_running_timer_has_period(t: Timer, n: nat)
    requires
        t.free_running(),
        t.just_loaded(),
    ensures
        t.ticked_times(n) == t.free_run(n),
        n > 0 ==> (t.ticked_times(n).output_state != t.ticked_times((n - 1) as nat).output_state
            <==> n % t.period() == 0),
        !t.irq_active && t.irq_enabled ==> (t.ticked_times(n).irq_active <==> n >= t.period()),
        !t.irq_active && !t.irq_enabled ==> !t.ticked_times(n).irq_active,
{
    lemma_free_run(t, n);
    if n > 0 {
        let m = (n - 1) as nat;
        lemma_free_run(t, m);
        lemma_next_division(m, t.period());
    }
}

/// Initializing a continuous timer loads it and starts it, with its output low and no interrupt.
pub proof fn initialization_starts_period(t: Timer)
    requires
        t.continuous(),
    ensures
        t.initialized().just_loaded(),
        t.initialized().triggered,
        !t.initialized().irq_active,
        !t.initialized().output_state,
{
}

} // verus!
