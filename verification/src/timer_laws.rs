//! What holds of the timers of the PTM in every mode.

use crate::device::DeviceEvent;
use crate::mc6840::{
    applied, counter_clocked_times, drained, io_state, lemma_next_division, new_timer,
    state_messages, update_messages, AsyncIoState, CompareStatus, Edge, Mc6840View, Prescaler,
    PtmManagerView, Synchronizer, Timer,
};
use crate::protocol::ptm::{PtmProtocolDecoder, PtmProtocolEncoder, PtmProtocolMessage};
use crate::protocol_manager::{polled, sent_all};
use crate::transport::TransportError;
use vstd::prelude::*;

verus! {

/// What the bits of a control register select: the clock (1), the counting mode (2), generation or
/// measurement (3), in generation a deferred initialization (4) and a single shot (5), in
/// measurement a pulse width rather than a frequency (4) and longer rather than shorter (5), the
/// interrupt (6), and the output (7).
pub proof fn control_register_bits(t: Timer, value: u8)
    ensures
        ({
            let after = t.controlled(value);
            &&& after.external_clock <==> value & 0x02 != 0
            &&& after.dual8bit_mode <==> value & 0x04 != 0
            &&& after.generating() <==> value & 0x08 == 0
            &&& after.comparing() <==> value & 0x08 != 0
            &&& after.deferred_init() <==> value & 0x08 == 0 && value & 0x10 != 0
            &&& after.continuous() <==> value & 0x08 == 0 && value & 0x20 == 0
            &&& after.single_shot() <==> value & 0x08 == 0 && value & 0x20 != 0
            &&& after.frequency() <==> value & 0x08 != 0 && value & 0x10 == 0
            &&& after.compare_greater() <==> value & 0x08 != 0 && value & 0x20 != 0
            &&& after.irq_enabled <==> value & 0x40 != 0
            &&& after.output_enabled <==> value & 0x80 != 0
            &&& after.compare_status == CompareStatus::Idle
            &&& after.counter == t.counter && after.latch == t.latch && after.irq_active
                == t.irq_active && after.triggered == t.triggered && after.prescaler == t.prescaler
            &&& after.output_state == (t.output_state && value & 0x04 == 0)
        }),
{
    assert((value & 0b0011_1000) & 0x08 == value & 0x08 && (value & 0b0011_1000) & 0x10 == value
        & 0x10 && (value & 0b0011_1000) & 0x20 == value & 0x20) by (bit_vector);
}

/// Initializing a timer loads its counter from the latch and starts it, without an interrupt and with
/// its output low. A measurement starts, awaiting the end of what it measures: the next rising edge
/// for a pulse, the next falling edge for a period.
pub proof fn initialization(t: Timer)
    ensures
        t.initialized().counter == t.latch,
        t.initialized().triggered,
        !t.initialized().irq_active,
        !t.initialized().output_state,
        t.initialized().latch == t.latch,
        t.initialized().mode == t.mode,
        t.comparing() ==> t.initialized().compare_status == CompareStatus::Started,
        !t.comparing() ==> t.initialized().compare_status == CompareStatus::Idle,
        t.initialized().awaiting_edge == Edge::Rising <==> t.comparing() && !t.frequency(),
        t.initialized().carry_in <==> t.latch == 0 && t.continuous(),
{
}

impl Synchronizer {
    /// Whether the input has been at `level` for so long that nothing else is left in the pipeline.
    pub open spec fn settled_at(self, level: bool) -> bool {
        &&& self.depth == 4
        &&& self.edge_triggered
        &&& self.prev_recognized == level
        &&& forall|i: int| 0 <= i < 4 ==> #[trigger] self.pipeline[i] == level
    }
}

/// An edge is recognized with the fifth sample of the new level, as what it is, and only once.
pub proof fn edges_are_recognized_late(s: Synchronizer, level: bool, edge: Edge)
    requires
        s.settled_at(!level),
    ensures
        ({
            let one = s.sampled(level);
            let two = one.sampled(level);
            let three = two.sampled(level);
            let four = three.sampled(level);
            let five = four.sampled(level);
            &&& !s.recognizes(edge) && !one.recognizes(edge) && !two.recognizes(edge)
                && !three.recognizes(edge)
            &&& four.recognizes(edge) <==> (edge == Edge::Rising <==> level)
            &&& !five.recognizes(edge)
            &&& five.settled_at(level)
        }),
{
}

/// A falling edge of its gate input that has come through the synchronizer initializes a timer that
/// generates, and takes the cycle.
pub proof fn gate_initializes_generator(t: Timer)
    requires
        t.generating(),
        t.awaiting_edge == Edge::Falling,
        t.gate_sync.depth == 4,
        t.gate_sync.edge_triggered,
        t.gate_sync.prev_recognized,
        !t.gate_sync.pipeline[3],
    ensures
        t.ticked() == (Timer { gate_sync: t.gate_sync.sampled(t.gate_level), ..t.initialized() }),
{
}

/// An external clock counts only with a falling edge of the clock input; the internal clock counts
/// with every cycle.
pub proof fn external_clock_counts_edges(t: Timer)
    ensures
        t.external_clock && !(t.clock_sync.recognizes(Edge::Falling)) ==> t.advanced() == (Timer {
            clock_sync: t.clock_sync.sampled(t.clock_level),
            ..t
        }),
        !t.external_clock || t.clock_sync.recognizes(Edge::Falling) ==> t.advanced() == (Timer {
            clock_sync: t.clock_sync.sampled(t.clock_level),
            ..t
        }).clocked(),
{
}

/// A prescaler holds back every clock but the last of a round, and the counter moves only with that
/// one.
pub proof fn prescaled_timer_counts_rounds(t: Timer, divisor: u8, count: u8)
    requires
        t.prescaler == Some(Prescaler { divisor, count }),
        1 <= count <= divisor,
    ensures
        count > 1 ==> t.clocked() == (Timer {
            prescaler: Some(Prescaler { divisor, count: (count - 1) as u8 }),
            ..t
        }),
        count == 1 ==> t.clocked() == (Timer {
            prescaler: Some(Prescaler { divisor, count: divisor }),
            ..t
        }).counter_clocked(),
{
}

/// A timer that was never triggered, or is done, does not count; nor does a continuous one while its
/// gate is high.
pub proof fn idle_timers_rest(t: Timer)
    ensures
        !t.triggered ==> t.counter_clocked() == t,
        t.continuous() && t.gate_level ==> t.counter_clocked() == t,
{
}

/// A single shot with a latch of zero times out with its first clock.
pub proof fn zero_shot_times_out_at_once(t: Timer)
    requires
        t.triggered,
        t.single_shot(),
        !t.carry_in,
        t.counter == 0,
    ensures
        !t.counter_clocked().triggered,
        !t.counter_clocked().output_state,
        t.counter_clocked().irq_active == t.irq_enabled,
        t.counter_clocked().counter == 0,
{
}

proof fn lemma_position(low: nat, high: nat, at: nat)
    requires
        at < (low + 1) * (high + 1),
    ensures
        at / (low + 1) <= high,
        at % (low + 1) <= low,
        at + 1 == (low + 1) * (high + 1) <==> at / (low + 1) == high && at % (low + 1) == low,
{
    let d = (low + 1) as int;
    let q = at as int / d;
    let r = at as int % d;
    vstd::arithmetic::div_mod::lemma_fundamental_div_mod(at as int, d);
    vstd::arithmetic::div_mod::lemma_mod_bound(at as int, d);
    assert(q <= high) by (nonlinear_arith)
        requires
            at == d * q + r,
            0 <= r < d,
            at < d * (high + 1),
            d > 0,
    ;
    assert(d * (high + 1) == d * high + d) by (nonlinear_arith);
    if q < high {
        assert(d * q + d <= d * high) by (nonlinear_arith)
            requires
                q + 1 <= high,
                d > 0,
        ;
    }
}

/// A dual 8-bit single shot that was loaded with a latch of high byte `high` and low byte `low` counts
/// for `(low + 1) * (high + 1)` clocks, its output high from the first of them to the last but one;
/// with the last it times out, interrupts if it may, and is done.
pub proof fn dual_single_shot_runs_once(t: Timer, low: nat, high: nat, n: nat)
    requires
        t.triggered,
        t.single_shot(),
        t.dual8bit_mode,
        !t.output_state,
        !t.irq_active,
        t.counter == t.latch,
        t.latch == 256 * high + low,
        low < 256,
        t.latch != 0,
        n <= (low + 1) * (high + 1),
    ensures
        ({
            let now = counter_clocked_times(t, n);
            let period = (low + 1) * (high + 1);
            &&& n < period ==> {
                &&& now.counter == 256 * (high - n / (low + 1)) + (low - n % (low + 1))
                &&& now.triggered && !now.irq_active
                &&& now.output_state <==> n > 0
            }
            &&& n == period ==> !now.triggered && !now.output_state && now.irq_active
                == t.irq_enabled
            &&& now.mode == t.mode && now.dual8bit_mode && now.latch == t.latch && now.irq_enabled
                == t.irq_enabled
        }),
    decreases n,
{
    let d = low + 1;
    let period = (low + 1) * (high + 1);
    assert(period > 0) by (nonlinear_arith)
        requires
            period == (low + 1) * (high + 1),
    ;
    assert(t.latch as int % 256 == low && t.latch as int / 256 == high);
    if n == 0 {
        vstd::arithmetic::div_mod::lemma_small_mod(0, d);
        vstd::arithmetic::div_mod::lemma_basic_div(0, d as int);
    } else {
        let m = (n - 1) as nat;
        dual_single_shot_runs_once(t, low, high, m);
        let before = counter_clocked_times(t, m);
        lemma_position(low, high, m);
        lemma_next_division(m, d);
        if n < period {
            lemma_position(low, high, n);
        }
        assert(before.counter as int / 256 == high - m / d);
        assert(before.counter as int % 256 == low - m % d);
    }
}

impl Timer {
    /// Whether the timer is measuring, clocked by every E clock cycle, with its gate input settled.
    pub open spec fn measuring(self) -> bool {
        &&& self.triggered
        &&& self.comparing()
        &&& !self.dual8bit_mode
        &&& !self.external_clock
        &&& self.prescaler is None
        &&& self.compare_status == CompareStatus::Started
        &&& !self.irq_active
        &&& self.gate_sync.settled_at(self.gate_level)
    }
}

proof fn lemma_settled_gate(t: Timer)
    requires
        t.gate_sync.settled_at(t.gate_level),
    ensures
        t.gate_sync.sampled(t.gate_level) == t.gate_sync,
        !t.gate_sync.recognizes(t.awaiting_edge),
{
    assert(t.gate_sync.sampled(t.gate_level).pipeline =~= t.gate_sync.pipeline);
}

/// While nothing happens at its gate input, a measurement counts down one by one until the counter
/// has run out, without an interrupt.
pub proof fn measurement_counts_down(t: Timer, n: nat)
    requires
        t.measuring(),
        n <= t.counter,
    ensures
        ({
            let now = t.ticked_times(n);
            &&& now.measuring()
            &&& now.counter == t.counter - n
            &&& now.mode == t.mode
            &&& now.latch == t.latch
            &&& now.irq_enabled == t.irq_enabled
            &&& now.awaiting_edge == t.awaiting_edge
            &&& n > 0 ==> !now.carry_in
            &&& n == 0 ==> now.carry_in == t.carry_in
        }),
    decreases n,
{
    if n > 0 {
        let before = t.ticked_times((n - 1) as nat);
        measurement_counts_down(t, (n - 1) as nat);
        lemma_settled_gate(before);
    }
}

/// A measurement that runs out of counts before its end is over. One that looks for longer intervals
/// then interrupts, if it may; one that looks for shorter ones does not.
pub proof fn long_interval(t: Timer)
    requires
        t.measuring(),
        !t.carry_in,
        t.latch != 0 || t.counter > 0,
    ensures
        ({
            let after = t.ticked_times((t.counter + 1) as nat);
            &&& after.irq_active == (t.compare_greater() && t.irq_enabled)
            &&& after.compare_status != CompareStatus::Started
            &&& after.awaiting_edge == Edge::Falling
        }),
{
    let before = t.ticked_times(t.counter as nat);
    measurement_counts_down(t, t.counter as nat);
    lemma_settled_gate(before);
}

/// What the awaited edge does to a measurement whose counter has not run out. One that looks for
/// shorter intervals stops and interrupts, if it may. One that looks for longer intervals does not
/// interrupt: a frequency measurement starts over, and a pulse width measurement is over.
pub proof fn short_interval(t: Timer)
    requires
        t.triggered,
        t.comparing(),
        t.compare_status == CompareStatus::Started,
        !t.irq_active,
        t.counter > 0,
        !t.dual8bit_mode,
        t.gate_sync.recognizes(t.awaiting_edge),
        t.awaiting_edge == Edge::Falling <==> t.frequency(),
    ensures
        ({
            let after = t.ticked();
            &&& !t.compare_greater() ==> after.compare_status == CompareStatus::Stopped
                && after.irq_active == t.irq_enabled
            &&& t.compare_greater() && t.frequency() ==> after.compare_status
                == CompareStatus::Started && !after.irq_active && after.counter == t.latch
            &&& t.compare_greater() && !t.frequency() ==> after.compare_status
                == CompareStatus::Idle && !after.irq_active
        }),
{
}

/// A measurement that is over, and whose interrupt was taken, starts anew with the next falling edge
/// of its gate input; while its interrupt stands it does not.
pub proof fn measurement_starts_with_gate(t: Timer)
    requires
        t.comparing(),
        t.compare_status != CompareStatus::Started,
        t.awaiting_edge == Edge::Falling,
        t.gate_sync.recognizes(Edge::Falling),
    ensures
        !t.irq_active ==> t.ticked() == (Timer {
            gate_sync: t.gate_sync.sampled(t.gate_level),
            ..t.initialized()
        }),
        t.irq_active ==> t.ticked().irq_active && t.ticked().compare_status
            != CompareStatus::Started,
{
}

/// A timer out of power-up has a full latch and is not running; its clock input is high and its gate
/// input low.
pub proof fn power_up(t: Timer)
    requires
        t == new_timer(),
    ensures
        t.latch == 0xFFFF,
        !t.triggered && !t.irq_active && !t.output_state && !t.irq_enabled && !t.output_enabled,
        t.continuous() && !t.deferred_init() && !t.dual8bit_mode && !t.external_clock,
        t.clock_level && !t.gate_level,
        t.clock_sync.settled_at(true) && t.gate_sync.settled_at(false),
{
    crate::bytes::bits_by_division(0);
}

/// Which timer a control byte goes to: timer 2 at offset 1; at offset 0 timer 1 if bit 0 of the last
/// byte at offset 1 was set, else timer 3. Bit 0 resets all timers in timer 1's register, and divides
/// timer 3's clock by eight in its register.
pub proof fn control_writes(m: Mc6840View, value: u8)
    requires
        m.timers.len() == 3,
    ensures
        ({
            let after = m.after_write(1, value);
            &&& after.timers == m.timers.update(1, m.timers[1].controlled(value))
            &&& after.cr1_enabled <==> value & 0x01 != 0
            &&& after.reset_active == m.reset_active
        }),
        m.cr1_enabled && value & 0x01 == 0 ==> {
            let after = m.after_write(0, value);
            &&& after.timers == m.timers.update(0, m.timers[0].controlled(value))
            &&& !after.reset_active
        },
        m.cr1_enabled && value & 0x01 != 0 ==> {
            let after = m.after_write(0, value);
            &&& after.reset_active
            &&& after.timers.len() == 3
            &&& after.timers[0] == m.timers[0].controlled(value).initialized()
            &&& after.timers[1] == m.timers[1].initialized()
            &&& after.timers[2] == m.timers[2].initialized()
        },
        !m.cr1_enabled ==> {
            let after = m.after_write(0, value);
            &&& after.timers[0] == m.timers[0] && after.timers[1] == m.timers[1]
            &&& after.timers[2] == (Timer {
                prescaler: if value & 0x01 != 0 {
                    Some(Prescaler { divisor: 8, count: 8 })
                } else {
                    None
                },
                ..m.timers[2].controlled(value)
            })
            &&& after.reset_active == m.reset_active
        },
{
}

/// Writing a latch initializes its timer at once, unless initialization is deferred to a gate input:
/// then only the latch changes. No other timer changes.
pub proof fn latch_write_initializes(m: Mc6840View, i: int, j: int, low: u8)
    requires
        m.timers.len() == 3,
        0 <= i < 3,
        0 <= j < 3,
    ensures
        ({
            let after = m.after_write(3 + 2 * i, low);
            let t = m.timers[i];
            let latch = (m.msb_buffer * 256 + low) as u16;
            &&& j != i ==> after.timers[j] == m.timers[j]
            &&& t.deferred_init() ==> after.timers[i] == (Timer { latch, ..t })
            &&& !t.deferred_init() ==> after.timers[i] == (Timer { latch, ..t }).initialized()
        }),
{
    let offset = 3 + 2 * i;
    assert((offset - 3) / 2 == i);
}

/// The status register has a bit for each timer that interrupts, from bit 0 on, and bit 7 if any
/// does; no other bit is ever set.
pub proof fn status_bits(m: Mc6840View)
    ensures
        m.read_value(1) & 0x01 != 0 <==> m.timers[0].irq_active,
        m.read_value(1) & 0x02 != 0 <==> m.timers[1].irq_active,
        m.read_value(1) & 0x04 != 0 <==> m.timers[2].irq_active,
        m.read_value(1) & 0x80 != 0 <==> m.timers[0].irq_active || m.timers[1].irq_active
            || m.timers[2].irq_active,
        m.read_value(1) & 0x08 == 0 && m.read_value(1) & 0x10 == 0 && m.read_value(1) & 0x20 == 0
            && m.read_value(1) & 0x40 == 0,
        m.after_read(1).latched_status == m.read_value(1),
{
    crate::bytes::bits_by_division(m.read_value(1));
}

/// An edge message sets the input of the flagged timers to its level, and touches nothing else; any
/// other message does nothing.
pub proof fn edges_set_inputs(timers: Seq<Timer>, edges: [bool; 3], level: bool, i: int)
    requires
        timers.len() == 3,
        0 <= i < 3,
    ensures
        ({
            let clocked = applied(
                timers,
                PtmProtocolMessage::ClockEdge { clocks: edges, positive: level },
            )[i];
            let gated = applied(
                timers,
                PtmProtocolMessage::GateEdge { gates: edges, positive: level },
            )[i];
            &&& edges[i] ==> clocked == (Timer { clock_level: level, ..timers[i] })
            &&& !edges[i] ==> clocked == timers[i]
            &&& edges[i] ==> gated == (Timer { gate_level: level, ..timers[i] })
            &&& !edges[i] ==> gated == timers[i]
        }),
        applied(timers, PtmProtocolMessage::ClockState { clocks: edges }) == timers,
        applied(timers, PtmProtocolMessage::GateState { gates: edges }) == timers,
        applied(timers, PtmProtocolMessage::OutputState { outputs: edges }) == timers,
{
}

/// What peripherals see of timer `i`: its inputs as they are, and its output while that is enabled.
pub proof fn signals_of_timers(timers: Seq<Timer>, i: int)
    requires
        timers.len() == 3,
        0 <= i < 3,
    ensures
        io_state(timers).clocks[i] == timers[i].clock_level,
        io_state(timers).gates[i] == timers[i].gate_level,
        io_state(timers).outputs[i] == (timers[i].output_state && timers[i].output_enabled),
{
}

/// The PTM interrupts exactly if one of its timers does.
pub proof fn timers_interrupt(m: Mc6840View)
    ensures
        m.irq() <==> m.timers[0].irq_active || m.timers[1].irq_active || m.timers[2].irq_active,
{
}

/// Peripherals are told clocks, gates and outputs in this order, on connection all of them and later
/// those that changed.
pub proof fn signals_are_told_in_order(before: AsyncIoState, after: AsyncIoState)
    ensures
        state_messages(after) == seq![
            PtmProtocolMessage::ClockState { clocks: after.clocks },
            PtmProtocolMessage::GateState { gates: after.gates },
            PtmProtocolMessage::OutputState { outputs: after.outputs },
        ],
        before.clocks != after.clocks && before.gates != after.gates && before.outputs
            != after.outputs ==> update_messages(before, after, true) == state_messages(after),
        before.clocks != after.clocks && before.gates != after.gates && before.outputs
            == after.outputs ==> update_messages(before, after, true) == state_messages(after).take(
            2,
        ),
        before.clocks == after.clocks && before.gates != after.gates && before.outputs
            != after.outputs ==> update_messages(before, after, true) == state_messages(after).skip(
            1,
        ),
        before.clocks != after.clocks && before.gates == after.gates && before.outputs
            != after.outputs ==> update_messages(before, after, true) == state_messages(
            after,
        ).remove(1),
{
    let all = state_messages(after);
    let told = update_messages(before, after, true);
    if before.clocks != after.clocks && before.gates != after.gates && before.outputs
        != after.outputs {
        assert(told =~= all);
    } else if before.clocks != after.clocks && before.gates != after.gates {
        assert(told =~= all.take(2));
    } else if before.gates != after.gates && before.outputs != after.outputs {
        assert(told =~= all.skip(1));
    } else if before.clocks != after.clocks && before.outputs != after.outputs {
        assert(told =~= all.remove(1));
    }
}

/// A reset restarts every timer as out of power-up, counting from a full latch, and keeps the place on
/// the bus and the reporter. The next byte at offset 0 goes to timer 3.
pub proof fn reset_restarts_timers(m: Mc6840View, i: int)
    requires
        0 <= i < 3,
    ensures
        ({
            let after = m.after_reset();
            &&& after.timers.len() == 3
            &&& after.timers[i] == new_timer().initialized()
            &&& after.timers[i].counter == 0xFFFF && after.timers[i].triggered
            &&& !after.cr1_enabled && !after.reset_active
            &&& after.latched_status == 0
            &&& after.address == m.address && after.name == m.name
            &&& m.manager is None ==> after.manager is None && after.reporter == m.reporter
        }),
{
}

/// While the internal reset holds, ticks do not move the timers; otherwise each moves on by as many
/// cycles as have passed.
pub proof fn ticks_move_timers(m: Mc6840View, cycles: nat, i: int)
    requires
        m.timers.len() == 3,
        0 <= i < 3,
        m.manager is None,
    ensures
        m.after_tick(cycles) matches Some(after) && after.timers.len() == 3 && after.timers[i]
            == if m.reset_active {
            m.timers[i]
        } else {
            m.timers[i].ticked_times(cycles)
        },
{
}

/// A tick first applies what has arrived, then runs the timers, and then tells the peripherals what
/// differs from how the signals were before the tick. Inputs are told where two peripherals or more
/// are connected.
pub proof fn tick_tells_changes(m: Mc6840View, cycles: nat)
    requires
        m.manager is Some,
        m.polled() is Some,
        !m.reset_active,
        m.timers.len() == 3,
    ensures
        ({
            let polled = m.polled().unwrap();
            let after = m.after_tick(cycles).unwrap();
            let connected = polled.manager.unwrap().slots.len();
            &&& m.after_tick(cycles) is Some
            &&& after.timers.len() == polled.timers.len()
            &&& forall|i: int|
                0 <= i < polled.timers.len() ==> #[trigger] after.timers[i]
                    == polled.timers[i].ticked_times(cycles)
            &&& after.manager == Some(
                sent_all::<PtmProtocolMessage, PtmProtocolEncoder, PtmProtocolDecoder>(
                    polled.manager.unwrap(),
                    update_messages(io_state(m.timers), io_state(after.timers), connected >= 2),
                ).0,
            )
        }),
{
}

/// A message that has arrived is applied before anything that arrived after it, and an error that ends
/// the reading is reported.
pub proof fn arrivals_are_applied_in_order(m: Mc6840View, next: PtmManagerView)
    requires
        m.manager is Some,
    ensures
        ({
            let state = state_messages(io_state(m.timers));
            let poll = polled::<PtmProtocolMessage, PtmProtocolEncoder, PtmProtocolDecoder>(
                m.manager.unwrap(),
                state,
            );
            &&& poll == Some((next, Ok::<Option<PtmProtocolMessage>, TransportError>(None)))
                ==> m.polled() == Some(Mc6840View { manager: Some(next), ..m })
            &&& forall|message: PtmProtocolMessage|
                poll == Some((next, Ok::<Option<PtmProtocolMessage>, TransportError>(Some(message))))
                    ==> drained(m.manager.unwrap(), state, m.timers) == drained(
                    next,
                    state,
                    #[trigger] applied(m.timers, message),
                )
            &&& forall|e: TransportError|
                poll == Some((next, Err::<Option<PtmProtocolMessage>, TransportError>(e)))
                    && m.reporter is Some ==> m.polled().unwrap().reporter.unwrap().sent
                    == #[trigger] m.reporter.unwrap().sent.push(
                    DeviceEvent::TransportError { device: m.reporter.unwrap().device_id, error: e },
                )
        }),
{
}

} // verus!
