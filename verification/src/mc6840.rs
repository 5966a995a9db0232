//! Motorola MC6840 Programmable Timer Module (PTM).
//!
//! The MC6840 has three 16-bit counters, three corresponding control registers (CR1, CR2, and CR3)
//! and a status register. Under software control the counters generate interrupts and output
//! signals for peripherals connected via a transport. Supported wave generation modes are
//! square-wave and pulse-width modulation, continuous and single-shot. Supported measurements are
//! event counting, frequency measurement, and interval (pulse width) measurement.
//!
//! | Offset |  Write Operation                      |  Read Operation          |
//! |--------|---------------------------------------|--------------------------|
//! |   0    | If CR2.0 = 0 Write CR3 else Write CR1 | (no operation)           |
//! |   1    | Write CR2                             | Read Status Register     |
//! |   2    | Write MSB Buffer Register             | Read Timer 1 Counter     |
//! |   3    | Write Timer 1 Latch                   | Read LSB Buffer Register |
//! |   4    | Write MSB Buffer Register             | Read Timer 2 Counter     |
//! |   5    | Write Timer 2 Latch                   | Read LSB Buffer Register |
//! |   6    | Write MSB Buffer Register             | Read Timer 3 Counter     |
//! |   7    | Write Timer 3 Latch                   | Read LSB Buffer Register |
//!
//! The 16-bit latches are written, and the 16-bit counters read, through buffer registers, most
//! significant byte first. Writing the least significant byte transfers the full value into the
//! timer's latch; reading the most significant byte loads the least significant one into the LSB
//! buffer.
//!
//! Virtual peripherals connect to the PTM over a transport using the protocol of
//! [`crate::protocol::ptm`]. Each new connection is answered with the state of the clock, gate and
//! output signals. Afterwards every change to the output signals is sent to all connections, and so
//! is every change to the clock and gate signals, but only while several peripherals are connected:
//! a lone peripheral drives these signals itself. Each connection may signal transitions of the
//! clock and gate inputs.

use crate::device;
use crate::device::{DeviceId, ErrorSender, IoDevice};
use crate::error_reporter;
use crate::error_reporter::{report, ErrorReporter, ReporterView};
use crate::protocol::ptm::{PtmProtocolDecoder, PtmProtocolEncoder, PtmProtocolMessage};
use crate::protocol::ProtocolMessageEncoding;
use crate::protocol_manager;
use crate::protocol_manager::{ManagerView, ProtocolManager};
use crate::transport::{TransportError, TransportEvent, TransportPort};
use vstd::prelude::*;

verus! {

pub const T1: usize = 0;

pub const T2: usize = 1;

pub const T3: usize = 2;

pub const CTRL_CR1_ENABLE: u8 = 0b00000001;

pub const CTRL_T3_PRESCALE: u8 = 0b00000001;

pub const CTRL_INTERNAL_RESET: u8 = 0b00000001;

pub const CTRL_USE_EXTERNAL_CLOCK: u8 = 0b00000010;

pub const CTRL_COUNTER_DUAL_8BIT: u8 = 0b00000100;

pub const CTRL_IRQ_ENABLE: u8 = 0b01000000;

pub const CTRL_OUTPUT_ENABLE: u8 = 0b10000000;

pub const CTRL_MODE_MASK: u8 = 0b00111000;

pub const CTRL_MODE_COMPARE: u8 = 0b00001000;

pub const CTRL_MODE_DEFERRED_INIT: u8 = 0b00010000;

pub const CTRL_MODE_SINGLE_SHOT: u8 = 0b00100000;

pub const CTRL_MODE_PULSE_WIDTH: u8 = 0b00010000;

pub const CTRL_MODE_GREATER: u8 = 0b00100000;

pub const RESET_COUNT: u16 = 0xFFFF;

pub const IRQ_COMPOSITE: u8 = 0b10000000;

/// A prescaler (divider) used by Timer 3.
#[derive(Debug, Clone, Copy, PartialEq, Eq, Structural)]
pub struct Prescaler {
    pub divisor: u8,
    pub count: u8,
}

impl Prescaler {
    /// What holds of every prescaler.
    pub open spec fn wf(self) -> bool {
        1 <= self.count <= self.divisor
    }

    /// Whether the next clock is the one that is passed on.
    pub open spec fn carries(self) -> bool {
        self.count == 1
    }

    /// The prescaler after a clock.
    pub open spec fn clocked(self) -> Self {
        Prescaler {
            count: if self.carries() {
                self.divisor
            } else {
                (self.count - 1) as u8
            },
            ..self
        }
    }

    /// Creates a prescaler that passes on one in `divisor` clocks.
    pub fn new(divisor: u8) -> (p: Self)
        ensures
            p == (Prescaler { divisor, count: divisor }),
    {
        Prescaler { divisor, count: divisor }
    }

    /// Takes a clock and tells whether it is passed on.
    pub fn update_has_carry_out(&mut self) -> (carry_out: bool)
        requires
            old(self).wf(),
        ensures
            final(self).wf(),
            *final(self) == old(self).clocked(),
            carry_out == old(self).carries(),
    {
        self.count -= 1;
        let carry_out = self.count == 0;
        if carry_out {
            self.count = self.divisor;
        }
        carry_out
    }
}

/// Which transition an edge-triggered `Synchronizer` recognizes.
#[derive(Clone, Copy, Debug, PartialEq, Eq, Structural)]
pub enum Edge {
    Rising,
    Falling,
}

/// Status of a comparison mode.
#[derive(Clone, Copy, Debug, PartialEq, Eq, Structural)]
pub enum CompareStatus {
    Idle,
    Started,
    Stopped,
}

/// Synchronizes an asynchronous input to the E clock through a pipeline, delaying either a
/// detected edge (Clock/Gate) or the raw level itself (Reset) by `depth` E cycles.
#[derive(Clone, Copy)]
pub struct Synchronizer {
    pub pipeline: [bool; 4],
    /// The pipeline's output as of the previous sample, used to detect a transition in the
    /// already-synchronized signal.
    pub prev_recognized: bool,
    pub depth: usize,
    pub edge_triggered: bool,
}

impl Synchronizer {
    /// What holds of every synchronizer.
    pub open spec fn wf(self) -> bool {
        1 <= self.depth <= 4
    }

    /// The level that leaves the pipeline with the next sample.
    pub open spec fn recognized_level(self) -> bool {
        self.pipeline[self.depth - 1]
    }

    /// The synchronizer after a sample of `level`.
    pub open spec fn sampled(self, level: bool) -> Self {
        Synchronizer {
            pipeline: [
                level,
                self.pipeline[if self.depth > 1 { 0 } else { 1 }],
                self.pipeline[if self.depth > 2 { 1 } else { 2 }],
                self.pipeline[if self.depth > 3 { 2 } else { 3 }],
            ],
            prev_recognized: self.recognized_level(),
            ..self
        }
    }

    /// What a sample reports: the edge asked for, or the delayed level.
    pub open spec fn recognizes(self, edge: Edge) -> bool {
        if self.edge_triggered {
            match edge {
                Edge::Falling => self.prev_recognized && !self.recognized_level(),
                Edge::Rising => !self.prev_recognized && self.recognized_level(),
            }
        } else {
            self.recognized_level()
        }
    }

    /// Creates a synchronizer whose input has been at `prev_level`. The depth is 4 for Clock/Gate
    /// and 3 for Reset; Clock/Gate are edge-triggered, Reset is not.
    pub fn new(depth: usize, prev_level: bool, edge_triggered: bool) -> (s: Self)
        requires
            1 <= depth <= 4,
        ensures
            s.wf(),
            s == (Synchronizer {
                pipeline: [prev_level, prev_level, prev_level, prev_level],
                prev_recognized: prev_level,
                depth,
                edge_triggered,
            }),
    {
        Synchronizer {
            pipeline: [prev_level, prev_level, prev_level, prev_level],
            prev_recognized: prev_level,
            depth,
            edge_triggered,
        }
    }

    /// Call once per full system clock cycle (E) with the current raw pin level. Returns whether
    /// the input is recognized on this tick, `depth` E cycles after the underlying transition or
    /// level: a one-cycle pulse for the selected edge if edge-triggered, else the delayed level.
    pub fn sample_for(&mut self, level: bool, edge: Edge) -> (recognized: bool)
        requires
            old(self).wf(),
        ensures
            final(self).wf(),
            *final(self) == old(self).sampled(level),
            recognized == old(self).recognizes(edge),
    {
        let recognized_level = self.pipeline[self.depth - 1];
        let stages = self.pipeline;
        self.pipeline = [
            level,
            if self.depth > 1 {
                stages[0]
            } else {
                stages[1]
            },
            if self.depth > 2 {
                stages[1]
            } else {
                stages[2]
            },
            if self.depth > 3 {
                stages[2]
            } else {
                stages[3]
            },
        ];
        let result = if self.edge_triggered {
            match edge {
                Edge::Falling => self.prev_recognized && !recognized_level,
                Edge::Rising => !self.prev_recognized && recognized_level,
            }
        } else {
            recognized_level
        };
        self.prev_recognized = recognized_level;
        assert(self.pipeline =~= old(self).sampled(level).pipeline);
        result
    }

    /// Samples the current raw pin level, looking for a falling edge.
    pub fn sample(&mut self, level: bool) -> (recognized: bool)
        requires
            old(self).wf(),
        ensures
            final(self).wf(),
            *final(self) == old(self).sampled(level),
            recognized == old(self).recognizes(Edge::Falling),
    {
        self.sample_for(level, Edge::Falling)
    }
}

/// A synchronizer after each of `levels` was sampled in order.
pub open spec fn after_samples(s: Synchronizer, levels: Seq<bool>) -> Synchronizer
    decreases levels.len(),
{
    if levels.len() == 0 {
        s
    } else {
        after_samples(s, levels.drop_last()).sampled(levels.last())
    }
}

/// A level leaves the pipeline `depth` samples after it was sampled.
pub proof fn synchronizer_delays_by_depth(s: Synchronizer, levels: Seq<bool>)
    requires
        s.wf(),
        levels.len() >= s.depth,
    ensures
        after_samples(s, levels).recognized_level() == levels[levels.len() - s.depth],
{
    lemma_pipeline_holds_last_samples(s, levels);
}

proof fn lemma_pipeline_holds_last_samples(s: Synchronizer, levels: Seq<bool>)
    requires
        s.wf(),
    ensures
        after_samples(s, levels).depth == s.depth,
        forall|i: int|
            0 <= i < s.depth && i < levels.len() ==> #[trigger] after_samples(
                s,
                levels,
            ).pipeline@[i] == levels[levels.len() - 1 - i],
    decreases levels.len(),
{
    if levels.len() > 0 {
        let before = after_samples(s, levels.drop_last());
        lemma_pipeline_holds_last_samples(s, levels.drop_last());
        let after = after_samples(s, levels);
        assert forall|i: int| 0 <= i < s.depth && i < levels.len() implies #[trigger] after.pipeline@[i]
            == levels[levels.len() - 1 - i] by {
            if i > 0 {
                assert(after.pipeline@[i] == before.pipeline@[i - 1]);
            }
        }
    }
}

/// A timer unit of the MC6840 PTM. All three timers are modeled using this struct.
#[derive(Clone, Copy)]
pub struct Timer {
    /// Count to set at each load.
    pub latch: u16,
    /// Whether the latch was zero at the last load; used only for 16-bit continuous countdown mode.
    pub carry_in: bool,
    /// Optional prescaler (used only by T3 when prescaling mode is enabled).
    pub prescaler: Option<Prescaler>,
    /// Count remaining after the last load.
    pub counter: u16,
    /// Whether gate input Gx has been triggered (on falling edge).
    pub triggered: bool,
    /// Mode selected in the control register.
    pub mode: u8,
    /// Whether this timer is clocked by the clock pin (Cx).
    pub external_clock: bool,
    /// Whether the dual 8-bit mode has been selected.
    pub dual8bit_mode: bool,
    /// Whether timeouts result in an interrupt.
    pub irq_enabled: bool,
    /// Whether changes to the output pin (Ox) are transmitted to the transport.
    pub output_enabled: bool,
    /// Whether this timer wants to assert the CPU's IRQ.
    pub irq_active: bool,
    pub compare_status: CompareStatus,
    pub awaiting_edge: Edge,
    /// State of the output pin (Ox).
    pub output_state: bool,
    /// Raw level of the clock pin (Cx) last received from the transport.
    pub clock_level: bool,
    /// Models the pipeline delay of the clock input (Cx).
    pub clock_sync: Synchronizer,
    /// Raw level of gate pin Gx last received from the transport.
    pub gate_level: bool,
    /// Models the pipeline delay of gate input Gx.
    pub gate_sync: Synchronizer,
}

/// A timer as it comes out of power-up.
pub open spec fn new_timer() -> Timer {
    Timer {
        latch: RESET_COUNT,
        carry_in: false,
        prescaler: None,
        counter: 0,
        triggered: false,
        mode: 0,
        external_clock: false,
        dual8bit_mode: false,
        irq_enabled: false,
        output_enabled: false,
        irq_active: false,
        compare_status: CompareStatus::Idle,
        awaiting_edge: Edge::Falling,
        output_state: false,
        clock_level: true,
        clock_sync: Synchronizer {
            pipeline: [true, true, true, true],
            prev_recognized: true,
            depth: 4,
            edge_triggered: true,
        },
        gate_level: false,
        gate_sync: Synchronizer {
            pipeline: [false, false, false, false],
            prev_recognized: false,
            depth: 4,
            edge_triggered: true,
        },
    }
}

impl Timer {
    /// What holds of every timer.
    pub open spec fn wf(self) -> bool {
        &&& self.prescaler matches Some(p) ==> p.wf()
        &&& self.clock_sync.wf()
        &&& self.gate_sync.wf()
    }

    /// Whether the timer is in a wave generation mode.
    pub open spec fn generating(self) -> bool {
        self.mode & CTRL_MODE_COMPARE == 0
    }

    /// Whether the timer generates continuously.
    pub open spec fn continuous(self) -> bool {
        self.generating() && self.mode & CTRL_MODE_SINGLE_SHOT == 0
    }

    /// Whether the timer generates a single shot.
    pub open spec fn single_shot(self) -> bool {
        self.generating() && self.mode & CTRL_MODE_SINGLE_SHOT != 0
    }

    /// Whether writing the latch leaves the timer as it is until its gate triggers it.
    pub open spec fn deferred_init(self) -> bool {
        self.generating() && self.mode & CTRL_MODE_DEFERRED_INIT != 0
    }

    /// Whether the timer is in a measurement mode.
    pub open spec fn comparing(self) -> bool {
        self.mode & CTRL_MODE_COMPARE != 0
    }

    /// Whether the timer measures a frequency rather than a pulse width.
    pub open spec fn frequency(self) -> bool {
        self.comparing() && self.mode & CTRL_MODE_PULSE_WIDTH == 0
    }

    /// Whether the timer interrupts when the measured interval is longer than the count, rather
    /// than shorter.
    pub open spec fn compare_greater(self) -> bool {
        self.comparing() && self.mode & CTRL_MODE_GREATER != 0
    }

    /// Whether the counter has run out.
    pub open spec fn zero(self) -> bool {
        self.counter == 0 && (self.dual8bit_mode || !self.carry_in)
    }

    /// The timer with another clock level, if it has changed.
    pub open spec fn with_clock(self, changed: bool, level: bool) -> Self {
        if changed {
            Timer { clock_level: level, ..self }
        } else {
            self
        }
    }

    /// The timer with another gate level, if it has changed.
    pub open spec fn with_gate(self, changed: bool, level: bool) -> Self {
        if changed {
            Timer { gate_level: level, ..self }
        } else {
            self
        }
    }

    /// The timer after its control register was written.
    pub open spec fn controlled(self, value: u8) -> Self {
        let dual8bit_mode = value & CTRL_COUNTER_DUAL_8BIT != 0;
        Timer {
            compare_status: CompareStatus::Idle,
            mode: value & CTRL_MODE_MASK,
            dual8bit_mode,
            external_clock: value & CTRL_USE_EXTERNAL_CLOCK != 0,
            irq_enabled: value & CTRL_IRQ_ENABLE != 0,
            output_enabled: value & CTRL_OUTPUT_ENABLE != 0,
            output_state: self.output_state && !dual8bit_mode,
            ..self
        }
    }

    /// The timer after its counter was loaded from the latch.
    pub open spec fn loaded(self) -> Self {
        Timer {
            counter: self.latch,
            carry_in: self.latch == 0 && self.continuous(),
            output_state: self.output_state && !(self.dual8bit_mode && self.latch != 0),
            ..self
        }
    }

    /// The timer after its initialization.
    pub open spec fn initialized(self) -> Self {
        Timer {
            irq_active: false,
            output_state: false,
            triggered: true,
            compare_status: if self.comparing() {
                CompareStatus::Started
            } else {
                CompareStatus::Idle
            },
            awaiting_edge: if self.comparing() && !self.frequency() {
                Edge::Rising
            } else {
                Edge::Falling
            },
            ..self.loaded()
        }
    }

    /// The timer after its counter was decremented. In dual 8-bit mode the low byte counts down
    /// within each step of the high byte, and the output goes high when the high byte reaches zero.
    pub open spec fn decremented(self) -> Self {
        if self.dual8bit_mode {
            let low = self.counter as int % 256;
            let high = self.counter as int / 256;
            if low > 0 {
                Timer { counter: (self.counter - 1) as u16, ..self }
            } else if high > 0 {
                Timer {
                    counter: ((high - 1) * 256 + self.latch as int % 256) as u16,
                    output_state: self.output_state || high == 1,
                    ..self
                }
            } else {
                Timer { counter: (self.latch as int % 256) as u16, ..self }
            }
        } else if self.counter == 0 {
            Timer { counter: 0xFFFF, ..self }
        } else {
            Timer { counter: (self.counter - 1) as u16, ..self }
        }
    }

    /// The timer after its counter ran out in a generation mode: a continuous timer starts over, a
    /// single shot is done.
    pub open spec fn timed_out(self) -> Self {
        let next = if self.continuous() {
            self.loaded()
        } else {
            Timer { triggered: false, ..self }
        };
        Timer {
            irq_active: self.irq_enabled,
            output_state: !(self.dual8bit_mode && self.latch != 0 || self.single_shot())
                && !next.output_state,
            ..next
        }
    }

    /// The timer after its counter counted. A comparison that runs out of counts is over.
    pub open spec fn counted(self) -> Self {
        let ready = if self.zero() && self.comparing() {
            Timer { compare_status: CompareStatus::Idle, awaiting_edge: Edge::Falling, ..self }
        } else {
            self
        };
        let next = ready.decremented();
        Timer { carry_in: false, output_state: next.output_state || self.single_shot(), ..next }
    }

    /// The timer after its counter was clocked.
    pub open spec fn counter_clocked(self) -> Self {
        if !self.triggered || self.continuous() && self.gate_level {
            self
        } else if self.zero() && self.generating() {
            self.timed_out()
        } else {
            self.counted()
        }
    }

    /// The timer after it was clocked, through its prescaler if it has one.
    pub open spec fn clocked(self) -> Self {
        match self.prescaler {
            Some(p) => {
                let next = Timer { prescaler: Some(p.clocked()), ..self };
                if p.carries() {
                    next.counter_clocked()
                } else {
                    next
                }
            },
            None => self.counter_clocked(),
        }
    }

    /// The timer after a running comparison was checked.
    pub open spec fn compared(self, edge_detected: bool) -> Self {
        let stop = if self.compare_greater() {
            self.counter == 0
        } else {
            edge_detected
        };
        if stop {
            Timer {
                compare_status: CompareStatus::Stopped,
                irq_active: self.irq_enabled,
                awaiting_edge: Edge::Falling,
                ..self
            }
        } else if self.compare_greater() && edge_detected {
            Timer { compare_status: CompareStatus::Idle, ..self }
        } else {
            self
        }
    }

    /// Whether a gate trigger initializes the timer.
    pub open spec fn init_on_trigger(self) -> bool {
        self.generating() || !self.irq_active && (self.compare_status != CompareStatus::Started
            || self.compare_greater())
    }

    /// The timer after its clock input was sampled, and clocked if it is time to.
    pub open spec fn advanced(self) -> Self {
        let sampled = Timer { clock_sync: self.clock_sync.sampled(self.clock_level), ..self };
        if !self.external_clock || self.clock_sync.recognizes(Edge::Falling) {
            sampled.clocked()
        } else {
            sampled
        }
    }

    /// The timer after its gate input was sampled, and whether its clock input is due: a gate
    /// trigger that initializes the timer takes the cycle.
    pub open spec fn gated(self) -> (Self, bool) {
        let edge_detected = self.gate_sync.recognizes(self.awaiting_edge);
        let next = Timer { gate_sync: self.gate_sync.sampled(self.gate_level), ..self };
        if edge_detected && self.awaiting_edge == Edge::Falling && self.init_on_trigger() {
            (next.initialized(), false)
        } else if self.comparing() && self.compare_status == CompareStatus::Started
            && !self.irq_active {
            (next.compared(edge_detected), true)
        } else {
            (next, true)
        }
    }

    /// The timer after one E clock cycle.
    pub open spec fn ticked(self) -> Self {
        let (next, clock_due) = self.gated();
        if clock_due {
            next.advanced()
        } else {
            next
        }
    }

    /// The timer after `n` E clock cycles.
    pub open spec fn ticked_times(self, n: nat) -> Self
        decreases n,
    {
        if n == 0 {
            self
        } else {
            self.ticked_times((n - 1) as nat).ticked()
        }
    }

    /// Creates a timer as it comes out of power-up.
    pub fn new() -> (t: Self)
        ensures
            t == new_timer(),
            t.wf(),
    {
        let t = Timer {
            latch: RESET_COUNT,
            carry_in: false,
            prescaler: None,
            counter: 0,
            triggered: false,
            mode: 0,
            external_clock: false,
            dual8bit_mode: false,
            irq_enabled: false,
            irq_active: false,
            compare_status: CompareStatus::Idle,
            awaiting_edge: Edge::Falling,
            output_enabled: false,
            output_state: false,
            clock_level: true,
            clock_sync: Synchronizer::new(4, true, true),
            gate_level: false,
            gate_sync: Synchronizer::new(4, false, true),
        };
        t
    }

    /// Whether the timer is in a wave generation mode.
    pub fn is_generating(&self) -> (r: bool)
        ensures
            r == self.generating(),
    {
        self.mode & CTRL_MODE_COMPARE == 0
    }

    /// Whether the timer generates continuously.
    pub fn is_continuous(&self) -> (r: bool)
        ensures
            r == self.continuous(),
    {
        self.is_generating() && self.mode & CTRL_MODE_SINGLE_SHOT == 0
    }

    /// Whether the timer generates a single shot.
    pub fn is_single_shot(&self) -> (r: bool)
        ensures
            r == self.single_shot(),
    {
        self.is_generating() && self.mode & CTRL_MODE_SINGLE_SHOT != 0
    }

    /// Whether writing the latch leaves the timer as it is until its gate triggers it.
    pub fn is_deferred_init(&self) -> (r: bool)
        ensures
            r == self.deferred_init(),
    {
        self.is_generating() && self.mode & CTRL_MODE_DEFERRED_INIT != 0
    }

    /// Whether the timer is in a measurement mode.
    pub fn is_comparing(&self) -> (r: bool)
        ensures
            r == self.comparing(),
    {
        self.mode & CTRL_MODE_COMPARE != 0
    }

    /// Whether the timer measures a frequency rather than a pulse width.
    pub fn is_frequency(&self) -> (r: bool)
        ensures
            r == self.frequency(),
    {
        self.is_comparing() && self.mode & CTRL_MODE_PULSE_WIDTH == 0
    }

    /// Whether the timer interrupts when the measured interval is longer than the count.
    pub fn is_compare_greater(&self) -> (r: bool)
        ensures
            r == self.compare_greater(),
    {
        self.is_comparing() && self.mode & CTRL_MODE_GREATER != 0
    }

    /// Writes the timer's control register.
    pub fn set_control_register(&mut self, value: u8)
        ensures
            *final(self) == old(self).controlled(value),
            final(self).prescaler == old(self).prescaler,
            final(self).clock_sync == old(self).clock_sync,
            final(self).gate_sync == old(self).gate_sync,
    {
        self.compare_status = CompareStatus::Idle;
        self.mode = value & CTRL_MODE_MASK;
        self.dual8bit_mode = value & CTRL_COUNTER_DUAL_8BIT != 0;
        self.external_clock = value & CTRL_USE_EXTERNAL_CLOCK != 0;
        self.irq_enabled = value & CTRL_IRQ_ENABLE != 0;
        self.output_enabled = value & CTRL_OUTPUT_ENABLE != 0;
        if self.dual8bit_mode {
            self.output_state = false;
        }
    }

    fn set_prescaled_control_register(&mut self, value: u8)
        requires
            old(self).wf(),
        ensures
            final(self).wf(),
            *final(self) == (Timer {
                prescaler: if value & CTRL_T3_PRESCALE != 0 {
                    Some(Prescaler { divisor: 8, count: 8 })
                } else {
                    None
                },
                ..old(self).controlled(value)
            }),
    {
        self.set_control_register(value);
        self.prescaler = if value & CTRL_T3_PRESCALE != 0 {
            Some(Prescaler::new(8))
        } else {
            None
        };
    }

    fn clear_latched_irq(&mut self, latched: bool)
        ensures
            *final(self) == (Timer { irq_active: old(self).irq_active && !latched, ..*old(self) }),
    {
        if latched {
            self.clear_irq();
        }
    }

    /// Withdraws the timer's interrupt.
    pub fn clear_irq(&mut self)
        ensures
            *final(self) == (Timer { irq_active: false, ..*old(self) }),
    {
        self.irq_active = false;
    }

    /// Whether the timer wants to assert the CPU's IRQ.
    pub fn irq_active(&self) -> (r: bool)
        ensures
            r == self.irq_active,
    {
        self.irq_active
    }

    /// Whether the counter has run out.
    pub fn is_zero(&self) -> (r: bool)
        ensures
            r == self.zero(),
    {
        self.counter == 0 && (self.dual8bit_mode || !self.carry_in)
    }

    /// Loads the counter from the latch.
    pub fn load(&mut self)
        ensures
            *final(self) == old(self).loaded(),
    {
        self.counter = self.latch;
        self.carry_in = self.latch == 0 && self.is_continuous();
        if self.dual8bit_mode && self.latch != 0 {
            self.output_state = false;
        }
    }

    /// Initializes the timer.
    pub fn init(&mut self)
        ensures
            *final(self) == old(self).initialized(),
            final(self).prescaler == old(self).prescaler,
            final(self).clock_sync == old(self).clock_sync,
            final(self).gate_sync == old(self).gate_sync,
    {
        self.load();
        self.irq_active = false;
        self.output_state = false;
        self.triggered = true;
        self.compare_status = if self.is_comparing() {
            CompareStatus::Started
        } else {
            CompareStatus::Idle
        };
        self.awaiting_edge = if self.is_comparing() && !self.is_frequency() {
            Edge::Rising
        } else {
            Edge::Falling
        };
    }

    /// Decrements the counter. A 16-bit counter passes through zero only while measuring, or right
    /// after a load.
    #[verifier::spinoff_prover]
    #[verifier::rlimit(30)]
    pub fn decrement(&mut self)
        requires
            old(self).dual8bit_mode || old(self).comparing() || old(self).carry_in || old(
                self,
            ).counter > 0,
        ensures
            *final(self) == old(self).decremented(),
            *final(self) == (Timer {
                counter: final(self).counter,
                output_state: final(self).output_state,
                ..*old(self)
            }),
    {
        if self.dual8bit_mode {
            let mut lsb: u16 = self.counter % 256;
            let mut msb: u16 = self.counter / 256;
            if lsb == 0 {
                lsb = self.latch % 256;
                if msb > 0 {
                    msb -= 1;
                    if msb == 0 {
                        self.output_state = true;
                    }
                }
            } else {
                lsb -= 1;
            }
            assert(old(self).counter == old(self).counter / 256 * 256 + old(self).counter % 256);
            self.counter = msb * 256 + lsb;
            assert(self.counter == old(self).decremented().counter);
            assert(self.output_state == old(self).decremented().output_state);
        } else {
            self.counter = self.counter.wrapping_sub(1);
        }
    }

    fn set_latch(&mut self, latch: u16)
        requires
            old(self).wf(),
        ensures
            final(self).wf(),
            ({
                let latched = Timer { latch, ..*old(self) };
                *final(self) == if latched.deferred_init() {
                    latched
                } else {
                    latched.initialized()
                }
            }),
    {
        self.latch = latch;
        if !self.is_deferred_init() {
            self.init();
        }
    }

    fn set_clock(&mut self, changed: bool, level: bool)
        ensures
            *final(self) == old(self).with_clock(changed, level),
            old(self).wf() ==> final(self).wf(),
    {
        if changed {
            self.clock_level = level;
        }
    }

    fn set_gate(&mut self, changed: bool, level: bool)
        ensures
            *final(self) == old(self).with_gate(changed, level),
            old(self).wf() ==> final(self).wf(),
    {
        if changed {
            self.gate_level = level;
        }
    }

    fn time_out(&mut self)
        ensures
            *final(self) == old(self).timed_out(),
    {
        if self.is_continuous() {
            self.load();
        } else {
            self.triggered = false;
        }
        self.irq_active = self.irq_enabled;
        self.output_state = if self.dual8bit_mode && self.latch != 0 || self.is_single_shot() {
            false
        } else {
            !self.output_state
        };
    }

    fn count_down(&mut self)
        requires
            !(old(self).zero() && old(self).generating()),
        ensures
            *final(self) == old(self).counted(),
    {
        if self.is_zero() && self.is_comparing() {
            self.compare_status = CompareStatus::Idle;
            self.awaiting_edge = Edge::Falling;
        }
        let ghost ready = *self;
        self.decrement();
        let single_shot = self.is_single_shot();
        assert(single_shot == ready.single_shot());
        self.carry_in = false;
        if single_shot {
            self.output_state = true;
        }
    }

    /// Clocks the counter.
    pub fn clock_counter(&mut self)
        ensures
            *final(self) == old(self).counter_clocked(),
            final(self).prescaler == old(self).prescaler,
            final(self).clock_sync == old(self).clock_sync,
            final(self).gate_sync == old(self).gate_sync,
    {
        if !self.triggered {
            return ;
        }
        if self.is_continuous() && self.gate_level {
            return ;
        }
        if self.is_zero() && self.is_generating() {
            self.time_out();
        } else {
            self.count_down();
        }
    }

    /// Clocks the timer, through its prescaler if it has one.
    pub fn clock(&mut self)
        requires
            old(self).wf(),
        ensures
            final(self).wf(),
            *final(self) == old(self).clocked(),
    {
        match self.prescaler {
            Some(p) => {
                let mut prescaler = p;
                let carry_out = prescaler.update_has_carry_out();
                self.prescaler = Some(prescaler);
                if carry_out {
                    self.clock_counter();
                }
            },
            None => {
                self.clock_counter();
            },
        }
    }

    /// Checks a running comparison.
    pub fn check_comparison(&mut self, edge_detected: bool)
        ensures
            *final(self) == old(self).compared(edge_detected),
            final(self).prescaler == old(self).prescaler,
            final(self).clock_sync == old(self).clock_sync,
            final(self).gate_sync == old(self).gate_sync,
    {
        let stop = if self.is_compare_greater() {
            self.counter == 0
        } else {
            edge_detected
        };
        if stop {
            self.compare_status = CompareStatus::Stopped;
            self.irq_active = self.irq_enabled;
            self.awaiting_edge = Edge::Falling;
        } else if self.is_compare_greater() && edge_detected {
            self.compare_status = CompareStatus::Idle;
        }
    }

    fn advance(&mut self)
        requires
            old(self).wf(),
        ensures
            final(self).wf(),
            *final(self) == old(self).advanced(),
    {
        let clock_triggered = self.clock_sync.sample(self.clock_level);
        if !self.external_clock || clock_triggered {
            self.clock();
        }
    }

    #[verifier::rlimit(60)]
    fn gate(&mut self) -> (clock_due: bool)
        requires
            old(self).wf(),
        ensures
            final(self).wf(),
            *final(self) == old(self).gated().0,
            clock_due == old(self).gated().1,
    {
        let edge_detected = self.gate_sync.sample_for(self.gate_level, self.awaiting_edge);
        let ghost next = Timer { gate_sync: self.gate_sync, ..*old(self) };
        assert(*self == next);
        let gate_triggered = edge_detected && self.awaiting_edge == Edge::Falling;
        let init_compare = !self.irq_active && (self.compare_status != CompareStatus::Started
            || self.is_compare_greater());
        let init_counter = self.is_generating() || init_compare;
        assert(init_counter == old(self).init_on_trigger());
        if gate_triggered && init_counter {
            self.init();
            return false;
        }
        if self.is_comparing() && self.compare_status == CompareStatus::Started
            && !self.irq_active() {
            self.check_comparison(edge_detected);
        }
        true
    }

    /// Advances the timer by one E clock cycle.
    pub fn tick(&mut self)
        requires
            old(self).wf(),
        ensures
            final(self).wf(),
            *final(self) == old(self).ticked(),
    {
        if self.gate() {
            self.advance();
        }
    }
}

/// The levels of the signals that peripherals see.
#[derive(Debug, Clone, Copy, PartialEq, Eq)]
pub struct AsyncIoState {
    pub clocks: [bool; 3],
    pub gates: [bool; 3],
    pub outputs: [bool; 3],
}

/// The levels of the signals of three timers; an output is seen only while it is enabled.
pub open spec fn io_state(timers: Seq<Timer>) -> AsyncIoState {
    AsyncIoState {
        clocks: [timers[0].clock_level, timers[1].clock_level, timers[2].clock_level],
        gates: [timers[0].gate_level, timers[1].gate_level, timers[2].gate_level],
        outputs: [
            timers[0].output_state && timers[0].output_enabled,
            timers[1].output_state && timers[1].output_enabled,
            timers[2].output_state && timers[2].output_enabled,
        ],
    }
}

impl AsyncIoState {
    /// Reads the signals of the timers.
    pub fn new(timers: &[Timer; 3]) -> (state: Self)
        ensures
            state == io_state(timers@),
    {
        AsyncIoState {
            clocks: [timers[0].clock_level, timers[1].clock_level, timers[2].clock_level],
            gates: [timers[0].gate_level, timers[1].gate_level, timers[2].gate_level],
            outputs: [
                timers[0].output_state && timers[0].output_enabled,
                timers[1].output_state && timers[1].output_enabled,
                timers[2].output_state && timers[2].output_enabled,
            ],
        }
    }
}

/// The messages that tell a peripheral the levels of all signals.
pub open spec fn state_messages(state: AsyncIoState) -> Seq<PtmProtocolMessage> {
    seq![
        PtmProtocolMessage::ClockState { clocks: state.clocks },
        PtmProtocolMessage::GateState { gates: state.gates },
        PtmProtocolMessage::OutputState { outputs: state.outputs },
    ]
}

/// The messages that tell peripherals which groups of signals changed, and their new levels. The
/// inputs are told only where `several` peripherals are connected.
pub open spec fn update_messages(
    before: AsyncIoState,
    after: AsyncIoState,
    several: bool,
) -> Seq<PtmProtocolMessage> {
    let clocks = if several && before.clocks != after.clocks {
        seq![PtmProtocolMessage::ClockState { clocks: after.clocks }]
    } else {
        Seq::empty()
    };
    let gates = if several && before.gates != after.gates {
        seq![PtmProtocolMessage::GateState { gates: after.gates }]
    } else {
        Seq::empty()
    };
    let outputs = if before.outputs != after.outputs {
        seq![PtmProtocolMessage::OutputState { outputs: after.outputs }]
    } else {
        Seq::empty()
    };
    clocks + gates + outputs
}

fn same_levels(a: [bool; 3], b: [bool; 3]) -> (same: bool)
    ensures
        same == (a == b),
{
    let same = a[0] == b[0] && a[1] == b[1] && a[2] == b[2];
    assert(same ==> a =~= b);
    same
}

/// The timers after those that are flagged got a new clock level.
pub open spec fn with_clocks(timers: Seq<Timer>, clocks: [bool; 3], level: bool) -> Seq<Timer> {
    Seq::new(
        timers.len(),
        |i: int| timers[i].with_clock(clocks[i], level),
    )
}

/// The timers after those that are flagged got a new gate level.
pub open spec fn with_gates(timers: Seq<Timer>, gates: [bool; 3], level: bool) -> Seq<Timer> {
    Seq::new(
        timers.len(),
        |i: int| timers[i].with_gate(gates[i], level),
    )
}

/// The timers after a peripheral's message: it may signal edges, and nothing else.
pub open spec fn applied(timers: Seq<Timer>, message: PtmProtocolMessage) -> Seq<Timer> {
    match message {
        PtmProtocolMessage::ClockEdge { clocks, positive } => with_clocks(timers, clocks, positive),
        PtmProtocolMessage::GateEdge { gates, positive } => with_gates(timers, gates, positive),
        _ => timers,
    }
}

/// The timers after `n` E clock cycles.
pub open spec fn timers_ticked(timers: Seq<Timer>, n: nat) -> Seq<Timer> {
    Seq::new(timers.len(), |i: int| timers[i].ticked_times(n))
}

/// The timers after an internal reset.
pub open spec fn timers_initialized(timers: Seq<Timer>) -> Seq<Timer> {
    Seq::new(timers.len(), |i: int| timers[i].initialized())
}

/// What holds of the timers of every PTM.
pub open spec fn timers_wf(timers: Seq<Timer>) -> bool {
    forall|i: int| 0 <= i < timers.len() ==> (#[trigger] timers[i]).wf()
}

fn set_clocks(timers: &mut [Timer; 3], clocks: [bool; 3], level: bool)
    requires
        timers_wf(old(timers)@),
    ensures
        timers_wf(final(timers)@),
        final(timers)@ == with_clocks(old(timers)@, clocks, level),
{
    let mut i: usize = 0;
    while i < 3
        invariant
            i <= 3,
            timers_wf(timers@),
            forall|k: int| i <= k < 3 ==> timers@[k] == old(timers)@[k],
            forall|k: int|
                0 <= k < i ==> #[trigger] timers@[k] == old(timers)@[k].with_clock(clocks[k], level),
        decreases 3 - i,
    {
        timers[i].set_clock(clocks[i], level);
        i += 1;
    }
    assert(timers@ =~= with_clocks(old(timers)@, clocks, level));
}

fn set_gates(timers: &mut [Timer; 3], gates: [bool; 3], level: bool)
    requires
        timers_wf(old(timers)@),
    ensures
        timers_wf(final(timers)@),
        final(timers)@ == with_gates(old(timers)@, gates, level),
{
    let mut i: usize = 0;
    while i < 3
        invariant
            i <= 3,
            timers_wf(timers@),
            forall|k: int| i <= k < 3 ==> timers@[k] == old(timers)@[k],
            forall|k: int|
                0 <= k < i ==> #[trigger] timers@[k] == old(timers)@[k].with_gate(gates[k], level),
        decreases 3 - i,
    {
        timers[i].set_gate(gates[i], level);
        i += 1;
    }
    assert(timers@ =~= with_gates(old(timers)@, gates, level));
}

fn tick_all(timers: &mut [Timer; 3])
    requires
        timers_wf(old(timers)@),
    ensures
        timers_wf(final(timers)@),
        forall|k: int| 0 <= k < 3 ==> #[trigger] final(timers)@[k] == old(timers)@[k].ticked(),
{
    let mut i: usize = 0;
    while i < 3
        invariant
            i <= 3,
            timers_wf(timers@),
            forall|k: int| i <= k < 3 ==> timers@[k] == old(timers)@[k],
            forall|k: int| 0 <= k < i ==> #[trigger] timers@[k] == old(timers)@[k].ticked(),
        decreases 3 - i,
    {
        timers[i].tick();
        i += 1;
    }
}

fn tick_timers(timers: &mut [Timer; 3], cycles: u32)
    requires
        timers_wf(old(timers)@),
    ensures
        timers_wf(final(timers)@),
        final(timers)@ == timers_ticked(old(timers)@, cycles as nat),
{
    let mut done: u32 = 0;
    while done < cycles
        invariant
            done <= cycles,
            timers_wf(timers@),
            forall|k: int|
                0 <= k < 3 ==> #[trigger] timers@[k] == old(timers)@[k].ticked_times(done as nat),
        decreases cycles - done,
    {
        tick_all(timers);
        done += 1;
    }
    assert(timers@ =~= timers_ticked(old(timers)@, cycles as nat));
}

fn init_all(timers: &mut [Timer; 3])
    requires
        timers_wf(old(timers)@),
    ensures
        timers_wf(final(timers)@),
        final(timers)@ == timers_initialized(old(timers)@),
{
    let mut i: usize = 0;
    while i < 3
        invariant
            i <= 3,
            timers_wf(timers@),
            forall|k: int| i <= k < 3 ==> timers@[k] == old(timers)@[k],
            forall|k: int| 0 <= k < i ==> timers@[k] == #[trigger] timers_initialized(old(timers)@)[k],
        decreases 3 - i,
    {
        timers[i].init();
        i += 1;
    }
    assert(timers@ =~= timers_initialized(old(timers)@));
}

/// The manager of a PTM's transport.
pub type PtmManager = ProtocolManager<PtmProtocolMessage, PtmProtocolEncoder, PtmProtocolDecoder>;

/// A PTM's manager, by view.
pub type PtmManagerView = ManagerView<PtmProtocolEncoder, PtmProtocolDecoder>;

/// The manager and the timers after every message that has arrived was applied, and the error that
/// stopped this, if one did. `None` if data turns up for a client that never connected.
pub open spec fn drained(
    m: PtmManagerView,
    init_state: Seq<PtmProtocolMessage>,
    timers: Seq<Timer>,
) -> Option<(PtmManagerView, Seq<Timer>, Option<TransportError>)>
    decreases m.port.inbound.len(),
{
    proof {
        protocol_manager::message_takes_event::<
            PtmProtocolMessage,
            PtmProtocolEncoder,
            PtmProtocolDecoder,
        >(m, init_state);
    }
    match protocol_manager::polled::<PtmProtocolMessage, PtmProtocolEncoder, PtmProtocolDecoder>(
        m,
        init_state,
    ) {
        Some((next, Ok(Some(message)))) => drained(next, init_state, applied(timers, message)),
        Some((next, Ok(None))) => Some((next, timers, None)),
        Some((next, Err(e))) => Some((next, timers, Some(e))),
        None => None,
    }
}

/// A PTM, seen through its transport and its reporter.
#[verifier::ext_equal]
pub ghost struct Mc6840View {
    pub name: Seq<char>,
    pub address: u16,
    pub protocol: ProtocolMessageEncoding,
    pub manager: Option<PtmManagerView>,
    pub reporter: Option<ReporterView>,
    pub latched_status: u8,
    pub lsb_buffer: u8,
    pub msb_buffer: u8,
    pub timers: Seq<Timer>,
    pub cr1_enabled: bool,
    pub reset_active: bool,
}

pub struct Mc6840 {
    pub name: &'static str,
    pub address: u16,
    pub protocol: ProtocolMessageEncoding,
    pub protocol_manager: Option<PtmManager>,
    pub error_reporter: Option<ErrorReporter>,
    pub latched_status: u8,
    pub lsb_buffer: u8,
    pub msb_buffer: u8,
    pub timers: [Timer; 3],
    pub cr1_enabled: bool,
    pub reset_active: bool,
}

/// An optional manager, by view.
pub open spec fn manager_view(manager: Option<PtmManager>) -> Option<PtmManagerView> {
    match manager {
        Some(m) => Some(m@),
        None => None,
    }
}

impl View for Mc6840 {
    type V = Mc6840View;

    open spec fn view(&self) -> Mc6840View {
        Mc6840View {
            name: self.name@,
            address: self.address,
            protocol: self.protocol,
            manager: manager_view(self.protocol_manager),
            reporter: error_reporter::view_of(self.error_reporter),
            latched_status: self.latched_status,
            lsb_buffer: self.lsb_buffer,
            msb_buffer: self.msb_buffer,
            timers: self.timers@,
            cr1_enabled: self.cr1_enabled,
            reset_active: self.reset_active,
        }
    }
}

impl Mc6840View {
    /// A PTM as it comes out of power-up.
    pub open spec fn fresh(name: Seq<char>) -> Self {
        Mc6840View {
            name,
            address: 0,
            protocol: ProtocolMessageEncoding::Ascii,
            manager: None,
            reporter: None,
            latched_status: 0,
            lsb_buffer: 0,
            msb_buffer: 0,
            timers: seq![new_timer(), new_timer(), new_timer()],
            cr1_enabled: false,
            reset_active: false,
        }
    }

    /// The status register: a bit for each timer that interrupts, and bit 7 if any does.
    pub open spec fn status(self) -> u8 {
        let timers = (if self.timers[0].irq_active { 1int } else { 0 }) + (if self.timers[1].irq_active {
            2int
        } else {
            0
        }) + (if self.timers[2].irq_active { 4int } else { 0 });
        if timers == 0 {
            0
        } else {
            (timers + 128) as u8
        }
    }

    /// Whether the PTM interrupts.
    pub open spec fn irq(self) -> bool {
        self.status() != 0
    }

    /// Whether timer `i` was seen interrupting when the status register was last read.
    pub open spec fn irq_latched(self, i: int) -> bool {
        if i == 0 {
            self.latched_status % 2 == 1
        } else if i == 1 {
            self.latched_status / 2 % 2 == 1
        } else {
            self.latched_status / 4 % 2 == 1
        }
    }

    /// What a read at `offset` returns.
    pub open spec fn read_value(self, offset: int) -> u8 {
        if offset == 1 {
            self.status()
        } else if offset == 2 || offset == 4 || offset == 6 {
            (self.timers[(offset - 2) / 2].counter / 256) as u8
        } else if offset == 3 || offset == 5 || offset == 7 {
            self.lsb_buffer
        } else {
            0
        }
    }

    /// The PTM after a read at `offset`. Reading a counter withdraws the timer's interrupt if the
    /// status register has shown it before.
    pub open spec fn after_read(self, offset: int) -> Self {
        if offset == 1 {
            Mc6840View { latched_status: self.status(), ..self }
        } else if offset == 2 || offset == 4 || offset == 6 {
            let i = (offset - 2) / 2;
            let timer = self.timers[i];
            Mc6840View {
                lsb_buffer: (timer.counter % 256) as u8,
                timers: self.timers.update(
                    i,
                    Timer { irq_active: timer.irq_active && !self.irq_latched(i), ..timer },
                ),
                ..self
            }
        } else {
            self
        }
    }

    /// The PTM after a write at `offset`.
    pub open spec fn after_write(self, offset: int, value: u8) -> Self {
        if offset == 0 {
            if self.cr1_enabled {
                let reset_active = value & CTRL_INTERNAL_RESET != 0;
                let timers = self.timers.update(0, self.timers[0].controlled(value));
                Mc6840View {
                    timers: if reset_active { timers_initialized(timers) } else { timers },
                    reset_active,
                    ..self
                }
            } else {
                let prescaler = if value & CTRL_T3_PRESCALE != 0 {
                    Some(Prescaler { divisor: 8, count: 8 })
                } else {
                    None
                };
                Mc6840View {
                    timers: self.timers.update(
                        2,
                        Timer { prescaler, ..self.timers[2].controlled(value) },
                    ),
                    ..self
                }
            }
        } else if offset == 1 {
            Mc6840View {
                timers: self.timers.update(1, self.timers[1].controlled(value)),
                cr1_enabled: value & CTRL_CR1_ENABLE != 0,
                ..self
            }
        } else if offset == 2 || offset == 4 || offset == 6 {
            Mc6840View { msb_buffer: value, ..self }
        } else if offset == 3 || offset == 5 || offset == 7 {
            let i = (offset - 3) / 2;
            let latched = Timer {
                latch: (self.msb_buffer * 256 + value) as u16,
                ..self.timers[i]
            };
            Mc6840View {
                timers: self.timers.update(
                    i,
                    if latched.deferred_init() { latched } else { latched.initialized() },
                ),
                ..self
            }
        } else {
            self
        }
    }

    /// What a peek at `offset` returns.
    pub open spec fn peek_value(self, offset: int) -> u8 {
        if offset == 1 {
            self.status()
        } else if offset == 2 || offset == 4 || offset == 6 {
            (self.timers[(offset - 2) / 2].counter / 256) as u8
        } else if offset == 3 || offset == 5 || offset == 7 {
            (self.timers[(offset - 3) / 2].counter % 256) as u8
        } else {
            0
        }
    }

    /// The PTM after everything that has arrived from its peripherals was handled. `None` if data
    /// turns up for a client that never connected.
    pub open spec fn polled(self) -> Option<Self> {
        match self.manager {
            Some(m) => match drained(m, state_messages(io_state(self.timers)), self.timers) {
                Some((next, timers, error)) => Some(
                    Mc6840View {
                        manager: Some(next),
                        timers,
                        reporter: match error {
                            Some(e) => error_reporter::after_report(self.reporter, e),
                            None => self.reporter,
                        },
                        ..self
                    },
                ),
                None => None,
            },
            None => Some(self),
        }
    }

    /// The PTM after `messages` were sent to its peripherals.
    pub open spec fn sent(self, messages: Seq<PtmProtocolMessage>) -> Self {
        match self.manager {
            Some(m) => {
                let (next, result) = protocol_manager::sent_all::<
                    PtmProtocolMessage,
                    PtmProtocolEncoder,
                    PtmProtocolDecoder,
                >(m, messages);
                Mc6840View {
                    manager: Some(next),
                    reporter: match result {
                        Err(e) => error_reporter::after_report(self.reporter, e),
                        Ok(_) => self.reporter,
                    },
                    ..self
                }
            },
            None => self,
        }
    }

    /// The PTM after its timers ran for `cycles` E clock cycles. They stand still in reset.
    pub open spec fn ran(self, cycles: nat) -> Self {
        if self.reset_active {
            self
        } else {
            Mc6840View { timers: timers_ticked(self.timers, cycles), ..self }
        }
    }

    /// Whether more than one peripheral is connected.
    pub open spec fn several_peripherals(self) -> bool {
        self.manager matches Some(m) && m.slots.len() > 1
    }

    /// The PTM after a tick: what arrived is handled, the timers run, and what changed is sent.
    pub open spec fn after_tick(self, cycles: nat) -> Option<Self> {
        match self.polled() {
            Some(polled) => {
                let ran = polled.ran(cycles);
                Some(
                    ran.sent(
                        update_messages(
                            io_state(self.timers),
                            io_state(ran.timers),
                            ran.several_peripherals(),
                        ),
                    ),
                )
            },
            None => None,
        }
    }

    /// The PTM after a reset: as new but for its place on the bus and its connections, with every
    /// timer initialized.
    pub open spec fn after_reset(self) -> Self {
        let fresh = Self::fresh(self.name);
        let next = Mc6840View {
            address: self.address,
            manager: self.manager,
            reporter: self.reporter,
            timers: timers_initialized(fresh.timers),
            ..fresh
        };
        next.sent(state_messages(io_state(next.timers)))
    }
}

impl Mc6840 {
    /// Creates a PTM with the given name.
    pub fn new(name: &'static str) -> (m: Self)
        ensures
            m.wf(),
            m@ == Mc6840View::fresh(name@),
    {
        Mc6840 {
            name,
            address: 0,
            protocol: ProtocolMessageEncoding::Ascii,
            protocol_manager: None,
            error_reporter: None,
            latched_status: 0,
            lsb_buffer: 0,
            msb_buffer: 0,
            timers: [Timer::new(), Timer::new(), Timer::new()],
            cr1_enabled: false,
            reset_active: false,
        }
    }

    /// Sets the address at which this device is registered on the bus.
    pub fn with_address(self, address: u16) -> (m: Self)
        requires
            self.wf(),
        ensures
            m.wf(),
            m@ == (Mc6840View { address, ..self@ }),
    {
        let mut m = self;
        m.address = address;
        m
    }

    /// Sets the protocol format to use in communication with peripherals.
    pub fn with_protocol(self, protocol: ProtocolMessageEncoding) -> (m: Self)
        requires
            self.wf(),
        ensures
            m.wf(),
            m@ == (Mc6840View { protocol, ..self@ }),
    {
        let mut m = self;
        m.protocol = protocol;
        m
    }

    /// Attaches a transport, through which any number of peripherals may be connected.
    pub fn attach_transport(&mut self, transport: TransportPort<TransportEvent>)
        requires
            old(self).wf(),
        ensures
            final(self).wf(),
            final(self)@ == (Mc6840View {
                manager: Some(
                    ManagerView {
                        encoding: old(self)@.protocol,
                        port: transport@,
                        encoder: <PtmProtocolEncoder as crate::protocol::ProtocolMessageEncoder<
                            PtmProtocolMessage,
                        >>::initial(old(self)@.protocol),
                        slots: Seq::empty(),
                    },
                ),
                ..old(self)@
            }),
    {
        self.protocol_manager = Some(ProtocolManager::new(self.protocol, transport));
    }

    /// Sets the error sender for asynchronous transport event reporting.
    pub fn set_error_sender(&mut self, sender: ErrorSender, id: DeviceId)
        requires
            old(self).wf(),
        ensures
            final(self).wf(),
            final(self)@ == (Mc6840View {
                reporter: Some(ReporterView::fresh(sender, id)),
                ..old(self)@
            }),
    {
        self.error_reporter = Some(ErrorReporter::new(sender, id));
    }

    fn current_state(&self) -> (messages: Vec<PtmProtocolMessage>)
        ensures
            messages@ == state_messages(io_state(self.timers@)),
    {
        let state = AsyncIoState::new(&self.timers);
        let messages = vec![
            PtmProtocolMessage::ClockState { clocks: state.clocks },
            PtmProtocolMessage::GateState { gates: state.gates },
            PtmProtocolMessage::OutputState { outputs: state.outputs },
        ];
        assert(messages@ =~= state_messages(io_state(self.timers@)));
        messages
    }

    fn has_several_peripherals(&self) -> (several: bool)
        ensures
            several == self@.several_peripherals(),
    {
        match &self.protocol_manager {
            Some(manager) => manager.slots.len() > 1,
            None => false,
        }
    }

    fn updated_state(&self, before: &AsyncIoState, after: &AsyncIoState) -> (messages: Vec<
        PtmProtocolMessage,
    >)
        ensures
            messages@ == update_messages(*before, *after, self@.several_peripherals()),
    {
        let several = self.has_several_peripherals();
        let mut messages: Vec<PtmProtocolMessage> = Vec::new();
        if several && !same_levels(before.clocks, after.clocks) {
            messages.push(PtmProtocolMessage::ClockState { clocks: after.clocks });
        }
        if several && !same_levels(before.gates, after.gates) {
            messages.push(PtmProtocolMessage::GateState { gates: after.gates });
        }
        if !same_levels(before.outputs, after.outputs) {
            messages.push(PtmProtocolMessage::OutputState { outputs: after.outputs });
        }
        assert(messages@ =~= update_messages(*before, *after, several));
        messages
    }

    fn poll_transports(&mut self)
        requires
            old(self).wf(),
            old(self)@.polled() is Some,
        ensures
            final(self).wf(),
            Some(final(self)@) == old(self)@.polled(),
    {
        if self.protocol_manager.is_none() {
            return ;
        }
        let state = self.current_state();
        loop
            invariant
                self.wf(),
                state@ == state_messages(io_state(old(self).timers@)),
                old(self)@.manager is Some,
                self@.manager is Some,
                drained(self@.manager.unwrap(), state@, self.timers@) is Some,
                drained(self@.manager.unwrap(), state@, self.timers@) == drained(
                    old(self)@.manager.unwrap(),
                    state@,
                    old(self).timers@,
                ),
                self@ == (Mc6840View { manager: self@.manager, timers: self.timers@, ..old(self)@ }),
            decreases self@.manager.unwrap().port.inbound.len(),
        {
            let ghost before = self@.manager.unwrap();
            proof {
                protocol_manager::message_takes_event::<
                    PtmProtocolMessage,
                    PtmProtocolEncoder,
                    PtmProtocolDecoder,
                >(before, state@);
            }
            let result = match &mut self.protocol_manager {
                Some(manager) => manager.poll_transport(state.as_slice()),
                None => Ok(None),
            };
            match result {
                Ok(Some(message)) => {
                    self.apply_message(message);
                },
                Ok(None) => {
                    return ;
                },
                Err(e) => {
                    report(e, &mut self.error_reporter);
                    return ;
                },
            }
        }
    }

    fn send_state_to_all(&mut self, messages: Vec<PtmProtocolMessage>)
        requires
            old(self).wf(),
        ensures
            final(self).wf(),
            final(self)@ == old(self)@.sent(messages@),
    {
        let result = match &mut self.protocol_manager {
            Some(manager) => manager.send_all_to_all(messages.as_slice()),
            None => Ok(()),
        };
        if let Err(e) = result {
            report(e, &mut self.error_reporter);
        }
    }

    fn internal_reset(&mut self)
        requires
            old(self).wf(),
        ensures
            final(self).wf(),
            final(self)@ == (Mc6840View {
                timers: timers_initialized(old(self).timers@),
                ..old(self)@
            }),
    {
        init_all(&mut self.timers);
    }

    fn status(&self) -> (status: u8)
        ensures
            status == self@.status(),
    {
        let mut status: u8 = 0;
        if self.timers[0].irq_active() {
            status += 1;
        }
        if self.timers[1].irq_active() {
            status += 2;
        }
        if self.timers[2].irq_active() {
            status += 4;
        }
        if status != 0 {
            status += IRQ_COMPOSITE;
        }
        status
    }

    fn apply_message(&mut self, message: PtmProtocolMessage)
        requires
            old(self).wf(),
        ensures
            final(self).wf(),
            final(self)@ == (Mc6840View {
                timers: applied(old(self).timers@, message),
                ..old(self)@
            }),
    {
        match message {
            PtmProtocolMessage::ClockEdge { clocks, positive } => {
                set_clocks(&mut self.timers, clocks, positive);
            },
            PtmProtocolMessage::GateEdge { gates, positive } => {
                set_gates(&mut self.timers, gates, positive);
            },
            _ => {},
        }
    }

    fn read_counter(&mut self, timer_id: usize) -> (value: u8)
        requires
            old(self).wf(),
            timer_id < 3,
        ensures
            final(self).wf(),
            value == old(self)@.read_value(2 + 2 * timer_id),
            final(self)@ == old(self)@.after_read(2 + 2 * timer_id),
    {
        let latched = match timer_id {
            0 => self.latched_status % 2 == 1,
            1 => self.latched_status / 2 % 2 == 1,
            _ => self.latched_status / 4 % 2 == 1,
        };
        self.timers[timer_id].clear_latched_irq(latched);
        let counter: u16 = self.timers[timer_id].counter;
        self.lsb_buffer = (counter % 256) as u8;
        assert((2 + 2 * timer_id - 2) / 2 == timer_id);
        (counter / 256) as u8
    }

    fn write_cr1(&mut self, value: u8)
        requires
            old(self).wf(),
            old(self).cr1_enabled,
        ensures
            final(self).wf(),
            final(self)@ == old(self)@.after_write(0, value),
    {
        self.timers[T1].set_control_register(value);
        self.reset_active = value & CTRL_INTERNAL_RESET != 0;
        if self.reset_active {
            self.internal_reset();
        }
    }

    fn write_cr2(&mut self, value: u8)
        requires
            old(self).wf(),
        ensures
            final(self).wf(),
            final(self)@ == old(self)@.after_write(1, value),
    {
        self.timers[T2].set_control_register(value);
        self.cr1_enabled = value & CTRL_CR1_ENABLE != 0;
    }

    fn write_cr3(&mut self, value: u8)
        requires
            old(self).wf(),
            !old(self).cr1_enabled,
        ensures
            final(self).wf(),
            final(self)@ == old(self)@.after_write(0, value),
    {
        self.timers[T3].set_prescaled_control_register(value);
    }

    fn write_latch(&mut self, timer_id: usize, value: u8)
        requires
            old(self).wf(),
            timer_id < 3,
        ensures
            final(self).wf(),
            final(self)@ == old(self)@.after_write(3 + 2 * timer_id, value),
    {
        let latch: u16 = self.msb_buffer as u16 * 256 + value as u16;
        self.timers[timer_id].set_latch(latch);
        assert((3 + 2 * timer_id - 3) / 2 == timer_id);
    }

    /// The line with which a host logs a reset of this device: its name and its address.
    pub fn reset_line(&self) -> (line: String)
        ensures
            line@ == device::reset_line_text(
                self@.name,
                "0x"@ + crate::text::hex4(self@.address as nat),
            ),
    {
        device::make_reset_line(self.name, self.address)
    }
}

impl IoDevice for Mc6840 {
    open spec fn wf(&self) -> bool {
        &&& self.protocol_manager matches Some(m) ==> m.wf()
        &&& timers_wf(self.timers@)
    }

    open spec fn mapped_at(&self, address: u16) -> bool {
        address >= self.address
    }

    /// No data may have arrived for a client that never connected.
    open spec fn can_tick(&self, cycles: u32) -> bool {
        self@.polled() is Some
    }

    open spec fn written(before: Self, after: Self, address: u16, value: u8) -> bool {
        after@ == before@.after_write(address - before.address, value)
    }

    fn read(&mut self, address: u16) -> (value: u8)
        ensures
            value == old(self)@.read_value(address - old(self).address),
            final(self)@ == old(self)@.after_read(address - old(self).address),
    {
        let offset: u16 = address - self.address;
        match offset {
            1 => {
                self.latched_status = self.status();
                self.latched_status
            },
            2 | 4 | 6 => self.read_counter(((offset - 2) / 2) as usize),
            3 | 5 | 7 => self.lsb_buffer,
            _ => 0,
        }
    }

    fn write(&mut self, address: u16, value: u8)
        ensures
            final(self)@ == old(self)@.after_write(address - old(self).address, value),
    {
        let offset: u16 = address - self.address;
        match offset {
            0 => {
                if self.cr1_enabled {
                    self.write_cr1(value);
                } else {
                    self.write_cr3(value);
                }
            },
            1 => {
                self.write_cr2(value);
            },
            2 | 4 | 6 => {
                self.msb_buffer = value;
            },
            3 | 5 | 7 => {
                self.write_latch(((offset - 3) / 2) as usize, value);
            },
            _ => {},
        }
    }

    fn peek(&self, address: u16) -> (value: u8)
        ensures
            value == self@.peek_value(address - self.address),
    {
        let offset: u16 = address - self.address;
        match offset {
            1 => self.status(),
            2 | 4 | 6 => {
                let timer_id: usize = ((offset - 2) / 2) as usize;
                (self.timers[timer_id].counter / 256) as u8
            },
            3 | 5 | 7 => {
                let timer_id: usize = ((offset - 3) / 2) as usize;
                (self.timers[timer_id].counter % 256) as u8
            },
            _ => 0,
        }
    }

    fn patch(&mut self, address: u16, value: u8)
        ensures
            final(self)@ == old(self)@.after_write(address - old(self).address, value),
    {
        self.write(address, value);
    }

    fn tick(&mut self, cycles: u32)
        ensures
            Some(final(self)@) == old(self)@.after_tick(cycles as nat),
    {
        let before = AsyncIoState::new(&self.timers);
        self.poll_transports();
        let ghost polled = self@;
        if !self.reset_active {
            tick_timers(&mut self.timers, cycles);
        }
        assert(self@ =~= polled.ran(cycles as nat));
        let after = AsyncIoState::new(&self.timers);
        let messages = self.updated_state(&before, &after);
        self.send_state_to_all(messages);
    }

    fn reset(&mut self)
        ensures
            final(self)@ == old(self)@.after_reset(),
    {
        self.protocol = ProtocolMessageEncoding::Ascii;
        self.latched_status = 0;
        self.lsb_buffer = 0;
        self.msb_buffer = 0;
        self.timers = [Timer::new(), Timer::new(), Timer::new()];
        self.cr1_enabled = false;
        self.reset_active = false;
        self.internal_reset();
        let messages = self.current_state();
        self.send_state_to_all(messages);
    }

    fn irq_active(&self) -> (active: bool)
        ensures
            active == self@.irq(),
    {
        self.status() != 0
    }

    fn name(&self) -> (name: &str)
        ensures
            name@ == self.name@,
    {
        self.name
    }

    fn identity_address(&self) -> (address: u16)
        ensures
            address == self.address,
    {
        self.address
    }
}

/// A counter is read in two steps without being torn: the low byte that the second read returns
/// belongs to the high byte that the first one returned.
#[verifier::spinoff_prover]
pub proof fn counter_reads_whole(m: Mc6840View, i: int)
    requires
        m.timers.len() == 3,
        0 <= i < 3,
    ensures
        m.read_value(2 + 2 * i) * 256 + m.after_read(2 + 2 * i).read_value(3 + 2 * i)
            == m.timers[i].counter,
{
    assert((2 + 2 * i - 2) / 2 == i);
}

/// A latch is written in two steps: the high byte first, and the low byte completes it.
#[verifier::spinoff_prover]
pub proof fn latch_writes_whole(m: Mc6840View, i: int, high: u8, low: u8)
    requires
        m.timers.len() == 3,
        0 <= i < 3,
    ensures
        m.after_write(2 + 2 * i, high).timers == m.timers,
        m.after_write(2 + 2 * i, high).after_write(3 + 2 * i, low).timers[i].latch == high * 256
            + low,
{
    let buffered = m.after_write(2 + 2 * i, high);
    assert(buffered == Mc6840View { msb_buffer: high, ..m });
    let offset = 3 + 2 * i;
    assert((offset - 3) / 2 == i);
    let latched = Timer { latch: (high * 256 + low) as u16, ..m.timers[i] };
    let started = if latched.deferred_init() {
        latched
    } else {
        latched.initialized()
    };
    assert(buffered.after_write(offset, low).timers == m.timers.update(i, started));
    assert(started.latch == latched.latch);
}

/// The status register shows each timer's interrupt in a bit of its own.
#[verifier::spinoff_prover]
pub proof fn status_shows_irq(m: Mc6840View, i: int)
    requires
        0 <= i < 3,
    ensures
        m.after_read(1).irq_latched(i) == m.timers[i].irq_active,
        m.after_read(1).timers == m.timers,
{
    let status = m.status();
    assert(m.after_read(1).latched_status == status);
    if i == 0 {
        assert((status % 2 == 1) == m.timers[0].irq_active);
    } else if i == 1 {
        assert((status / 2 % 2 == 1) == m.timers[1].irq_active);
    } else {
        assert((status / 4 % 2 == 1) == m.timers[2].irq_active);
    }
}

#[verifier::spinoff_prover]
proof fn lemma_counter_read(m: Mc6840View, i: int, j: int)
    requires
        m.timers.len() == 3,
        0 <= i < 3,
        0 <= j < 3,
    ensures
        m.after_read(2 + 2 * i).timers[j].irq_active == (m.timers[j].irq_active && !(i == j
            && m.irq_latched(i))),
{
    if i == 0 {
        assert(m.after_read(2).timers[j].irq_active == (m.timers[j].irq_active && !(0 == j
            && m.irq_latched(0))));
    } else if i == 1 {
        assert(m.after_read(4).timers[j].irq_active == (m.timers[j].irq_active && !(1 == j
            && m.irq_latched(1))));
    } else {
        assert(m.after_read(6).timers[j].irq_active == (m.timers[j].irq_active && !(2 == j
            && m.irq_latched(2))));
    }
}

#[verifier::spinoff_prover]
proof fn lemma_shown_irq_is_withdrawn(m: Mc6840View, i: int)
    requires
        m.timers.len() == 3,
        0 <= i < 3,
    ensures
        !m.after_read(1).after_read(2 + 2 * i).timers[i].irq_active,
{
    let shown = m.after_read(1);
    status_shows_irq(m, i);
    lemma_counter_read(shown, i, i);
}

/// Reading a counter withdraws the timer's interrupt exactly if the status register has shown it,
/// and touches no other timer's.
#[verifier::spinoff_prover]
pub proof fn counter_read_withdraws_shown_irq(m: Mc6840View, i: int, j: int)
    requires
        m.timers.len() == 3,
        0 <= i < 3,
        0 <= j < 3,
    ensures
        m.after_read(2 + 2 * i).timers[j].irq_active == (m.timers[j].irq_active && !(i == j
            && m.irq_latched(i))),
        m.after_read(1).after_read(2 + 2 * i).timers[i].irq_active == false,
{
    lemma_counter_read(m, i, j);
    lemma_shown_irq_is_withdrawn(m, i);
}

/// A peek shows what a read would, but for the low byte of a counter, of which a read shows the
/// buffered value.
pub proof fn peek_agrees_with_read(m: Mc6840View, offset: int)
    requires
        offset != 3,
        offset != 5,
        offset != 7,
    ensures
        m.peek_value(offset) == m.read_value(offset),
{
}

/// A counter after `n` clocks.
pub open spec fn counter_clocked_times(t: Timer, n: nat) -> Timer
    decreases n,
{
    if n == 0 {
        t
    } else {
        counter_clocked_times(t, (n - 1) as nat).counter_clocked()
    }
}

/// A 16-bit continuous timer counts down one by one, with nothing else changing on the way.
pub proof fn continuous_timer_counts_down(t: Timer, n: nat)
    requires
        t.triggered,
        t.continuous(),
        !t.gate_level,
        !t.dual8bit_mode,
        !t.carry_in,
        n <= t.counter,
    ensures
        counter_clocked_times(t, n) == (Timer { counter: (t.counter - n) as u16, ..t }),
    decreases n,
{
    if n > 0 {
        continuous_timer_counts_down(t, (n - 1) as nat);
    }
}

/// A 16-bit continuous timer that was loaded with a latch of `n` times out with the clock after the
/// `n`th: it starts over, toggles its output, and interrupts if it may.
pub proof fn continuous_timer_times_out(t: Timer)
    requires
        t.triggered,
        t.continuous(),
        !t.gate_level,
        !t.dual8bit_mode,
        !t.carry_in,
        t.counter == t.latch,
    ensures
        counter_clocked_times(t, (t.latch + 1) as nat) == (Timer {
            carry_in: t.latch == 0,
            irq_active: t.irq_enabled,
            output_state: !t.output_state,
            ..t
        }),
{
    continuous_timer_counts_down(t, t.latch as nat);
}

/// A 16-bit single shot raises its output with the first clock, drops it when the counter has run
/// out, and then is done.
pub proof fn single_shot_runs_once(t: Timer)
    requires
        t.triggered,
        t.single_shot(),
        !t.dual8bit_mode,
        !t.carry_in,
        t.counter == t.latch,
        t.latch > 0,
    ensures
        forall|n: nat|
            1 <= n <= t.latch ==> (#[trigger] counter_clocked_times(t, n)).output_state
                && counter_clocked_times(t, n).counter == t.latch - n,
        !counter_clocked_times(t, (t.latch + 1) as nat).output_state,
        counter_clocked_times(t, (t.latch + 1) as nat).irq_active == t.irq_enabled,
        !counter_clocked_times(t, (t.latch + 1) as nat).triggered,
{
    assert forall|n: nat| 1 <= n <= t.latch implies (#[trigger] counter_clocked_times(
        t,
        n,
    )).output_state && counter_clocked_times(t, n).counter == t.latch - n by {
        lemma_single_shot_counts_down(t, n);
    }
    lemma_single_shot_counts_down(t, t.latch as nat);
}

proof fn lemma_single_shot_counts_down(t: Timer, n: nat)
    requires
        t.triggered,
        t.single_shot(),
        !t.dual8bit_mode,
        !t.carry_in,
        1 <= n <= t.counter,
    ensures
        counter_clocked_times(t, n) == (Timer {
            counter: (t.counter - n) as u16,
            output_state: true,
            ..t
        }),
    decreases n,
{
    if n > 1 {
        lemma_single_shot_counts_down(t, (n - 1) as nat);
    } else {
        assert(counter_clocked_times(t, 0) == t);
    }
}

/// A prescaler after `n` clocks.
pub open spec fn prescaler_clocked(p: Prescaler, n: nat) -> Prescaler
    decreases n,
{
    if n == 0 {
        p
    } else {
        prescaler_clocked(p, (n - 1) as nat).clocked()
    }
}

/// How quotient and remainder go on from `n` to `n + 1`.
pub proof fn lemma_next_division(n: nat, d: nat)
    requires
        d > 0,
    ensures
        n % d < d,
        (n + 1) % d == if n % d == d - 1 {
            0
        } else {
            n % d + 1
        },
        (n + 1) / d == if n % d == d - 1 {
            n / d + 1
        } else {
            n / d
        },
{
    let q = n as int / d as int;
    let r = n as int % d as int;
    vstd::arithmetic::div_mod::lemma_mod_bound(n as int, d as int);
    vstd::arithmetic::div_mod::lemma_fundamental_div_mod(n as int, d as int);
    assert(n + 1 == q * d + (r + 1) && n + 1 == (q + 1) * d + (r + 1 - d)) by (nonlinear_arith)
        requires
            n == d * q + r,
    ;
    if r == d - 1 {
        vstd::arithmetic::div_mod::lemma_fundamental_div_mod_converse(
            (n + 1) as int,
            d as int,
            q + 1,
            0,
        );
    } else {
        vstd::arithmetic::div_mod::lemma_fundamental_div_mod_converse(
            (n + 1) as int,
            d as int,
            q,
            r + 1,
        );
    }
}

/// A prescaler passes on exactly one in `divisor` clocks.
pub proof fn prescaler_divides(divisor: u8, n: nat)
    requires
        divisor > 0,
    ensures
        prescaler_clocked(Prescaler { divisor, count: divisor }, n) == (Prescaler {
            divisor,
            count: (divisor - n % (divisor as nat)) as u8,
        }),
        prescaler_clocked(Prescaler { divisor, count: divisor }, n).carries() <==> (n + 1) % (
        divisor as nat) == 0,
    decreases n,
{
    if n > 0 {
        prescaler_divides(divisor, (n - 1) as nat);
        lemma_next_division((n - 1) as nat, divisor as nat);
    } else {
        vstd::arithmetic::div_mod::lemma_small_mod(0, divisor as nat);
    }
    lemma_next_division(n, divisor as nat);
}

/// The timers stand still while the internal reset is active.
pub proof fn reset_holds_timers(m: Mc6840View, cycles: nat)
    requires
        m.reset_active,
    ensures
        m.ran(cycles) == m,
{
}

/// A high gate input keeps a continuous timer from counting.
pub proof fn gate_inhibits_counting(t: Timer)
    requires
        t.continuous(),
        t.gate_level,
    ensures
        t.counter_clocked() == t,
{
}

/// Bit 7 of the status register is set if and only if a timer interrupts.
pub proof fn composite_flag_sums_up(m: Mc6840View)
    ensures
        m.status() >= IRQ_COMPOSITE <==> m.timers[0].irq_active || m.timers[1].irq_active
            || m.timers[2].irq_active,
        m.status() == 0 <==> !m.timers[0].irq_active && !m.timers[1].irq_active
            && !m.timers[2].irq_active,
{
}

/// Peripherals are told of signals that changed, and of no others; an output that is not enabled is
/// seen low.
pub proof fn only_changes_are_told(timers: Seq<Timer>, several: bool, i: int)
    requires
        timers.len() == 3,
        0 <= i < 3,
    ensures
        update_messages(io_state(timers), io_state(timers), several).len() == 0,
        !timers[i].output_enabled ==> !io_state(timers).outputs[i],
{
}

/// A lone peripheral is told of changed outputs, and of nothing else; several are told of every
/// change.
pub proof fn lone_peripheral_is_told_of_outputs(before: AsyncIoState, after: AsyncIoState)
    ensures
        update_messages(before, after, false) == if before.outputs != after.outputs {
            seq![PtmProtocolMessage::OutputState { outputs: after.outputs }]
        } else {
            Seq::empty()
        },
        ({
            let told = update_messages(before, after, true);
            &&& before.clocks != after.clocks <==> told.contains(
                PtmProtocolMessage::ClockState { clocks: after.clocks },
            )
            &&& before.gates != after.gates <==> told.contains(
                PtmProtocolMessage::GateState { gates: after.gates },
            )
            &&& before.outputs != after.outputs <==> told.contains(
                PtmProtocolMessage::OutputState { outputs: after.outputs },
            )
        }),
{
    let lone = update_messages(before, after, false);
    if before.outputs != after.outputs {
        assert(lone =~= seq![PtmProtocolMessage::OutputState { outputs: after.outputs }]);
    } else {
        assert(lone =~= Seq::empty());
    }
    let told = update_messages(before, after, true);
    let gates_at: int = if before.clocks != after.clocks { 1 } else { 0 };
    let outputs_at: int = gates_at + if before.gates != after.gates { 1int } else { 0 };
    if before.clocks != after.clocks {
        assert(told[0] == PtmProtocolMessage::ClockState { clocks: after.clocks });
    }
    if before.gates != after.gates {
        assert(told[gates_at] == PtmProtocolMessage::GateState { gates: after.gates });
    }
    if before.outputs != after.outputs {
        assert(told[outputs_at] == PtmProtocolMessage::OutputState { outputs: after.outputs });
    }
}

} // verus!
