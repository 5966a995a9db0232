//! Protocol codecs for the MC6840 peripheral interface.
//!
//! Encoders and decoders for the protocol spoken between a peripheral and the MC6840 over a
//! transport. The MC6840 serves several peripherals at a time; as with real hardware, connected
//! peripherals must take care not to interfere with each other.
//!
//! When a peripheral connects, the current state of the MC6840 is sent at once. Afterwards, when
//! any connected peripheral changes the state of the MC6840, every peripheral is told. The MC6840
//! acts on clock and gate edges only, and sends clock, gate and output states only.
//!
//! ## ASCII protocol
//!
//! Short strings of printable characters, separated by a single space when sent by the MC6840,
//! which ends the line with CR LF once 72 characters have been sent. On input, control characters
//! (`0x00..0x1F`) and spaces are ignored, and upper and lower case letters are the same.
//!
//! | Message      | Sent by    | Format | Description                                              |
//! |--------------|------------|--------|----------------------------------------------------------|
//! | Clock edge   | peripheral | `Cnp`  | timer `n` (1..3), polarity `p` (0 negative, 1 positive)  |
//! | Gate edge    | peripheral | `Gnp`  | timer `n` (1..3), polarity `p` (0 negative, 1 positive)  |
//! | Clock state  | MC6840     | `Txyz` | clock inputs of timers 1, 2 and 3                        |
//! | Gate state   | MC6840     | `Uxyz` | gate inputs of timers 1, 2 and 3                         |
//! | Output state | MC6840     | `Vxyz` | outputs of timers 1, 2 and 3                             |
//!
//! ## Binary protocol
//!
//! One byte per message. The upper nibble is the message type; a byte with any other upper nibble
//! is ignored. Bits 0, 1 and 2 stand for timers 1, 2 and 3, and bit 3 of an edge is its polarity.
//!
//! | Message      | Upper nibble |
//! |--------------|--------------|
//! | Clock edge   | `1000`       |
//! | Gate edge    | `1001`       |
//! | Clock state  | `1010`       |
//! | Gate state   | `1011`       |
//! | Output state | `1100`       |

use crate::protocol::line;
use crate::protocol::line::put_word;
use crate::protocol::{
    to_upper, ProtocolMessageDecoder, ProtocolMessageEncoder, ProtocolMessageEncoding,
};
use vstd::prelude::*;

verus! {

pub const BINARY_CLOCK_EDGE: u8 = 0b10000000;

pub const BINARY_GATE_EDGE: u8 = 0b10010000;

pub const BINARY_CLOCK_STATE: u8 = 0b10100000;

pub const BINARY_GATE_STATE: u8 = 0b10110000;

pub const BINARY_OUTPUT_STATE: u8 = 0b11000000;

pub const BINARY_POLARITY_BIT: u8 = 0b00001000;

/// A decoded PTM protocol message.
#[derive(Debug, Clone, Copy, PartialEq, Eq)]
pub enum PtmProtocolMessage {
    /// One or more clock inputs have changed.
    ClockEdge {
        /// For each clock (C1, C2, C3), whether it changed state.
        clocks: [bool; 3],
        /// Whether the transition was positive.
        positive: bool,
    },
    /// One or more gate inputs have changed.
    GateEdge {
        /// For each gate (G1, G2, G3), whether it changed state.
        gates: [bool; 3],
        /// Whether the transition was positive.
        positive: bool,
    },
    /// The current state of all clock inputs.
    ClockState { clocks: [bool; 3] },
    /// The current state of all gate inputs.
    GateState { gates: [bool; 3] },
    /// The current state of all timer outputs.
    OutputState { outputs: [bool; 3] },
}

/// The ASCII digit of a signal level.
pub open spec fn level_digit(level: bool) -> u8 {
    if level {
        0x31
    } else {
        0x30
    }
}

/// The letter of an edge message.
pub open spec fn edge_letter(gate: bool) -> u8 {
    if gate {
        0x47
    } else {
        0x43
    }
}

/// The letter of a state message.
pub open spec fn state_letter(of: Signals) -> u8 {
    match of {
        Signals::Clocks => 0x54,
        Signals::Gates => 0x55,
        Signals::Outputs => 0x56,
    }
}

/// The ASCII word of an edge of timer `i` (counted from 0).
pub open spec fn edge_word(letter: u8, i: int, positive: bool) -> Seq<u8> {
    seq![letter, (0x31 + i) as u8, level_digit(positive), 0x20u8]
}

/// The ASCII words of the edges of those of the first `n` timers that are flagged.
pub open spec fn edge_words(letter: u8, edges: [bool; 3], positive: bool, n: nat) -> Seq<Seq<u8>>
    decreases n,
{
    if n == 0 {
        Seq::empty()
    } else {
        let before = edge_words(letter, edges, positive, (n - 1) as nat);
        if edges[n - 1] {
            before.push(edge_word(letter, n - 1, positive))
        } else {
            before
        }
    }
}

/// The ASCII word of the levels of three signals.
pub open spec fn state_word(letter: u8, levels: [bool; 3]) -> Seq<u8> {
    seq![
        letter,
        level_digit(levels[0]),
        level_digit(levels[1]),
        level_digit(levels[2]),
        0x20u8,
    ]
}

/// The ASCII words of a message.
pub open spec fn message_words(message: PtmProtocolMessage) -> Seq<Seq<u8>> {
    match message {
        PtmProtocolMessage::ClockEdge { clocks, positive } => edge_words(
            edge_letter(false),
            clocks,
            positive,
            3,
        ),
        PtmProtocolMessage::GateEdge { gates, positive } => edge_words(
            edge_letter(true),
            gates,
            positive,
            3,
        ),
        PtmProtocolMessage::ClockState { clocks } => seq![
            state_word(state_letter(Signals::Clocks), clocks),
        ],
        PtmProtocolMessage::GateState { gates } => seq![
            state_word(state_letter(Signals::Gates), gates),
        ],
        PtmProtocolMessage::OutputState { outputs } => seq![
            state_word(state_letter(Signals::Outputs), outputs),
        ],
    }
}

/// Encodes [`PtmProtocolMessage`] values into ASCII format for transmission.
///
/// A space follows each message for human readability, and a carriage return and line feed pair
/// precedes the first message that finds 72 bytes on the current line.
pub struct PtmAsciiProtocolEncoder {
    pub line_length: u8,
}

impl Default for PtmAsciiProtocolEncoder {
    fn default() -> (e: Self)
        ensures
            e.line_length == 0,
    {
        Self::new()
    }
}

impl ProtocolMessageEncoder<PtmProtocolMessage> for PtmAsciiProtocolEncoder {
    open spec fn wf(&self) -> bool {
        line::line_ok(self.line_length)
    }

    open spec fn initial(encoding: ProtocolMessageEncoding) -> Self {
        PtmAsciiProtocolEncoder { line_length: 0 }
    }

    open spec fn encoded(&self, message: PtmProtocolMessage) -> Seq<u8> {
        line::line_bytes(self.line_length, message_words(message))
    }

    open spec fn after(&self, message: PtmProtocolMessage) -> Self {
        PtmAsciiProtocolEncoder {
            line_length: line::line_length(self.line_length, message_words(message)),
        }
    }

    fn for_encoding(encoding: ProtocolMessageEncoding) -> (e: Self) {
        Self::new()
    }

    fn encode(&mut self, message: &PtmProtocolMessage, out: &mut Vec<u8>) {
        match message {
            PtmProtocolMessage::ClockEdge { clocks, positive } => {
                self.encode_ascii_edges(0x43, *clocks, *positive, out);
            },
            PtmProtocolMessage::GateEdge { gates, positive } => {
                self.encode_ascii_edges(0x47, *gates, *positive, out);
            },
            PtmProtocolMessage::ClockState { clocks } => {
                self.encode_ascii_states(0x54, *clocks, out);
            },
            PtmProtocolMessage::GateState { gates } => {
                self.encode_ascii_states(0x55, *gates, out);
            },
            PtmProtocolMessage::OutputState { outputs } => {
                self.encode_ascii_states(0x56, *outputs, out);
            },
        }
    }
}

impl PtmAsciiProtocolEncoder {
    /// Creates an encoder at the start of a line.
    pub fn new() -> (e: Self)
        ensures
            e.line_length == 0,
    {
        PtmAsciiProtocolEncoder { line_length: 0 }
    }

    fn encode_ascii_edges(&mut self, letter: u8, edges: [bool; 3], positive: bool, out: &mut Vec<u8>)
        requires
            line::line_ok(old(self).line_length),
        ensures
            line::line_ok(final(self).line_length),
            final(self).line_length == line::line_length(
                old(self).line_length,
                edge_words(letter, edges, positive, 3),
            ),
            final(out)@ == old(out)@ + line::line_bytes(
                old(self).line_length,
                edge_words(letter, edges, positive, 3),
            ),
    {
        let mut i: usize = 0;
        while i < 3
            invariant
                i <= 3,
                line::line_ok(self.line_length),
                self.line_length == line::line_length(
                    old(self).line_length,
                    edge_words(letter, edges, positive, i as nat),
                ),
                out@ == old(out)@ + line::line_bytes(
                    old(self).line_length,
                    edge_words(letter, edges, positive, i as nat),
                ),
            decreases 3 - i,
        {
            if edges[i] {
                let word = [letter, 0x31 + i as u8, encode_ascii_state(positive), 0x20];
                assert(word@ =~= edge_word(letter, i as int, positive));
                proof {
                    line::line_with_word(
                        old(self).line_length,
                        edge_words(letter, edges, positive, i as nat),
                        word@,
                    );
                }
                self.line_length = put_word(self.line_length, &word, out);
            }
            i += 1;
        }
    }

    fn encode_ascii_states(&mut self, letter: u8, levels: [bool; 3], out: &mut Vec<u8>)
        requires
            line::line_ok(old(self).line_length),
        ensures
            line::line_ok(final(self).line_length),
            final(self).line_length == line::line_length(
                old(self).line_length,
                seq![state_word(letter, levels)],
            ),
            final(out)@ == old(out)@ + line::line_bytes(
                old(self).line_length,
                seq![state_word(letter, levels)],
            ),
    {
        let word = [
            letter,
            encode_ascii_state(levels[0]),
            encode_ascii_state(levels[1]),
            encode_ascii_state(levels[2]),
            0x20,
        ];
        assert(word@ =~= state_word(letter, levels));
        proof {
            line::line_with_word(self.line_length, Seq::empty(), word@);
            assert(Seq::<Seq<u8>>::empty().push(word@) =~= seq![state_word(letter, levels)]);
        }
        self.line_length = put_word(self.line_length, &word, out);
    }
}

fn encode_ascii_state(level: bool) -> (digit: u8)
    ensures
        digit == level_digit(level),
{
    if level {
        0x31
    } else {
        0x30
    }
}

/// The bits of three signals, timer 1 in bit 0.
pub open spec fn signal_bits(signals: [bool; 3]) -> int {
    (if signals[0] { 1int } else { 0 }) + (if signals[1] { 2int } else { 0 }) + (if signals[2] {
        4int
    } else {
        0
    })
}

/// The binary form of an edge message.
pub open spec fn edge_byte(kind: u8, positive: bool, edges: [bool; 3]) -> u8 {
    (kind + (if positive { 8int } else { 0 }) + signal_bits(edges)) as u8
}

/// The binary form of a state message.
pub open spec fn state_byte(kind: u8, levels: [bool; 3]) -> u8 {
    (kind + signal_bits(levels)) as u8
}

/// The binary form of a message.
pub open spec fn message_byte(message: PtmProtocolMessage) -> u8 {
    match message {
        PtmProtocolMessage::ClockEdge { clocks, positive } => edge_byte(
            BINARY_CLOCK_EDGE,
            positive,
            clocks,
        ),
        PtmProtocolMessage::GateEdge { gates, positive } => edge_byte(
            BINARY_GATE_EDGE,
            positive,
            gates,
        ),
        PtmProtocolMessage::ClockState { clocks } => state_byte(BINARY_CLOCK_STATE, clocks),
        PtmProtocolMessage::GateState { gates } => state_byte(BINARY_GATE_STATE, gates),
        PtmProtocolMessage::OutputState { outputs } => state_byte(BINARY_OUTPUT_STATE, outputs),
    }
}

/// Encodes [`PtmProtocolMessage`] values into binary format for transmission.
pub struct PtmBinaryProtocolEncoder;

impl Default for PtmBinaryProtocolEncoder {
    fn default() -> (e: Self)
        ensures
            e == PtmBinaryProtocolEncoder,
    {
        Self::new()
    }
}

impl ProtocolMessageEncoder<PtmProtocolMessage> for PtmBinaryProtocolEncoder {
    open spec fn wf(&self) -> bool {
        true
    }

    open spec fn initial(encoding: ProtocolMessageEncoding) -> Self {
        PtmBinaryProtocolEncoder
    }

    open spec fn encoded(&self, message: PtmProtocolMessage) -> Seq<u8> {
        seq![message_byte(message)]
    }

    open spec fn after(&self, message: PtmProtocolMessage) -> Self {
        *self
    }

    fn for_encoding(encoding: ProtocolMessageEncoding) -> (e: Self) {
        Self::new()
    }

    fn encode(&mut self, message: &PtmProtocolMessage, out: &mut Vec<u8>) {
        match message {
            PtmProtocolMessage::ClockEdge { clocks, positive } => {
                self.encode_binary_edges(BINARY_CLOCK_EDGE, *positive, *clocks, out);
            },
            PtmProtocolMessage::GateEdge { gates, positive } => {
                self.encode_binary_edges(BINARY_GATE_EDGE, *positive, *gates, out);
            },
            PtmProtocolMessage::ClockState { clocks } => {
                self.encode_binary_states(BINARY_CLOCK_STATE, *clocks, out);
            },
            PtmProtocolMessage::GateState { gates } => {
                self.encode_binary_states(BINARY_GATE_STATE, *gates, out);
            },
            PtmProtocolMessage::OutputState { outputs } => {
                self.encode_binary_states(BINARY_OUTPUT_STATE, *outputs, out);
            },
        }
        assert(out@ =~= old(out)@ + old(self).encoded(*message));
    }
}

fn encode_signal_bits(signals: [bool; 3]) -> (bits: u8)
    ensures
        bits == signal_bits(signals),
        bits < 8,
{
    let low: u8 = if signals[0] { 1 } else { 0 };
    let middle: u8 = if signals[1] { 2 } else { 0 };
    let high: u8 = if signals[2] { 4 } else { 0 };
    low + middle + high
}

impl PtmBinaryProtocolEncoder {
    /// Creates an encoder.
    pub fn new() -> (e: Self)
        ensures
            e == PtmBinaryProtocolEncoder,
    {
        PtmBinaryProtocolEncoder
    }

    fn encode_binary_edges(&self, kind: u8, positive: bool, edges: [bool; 3], out: &mut Vec<u8>)
        requires
            kind < 0xf0,
        ensures
            final(out)@ == old(out)@.push(edge_byte(kind, positive, edges)),
    {
        let polarity: u8 = if positive { BINARY_POLARITY_BIT } else { 0 };
        out.push(kind + polarity + encode_signal_bits(edges));
    }

    fn encode_binary_states(&self, kind: u8, levels: [bool; 3], out: &mut Vec<u8>)
        requires
            kind < 0xf0,
        ensures
            final(out)@ == old(out)@.push(state_byte(kind, levels)),
    {
        out.push(kind + encode_signal_bits(levels));
    }
}

/// The group of signals that a state message speaks of.
#[derive(Debug, Clone, Copy, PartialEq, Eq, Structural)]
pub enum Signals {
    Clocks,
    Gates,
    Outputs,
}

/// What the ASCII decoder has seen of the message at hand.
#[derive(Debug, Clone, Copy, PartialEq, Eq, Structural)]
pub enum AsciiDecoderState {
    /// Nothing.
    Idle,
    /// The letter of an edge message, of a gate if `gate` is set.
    EdgeTimer { gate: bool },
    /// The letter and the timer (1..3) of an edge message.
    EdgePolarity { gate: bool, timer: u8 },
    /// The letter of a state message.
    StateT1 { of: Signals },
    /// The letter and one level of a state message.
    StateT2 { of: Signals, t1: bool },
    /// The letter and two levels of a state message.
    StateT3 { of: Signals, t1: bool, t2: bool },
}

/// The edge message of a single timer, counted from 1.
pub open spec fn single_edge(gate: bool, timer: int, positive: bool) -> PtmProtocolMessage {
    let edges = [timer == 1, timer == 2, timer == 3];
    if gate {
        PtmProtocolMessage::GateEdge { gates: edges, positive }
    } else {
        PtmProtocolMessage::ClockEdge { clocks: edges, positive }
    }
}

/// The state message of a group of signals.
pub open spec fn state_message(of: Signals, levels: [bool; 3]) -> PtmProtocolMessage {
    match of {
        Signals::Clocks => PtmProtocolMessage::ClockState { clocks: levels },
        Signals::Gates => PtmProtocolMessage::GateState { gates: levels },
        Signals::Outputs => PtmProtocolMessage::OutputState { outputs: levels },
    }
}

/// Whether the ASCII decoder ignores `b`: a control character or a space.
pub open spec fn ascii_ignored(b: u8) -> bool {
    b <= 0x20
}

/// Whether `b` is the digit of a signal level.
pub open spec fn is_level_digit(b: u8) -> bool {
    b == 0x30 || b == 0x31
}

/// What the ASCII decoder makes of `b`: what it has then seen, and the message that is complete.
pub open spec fn ascii_step(state: AsciiDecoderState, b: u8) -> (
    AsciiDecoderState,
    Option<PtmProtocolMessage>,
) {
    if ascii_ignored(b) {
        (state, None)
    } else {
        match state {
            AsciiDecoderState::Idle => (ascii_start(crate::protocol::upper(b)), None),
            AsciiDecoderState::EdgeTimer { gate } => if 0x31 <= b <= 0x33 {
                (AsciiDecoderState::EdgePolarity { gate, timer: (b - 0x30) as u8 }, None)
            } else {
                (AsciiDecoderState::Idle, None)
            },
            AsciiDecoderState::EdgePolarity { gate, timer } => if is_level_digit(b) {
                (AsciiDecoderState::Idle, Some(single_edge(gate, timer as int, b == 0x31)))
            } else {
                (AsciiDecoderState::Idle, None)
            },
            AsciiDecoderState::StateT1 { of } => if is_level_digit(b) {
                (AsciiDecoderState::StateT2 { of, t1: b == 0x31 }, None)
            } else {
                (AsciiDecoderState::Idle, None)
            },
            AsciiDecoderState::StateT2 { of, t1 } => if is_level_digit(b) {
                (AsciiDecoderState::StateT3 { of, t1, t2: b == 0x31 }, None)
            } else {
                (AsciiDecoderState::Idle, None)
            },
            AsciiDecoderState::StateT3 { of, t1, t2 } => if is_level_digit(b) {
                (AsciiDecoderState::Idle, Some(state_message(of, [t1, t2, b == 0x31])))
            } else {
                (AsciiDecoderState::Idle, None)
            },
        }
    }
}

/// What the ASCII decoder has seen after the upper case letter `letter`, if it starts a message.
pub open spec fn ascii_start(letter: u8) -> AsciiDecoderState {
    if letter == 0x43 {
        AsciiDecoderState::EdgeTimer { gate: false }
    } else if letter == 0x47 {
        AsciiDecoderState::EdgeTimer { gate: true }
    } else if letter == 0x54 {
        AsciiDecoderState::StateT1 { of: Signals::Clocks }
    } else if letter == 0x55 {
        AsciiDecoderState::StateT1 { of: Signals::Gates }
    } else if letter == 0x56 {
        AsciiDecoderState::StateT1 { of: Signals::Outputs }
    } else {
        AsciiDecoderState::Idle
    }
}

/// Decodes an ASCII encoded byte stream into [`PtmProtocolMessage`] values.
///
/// Invalid data is silently ignored.
pub struct PtmAsciiProtocolDecoder {
    pub state: AsciiDecoderState,
}

impl Default for PtmAsciiProtocolDecoder {
    fn default() -> (d: Self)
        ensures
            d.state == AsciiDecoderState::Idle,
    {
        Self::new()
    }
}

impl ProtocolMessageDecoder<PtmProtocolMessage> for PtmAsciiProtocolDecoder {
    open spec fn wf(&self) -> bool {
        self.state matches AsciiDecoderState::EdgePolarity { timer, .. } ==> 1 <= timer <= 3
    }

    open spec fn initial(encoding: ProtocolMessageEncoding) -> Self {
        PtmAsciiProtocolDecoder { state: AsciiDecoderState::Idle }
    }

    open spec fn after(&self, b: u8) -> Self {
        PtmAsciiProtocolDecoder { state: ascii_step(self.state, b).0 }
    }

    open spec fn decoded(&self, b: u8) -> Option<PtmProtocolMessage> {
        ascii_step(self.state, b).1
    }

    fn for_encoding(encoding: ProtocolMessageEncoding) -> (d: Self) {
        Self::new()
    }

    fn feed(&mut self, b: u8) -> (message: Option<PtmProtocolMessage>) {
        self.feed_ascii(b)
    }
}

fn make_edge(gate: bool, timer: u8, positive: bool) -> (message: PtmProtocolMessage)
    ensures
        message == single_edge(gate, timer as int, positive),
{
    let edges = [timer == 1, timer == 2, timer == 3];
    if gate {
        PtmProtocolMessage::GateEdge { gates: edges, positive }
    } else {
        PtmProtocolMessage::ClockEdge { clocks: edges, positive }
    }
}

fn make_state(of: Signals, levels: [bool; 3]) -> (message: PtmProtocolMessage)
    ensures
        message == state_message(of, levels),
{
    match of {
        Signals::Clocks => PtmProtocolMessage::ClockState { clocks: levels },
        Signals::Gates => PtmProtocolMessage::GateState { gates: levels },
        Signals::Outputs => PtmProtocolMessage::OutputState { outputs: levels },
    }
}

impl PtmAsciiProtocolDecoder {
    /// Creates a decoder that has seen nothing.
    pub fn new() -> (d: Self)
        ensures
            d.state == AsciiDecoderState::Idle,
    {
        PtmAsciiProtocolDecoder { state: AsciiDecoderState::Idle }
    }

    /// Feeds the byte `b` into the state machine. Only a level digit completes a message, and the
    /// message says what the digit says.
    pub fn feed_ascii(&mut self, b: u8) -> (message: Option<PtmProtocolMessage>)
        requires
            old(self).wf(),
        ensures
            final(self).wf(),
            message matches Some(m) ==> ends_ascii_message(m, b),
            (final(self).state, message) == ascii_step(old(self).state, b),
    {
        if b <= 0x20 {
            return None;
        }
        let state = self.state;
        self.state = AsciiDecoderState::Idle;
        let level = b == 0x31;
        let valid_level = b == 0x30 || b == 0x31;
        match state {
            AsciiDecoderState::Idle => {
                let letter: u8 = to_upper(b);
                if letter == 0x43 {
                    self.state = AsciiDecoderState::EdgeTimer { gate: false };
                } else if letter == 0x47 {
                    self.state = AsciiDecoderState::EdgeTimer { gate: true };
                } else if letter == 0x54 {
                    self.state = AsciiDecoderState::StateT1 { of: Signals::Clocks };
                } else if letter == 0x55 {
                    self.state = AsciiDecoderState::StateT1 { of: Signals::Gates };
                } else if letter == 0x56 {
                    self.state = AsciiDecoderState::StateT1 { of: Signals::Outputs };
                }
                None
            },
            AsciiDecoderState::EdgeTimer { gate } => {
                if 0x31 <= b && b <= 0x33 {
                    self.state = AsciiDecoderState::EdgePolarity { gate, timer: b - 0x30 };
                }
                None
            },
            AsciiDecoderState::EdgePolarity { gate, timer } => {
                if valid_level {
                    Some(make_edge(gate, timer, level))
                } else {
                    None
                }
            },
            AsciiDecoderState::StateT1 { of } => {
                if valid_level {
                    self.state = AsciiDecoderState::StateT2 { of, t1: level };
                }
                None
            },
            AsciiDecoderState::StateT2 { of, t1 } => {
                if valid_level {
                    self.state = AsciiDecoderState::StateT3 { of, t1, t2: level };
                }
                None
            },
            AsciiDecoderState::StateT3 { of, t1, t2 } => {
                if valid_level {
                    Some(make_state(of, [t1, t2, level]))
                } else {
                    None
                }
            },
        }
    }
}

/// The signals whose bits are set in `b`, timer 1 in bit 0.
pub open spec fn bits_signals(b: u8) -> [bool; 3] {
    [b % 2 == 1, b / 2 % 2 == 1, b / 4 % 2 == 1]
}

/// The message that `b` stands for in the binary protocol, if it stands for one.
pub open spec fn binary_message(b: u8) -> Option<PtmProtocolMessage> {
    let signals = bits_signals(b);
    let positive = b / 8 % 2 == 1;
    if b / 16 == BINARY_CLOCK_EDGE / 16 {
        Some(PtmProtocolMessage::ClockEdge { clocks: signals, positive })
    } else if b / 16 == BINARY_GATE_EDGE / 16 {
        Some(PtmProtocolMessage::GateEdge { gates: signals, positive })
    } else if b / 16 == BINARY_CLOCK_STATE / 16 {
        Some(PtmProtocolMessage::ClockState { clocks: signals })
    } else if b / 16 == BINARY_GATE_STATE / 16 {
        Some(PtmProtocolMessage::GateState { gates: signals })
    } else if b / 16 == BINARY_OUTPUT_STATE / 16 {
        Some(PtmProtocolMessage::OutputState { outputs: signals })
    } else {
        None
    }
}

/// Decodes a binary encoded byte stream into [`PtmProtocolMessage`] values.
///
/// Invalid data is silently ignored.
pub struct PtmBinaryProtocolDecoder;

impl Default for PtmBinaryProtocolDecoder {
    fn default() -> (d: Self)
        ensures
            d == PtmBinaryProtocolDecoder,
    {
        Self::new()
    }
}

impl ProtocolMessageDecoder<PtmProtocolMessage> for PtmBinaryProtocolDecoder {
    open spec fn wf(&self) -> bool {
        true
    }

    open spec fn initial(encoding: ProtocolMessageEncoding) -> Self {
        PtmBinaryProtocolDecoder
    }

    open spec fn after(&self, b: u8) -> Self {
        *self
    }

    open spec fn decoded(&self, b: u8) -> Option<PtmProtocolMessage> {
        binary_message(b)
    }

    fn for_encoding(encoding: ProtocolMessageEncoding) -> (d: Self) {
        Self::new()
    }

    fn feed(&mut self, b: u8) -> (message: Option<PtmProtocolMessage>) {
        self.feed_binary(b)
    }
}

impl PtmBinaryProtocolDecoder {
    /// Creates a decoder.
    pub fn new() -> (d: Self)
        ensures
            d == PtmBinaryProtocolDecoder,
    {
        PtmBinaryProtocolDecoder
    }

    fn feed_binary(&self, b: u8) -> (message: Option<PtmProtocolMessage>)
        ensures
            message == binary_message(b),
    {
        let kind: u8 = b / 16;
        let signals = [b % 2 == 1, b / 2 % 2 == 1, b / 4 % 2 == 1];
        let positive = b / 8 % 2 == 1;
        if kind == BINARY_CLOCK_EDGE / 16 {
            Some(PtmProtocolMessage::ClockEdge { clocks: signals, positive })
        } else if kind == BINARY_GATE_EDGE / 16 {
            Some(PtmProtocolMessage::GateEdge { gates: signals, positive })
        } else if kind == BINARY_CLOCK_STATE / 16 {
            Some(PtmProtocolMessage::ClockState { clocks: signals })
        } else if kind == BINARY_GATE_STATE / 16 {
            Some(PtmProtocolMessage::GateState { gates: signals })
        } else if kind == BINARY_OUTPUT_STATE / 16 {
            Some(PtmProtocolMessage::OutputState { outputs: signals })
        } else {
            None
        }
    }
}

/// An encoder of either format.
pub enum PtmProtocolEncoder {
    Ascii(PtmAsciiProtocolEncoder),
    Binary(PtmBinaryProtocolEncoder),
}

/// Creates an encoder for protocol format `encoding`.
pub fn new_encoder(encoding: ProtocolMessageEncoding) -> (e: PtmProtocolEncoder)
    ensures
        e == <PtmProtocolEncoder as ProtocolMessageEncoder<PtmProtocolMessage>>::initial(encoding),
{
    match encoding {
        ProtocolMessageEncoding::Ascii => PtmProtocolEncoder::Ascii(PtmAsciiProtocolEncoder::new()),
        ProtocolMessageEncoding::Binary => PtmProtocolEncoder::Binary(
            PtmBinaryProtocolEncoder::new(),
        ),
    }
}

impl ProtocolMessageEncoder<PtmProtocolMessage> for PtmProtocolEncoder {
    open spec fn wf(&self) -> bool {
        match self {
            PtmProtocolEncoder::Ascii(e) => e.wf(),
            PtmProtocolEncoder::Binary(e) => e.wf(),
        }
    }

    open spec fn initial(encoding: ProtocolMessageEncoding) -> Self {
        match encoding {
            ProtocolMessageEncoding::Ascii => PtmProtocolEncoder::Ascii(
                PtmAsciiProtocolEncoder { line_length: 0 },
            ),
            ProtocolMessageEncoding::Binary => PtmProtocolEncoder::Binary(PtmBinaryProtocolEncoder),
        }
    }

    open spec fn encoded(&self, message: PtmProtocolMessage) -> Seq<u8> {
        match self {
            PtmProtocolEncoder::Ascii(e) => e.encoded(message),
            PtmProtocolEncoder::Binary(e) => e.encoded(message),
        }
    }

    open spec fn after(&self, message: PtmProtocolMessage) -> Self {
        match self {
            PtmProtocolEncoder::Ascii(e) => PtmProtocolEncoder::Ascii(e.after(message)),
            PtmProtocolEncoder::Binary(e) => PtmProtocolEncoder::Binary(e.after(message)),
        }
    }

    fn for_encoding(encoding: ProtocolMessageEncoding) -> (e: Self) {
        new_encoder(encoding)
    }

    fn encode(&mut self, message: &PtmProtocolMessage, out: &mut Vec<u8>) {
        match self {
            PtmProtocolEncoder::Ascii(e) => e.encode(message, out),
            PtmProtocolEncoder::Binary(e) => e.encode(message, out),
        }
    }
}

/// A decoder of either format.
pub enum PtmProtocolDecoder {
    Ascii(PtmAsciiProtocolDecoder),
    Binary(PtmBinaryProtocolDecoder),
}

/// Creates a decoder for protocol format `encoding`.
pub fn new_decoder(encoding: ProtocolMessageEncoding) -> (d: PtmProtocolDecoder)
    ensures
        d == <PtmProtocolDecoder as ProtocolMessageDecoder<PtmProtocolMessage>>::initial(encoding),
{
    match encoding {
        ProtocolMessageEncoding::Ascii => PtmProtocolDecoder::Ascii(PtmAsciiProtocolDecoder::new()),
        ProtocolMessageEncoding::Binary => PtmProtocolDecoder::Binary(
            PtmBinaryProtocolDecoder::new(),
        ),
    }
}

impl ProtocolMessageDecoder<PtmProtocolMessage> for PtmProtocolDecoder {
    open spec fn wf(&self) -> bool {
        match self {
            PtmProtocolDecoder::Ascii(d) => d.wf(),
            PtmProtocolDecoder::Binary(d) => d.wf(),
        }
    }

    open spec fn initial(encoding: ProtocolMessageEncoding) -> Self {
        match encoding {
            ProtocolMessageEncoding::Ascii => PtmProtocolDecoder::Ascii(
                PtmAsciiProtocolDecoder { state: AsciiDecoderState::Idle },
            ),
            ProtocolMessageEncoding::Binary => PtmProtocolDecoder::Binary(PtmBinaryProtocolDecoder),
        }
    }

    open spec fn after(&self, b: u8) -> Self {
        match self {
            PtmProtocolDecoder::Ascii(d) => PtmProtocolDecoder::Ascii(d.after(b)),
            PtmProtocolDecoder::Binary(d) => PtmProtocolDecoder::Binary(d.after(b)),
        }
    }

    open spec fn decoded(&self, b: u8) -> Option<PtmProtocolMessage> {
        match self {
            PtmProtocolDecoder::Ascii(d) => d.decoded(b),
            PtmProtocolDecoder::Binary(d) => d.decoded(b),
        }
    }

    fn for_encoding(encoding: ProtocolMessageEncoding) -> (d: Self) {
        new_decoder(encoding)
    }

    fn feed(&mut self, b: u8) -> (message: Option<PtmProtocolMessage>) {
        match self {
            PtmProtocolDecoder::Ascii(d) => d.feed(b),
            PtmProtocolDecoder::Binary(d) => d.feed(b),
        }
    }
}

/// Whether exactly one of the signals is flagged.
pub open spec fn is_single(signals: [bool; 3]) -> bool {
    ||| signals[0] && !signals[1] && !signals[2]
    ||| !signals[0] && signals[1] && !signals[2]
    ||| !signals[0] && !signals[1] && signals[2]
}

/// Whether `b` can be the last byte of `message` in the ASCII protocol: it is a level digit, and
/// stands for the polarity of an edge message, which flags a single timer, or for the level of
/// timer 3 in a state message.
pub open spec fn ends_ascii_message(message: PtmProtocolMessage, b: u8) -> bool {
    &&& is_level_digit(b)
    &&& match message {
        PtmProtocolMessage::ClockEdge { clocks, positive } => is_single(clocks) && positive == (b
            == 0x31),
        PtmProtocolMessage::GateEdge { gates, positive } => is_single(gates) && positive == (b
            == 0x31),
        PtmProtocolMessage::ClockState { clocks } => clocks[2] == (b == 0x31),
        PtmProtocolMessage::GateState { gates } => gates[2] == (b == 0x31),
        PtmProtocolMessage::OutputState { outputs } => outputs[2] == (b == 0x31),
    }
}

/// Only a level digit completes a message in the ASCII protocol, and the message says what the
/// digit says. The decoder then starts over.
pub proof fn level_digit_completes_ascii_message(d: PtmAsciiProtocolDecoder, b: u8)
    requires
        d.wf(),
    ensures
        d.after(b).wf(),
        d.decoded(b) matches Some(message) ==> ends_ascii_message(message, b) && d.after(b).state
            == AsciiDecoderState::Idle,
{
}

/// Whatever bytes an ASCII decoder has been fed, only a level digit completes a message, and the
/// message says what the digit says.
pub proof fn ascii_messages_end_with_level_digit(bytes: Seq<u8>, b: u8)
    ensures
        ({
            let d = crate::protocol::after_bytes::<PtmProtocolMessage, PtmAsciiProtocolDecoder>(
                PtmAsciiProtocolDecoder { state: AsciiDecoderState::Idle },
                bytes,
            );
            &&& d.wf()
            &&& d.decoded(b) matches Some(message) ==> ends_ascii_message(message, b)
        }),
    decreases bytes.len(),
{
    let start = PtmAsciiProtocolDecoder { state: AsciiDecoderState::Idle };
    let d = crate::protocol::after_bytes::<PtmProtocolMessage, PtmAsciiProtocolDecoder>(
        start,
        bytes,
    );
    if bytes.len() > 0 {
        ascii_messages_end_with_level_digit(bytes.drop_last(), bytes.last());
        level_digit_completes_ascii_message(
            crate::protocol::after_bytes::<PtmProtocolMessage, PtmAsciiProtocolDecoder>(
                start,
                bytes.drop_last(),
            ),
            bytes.last(),
        );
    }
    level_digit_completes_ascii_message(d, b);
}

/// What one encoded binary message decodes to is that message, whichever it was.
pub proof fn binary_round_trips(message: PtmProtocolMessage)
    ensures
        crate::protocol::messages_in::<PtmProtocolMessage, PtmBinaryProtocolDecoder>(
            PtmBinaryProtocolDecoder,
            PtmBinaryProtocolEncoder.encoded(message),
        ) == seq![message],
{
    let bytes = PtmBinaryProtocolEncoder.encoded(message);
    let b = message_byte(message);
    match message {
        PtmProtocolMessage::ClockEdge { clocks, .. } => {
            assert(bits_signals(b) =~= clocks);
        },
        PtmProtocolMessage::GateEdge { gates, .. } => {
            assert(bits_signals(b) =~= gates);
        },
        PtmProtocolMessage::ClockState { clocks } => {
            assert(bits_signals(b) =~= clocks);
        },
        PtmProtocolMessage::GateState { gates } => {
            assert(bits_signals(b) =~= gates);
        },
        PtmProtocolMessage::OutputState { outputs } => {
            assert(bits_signals(b) =~= outputs);
        },
    }
    reveal_with_fuel(crate::protocol::messages_in, 2);
    assert(crate::protocol::messages_in::<PtmProtocolMessage, PtmBinaryProtocolDecoder>(
        PtmBinaryProtocolDecoder,
        bytes,
    ) =~= seq![message]);
}

/// The edge messages of the flagged ones of the first `n` timers, one timer each.
pub open spec fn single_edges(
    gate: bool,
    edges: [bool; 3],
    positive: bool,
    n: nat,
) -> Seq<PtmProtocolMessage>
    decreases n,
{
    if n == 0 {
        Seq::empty()
    } else {
        let before = single_edges(gate, edges, positive, (n - 1) as nat);
        if edges[n - 1] {
            before.push(single_edge(gate, n as int, positive))
        } else {
            before
        }
    }
}

/// What an ASCII peer makes of a message: the ASCII format has one word per edge.
pub open spec fn ascii_meaning(message: PtmProtocolMessage) -> Seq<PtmProtocolMessage> {
    match message {
        PtmProtocolMessage::ClockEdge { clocks, positive } => single_edges(
            false,
            clocks,
            positive,
            3,
        ),
        PtmProtocolMessage::GateEdge { gates, positive } => single_edges(true, gates, positive, 3),
        _ => seq![message],
    }
}

spec fn idle() -> PtmAsciiProtocolDecoder {
    PtmAsciiProtocolDecoder { state: AsciiDecoderState::Idle }
}

spec fn word_means(word: Seq<u8>, message: PtmProtocolMessage) -> bool {
    line::word_means::<PtmProtocolMessage, PtmAsciiProtocolDecoder>(idle(), word, message)
}

proof fn lemma_edge_word_means(gate: bool, i: int, positive: bool)
    requires
        0 <= i < 3,
    ensures
        word_means(
            edge_word(edge_letter(gate), i, positive),
            single_edge(gate, i + 1, positive),
        ),
{
    let word = edge_word(edge_letter(gate), i, positive);
    let message = single_edge(gate, i + 1, positive);
    reveal_with_fuel(crate::protocol::after_bytes, 5);
    reveal_with_fuel(crate::protocol::messages_in, 5);
    assert(crate::protocol::messages_in::<PtmProtocolMessage, PtmAsciiProtocolDecoder>(
        idle(),
        word,
    ) =~= seq![message]);
    line::word_means_anywhere::<PtmProtocolMessage, PtmAsciiProtocolDecoder>(idle(), word, message);
}

proof fn lemma_state_word_means(of: Signals, levels: [bool; 3])
    ensures
        word_means(
            state_word(
                state_letter(of),
                levels,
            ),
            state_message(of, levels),
        ),
{
    let word = state_word(
        state_letter(of),
        levels,
    );
    let message = state_message(of, levels);
    assert([levels[0], levels[1], levels[2]] =~= levels);
    reveal_with_fuel(crate::protocol::after_bytes, 6);
    reveal_with_fuel(crate::protocol::messages_in, 6);
    assert(crate::protocol::messages_in::<PtmProtocolMessage, PtmAsciiProtocolDecoder>(
        idle(),
        word,
    ) =~= seq![message]);
    line::word_means_anywhere::<PtmProtocolMessage, PtmAsciiProtocolDecoder>(idle(), word, message);
}

proof fn lemma_edge_words_mean(gate: bool, edges: [bool; 3], positive: bool, n: nat)
    requires
        n <= 3,
    ensures
        ({
            let words = edge_words(edge_letter(gate), edges, positive, n);
            let messages = single_edges(gate, edges, positive, n);
            &&& words.len() == messages.len()
            &&& forall|i: int|
                0 <= i < words.len() ==> word_means(#[trigger] words[i], messages[i])
        }),
    decreases n,
{
    if n > 0 {
        lemma_edge_words_mean(gate, edges, positive, (n - 1) as nat);
        lemma_edge_word_means(gate, n - 1, positive);
        let words = edge_words(edge_letter(gate), edges, positive, n);
        let messages = single_edges(gate, edges, positive, n);
        assert forall|i: int| 0 <= i < words.len() implies word_means(
            #[trigger] words[i],
            messages[i],
        ) by {
            let before = edge_words(edge_letter(gate), edges, positive, (n - 1) as nat);
            if i < before.len() {
                assert(words[i] == before[i]);
            }
        }
    }
}

/// An idle ASCII decoder that is fed an encoded message, at whatever place in the line it was
/// encoded, puts out what the message means, and is idle again.
pub proof fn ascii_round_trips(encoder: PtmAsciiProtocolEncoder, message: PtmProtocolMessage)
    ensures
        ({
            let decoder = PtmAsciiProtocolDecoder { state: AsciiDecoderState::Idle };
            let bytes = encoder.encoded(message);
            &&& crate::protocol::messages_in::<PtmProtocolMessage, PtmAsciiProtocolDecoder>(
                decoder,
                bytes,
            ) == ascii_meaning(message)
            &&& crate::protocol::after_bytes::<PtmProtocolMessage, PtmAsciiProtocolDecoder>(
                decoder,
                bytes,
            ) == decoder
        }),
{
    let words = message_words(message);
    let messages = ascii_meaning(message);
    match message {
        PtmProtocolMessage::ClockEdge { clocks, positive } => {
            lemma_edge_words_mean(false, clocks, positive, 3);
        },
        PtmProtocolMessage::GateEdge { gates, positive } => {
            lemma_edge_words_mean(true, gates, positive, 3);
        },
        PtmProtocolMessage::ClockState { clocks } => {
            lemma_state_word_means(Signals::Clocks, clocks);
        },
        PtmProtocolMessage::GateState { gates } => {
            lemma_state_word_means(Signals::Gates, gates);
        },
        PtmProtocolMessage::OutputState { outputs } => {
            lemma_state_word_means(Signals::Outputs, outputs);
        },
    }
    assert forall|i: int| 0 <= i < words.len() implies line::word_means::<
        PtmProtocolMessage,
        PtmAsciiProtocolDecoder,
    >(idle(), #[trigger] words[i], messages[i]) by {
        assert(word_means(words[i], messages[i]));
    }
    line::line_means::<PtmProtocolMessage, PtmAsciiProtocolDecoder>(
        idle(),
        encoder.line_length,
        words,
        messages,
    );
}

/// The ASCII decoder does not distinguish upper case and lower case letters.
pub proof fn ascii_case_does_not_matter(state: AsciiDecoderState, b: u8)
    ensures
        ascii_step(state, crate::protocol::upper(b)) == ascii_step(state, b),
{
}

/// A control character or a space leaves the ASCII decoder as it was, in the middle of a message
/// too.
pub proof fn ascii_blanks_are_ignored(decoder: PtmAsciiProtocolDecoder, b: u8)
    requires
        b <= 0x20,
    ensures
        decoder.after(b) == decoder,
        decoder.decoded(b) is None,
{
}

} // verus!
