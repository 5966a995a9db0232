//! Protocol codecs for the 6522 VIA peripheral interface.
//!
//! Encoders and decoders for the protocol spoken between a peripheral and the 6522 VIA over a
//! transport. The VIA serves several peripherals at a time; as with real hardware, connected
//! peripherals must take care not to interfere with each other.
//!
//! When a peripheral connects, the current state of the VIA is sent at once. Afterwards, when any
//! connected peripheral changes the state of the VIA, every peripheral is told. Unrecognized input
//! is silently ignored.
//!
//! ## ASCII protocol
//!
//! Short strings of printable characters. A receiver discards control characters (`0x00..0x1F`,
//! `0x7F`), spaces, and bytes with the high-order bit set, and does not distinguish upper and lower
//! case letters. The VIA follows each message with a space and ends the line with CR LF once 72
//! characters have been sent.
//!
//! | Message    | Format | Example | Description                       |
//! |------------|--------|---------|-----------------------------------|
//! | Port state | `pxx`  | `A55`   | Port A state is `0x55`            |
//! | Ctrl state | `Cpvw` | `CB10`  | Port B CB1 is high and CB2 is low |
//! | Reset port | `Rpxx` | `RBF0`  | Reset port B bits 4 through 7     |
//! | Set port   | `Spxx` | `SA03`  | Set port A bits 0 and 1           |
//! | Reset ctrl | `RCpu` | `RCA2`  | Reset CA2 (low)                   |
//! | Set ctrl   | `SCpu` | `SCB1`  | Set CB1 (high)                    |
//!
//! `p` is a port, `A` or `B`; `u` a control pin, `1` or `2`; `v` and `w` levels, `0` or `1`; `x` a
//! hexadecimal digit.
//!
//! ## Binary protocol
//!
//! Each message starts with a byte whose high-order bit is set. Its upper nibble is the message
//! type, bit 2 the port (0 for A), bits 1 and 0 the levels or masks of control pins 1 and 2. Port
//! state, reset port and set port messages have one more byte.
//!
//! | Message    | Upper nibble |
//! |------------|--------------|
//! | Port state | `1000`       |
//! | Ctrl state | `1001`       |
//! | Reset port | `1010`       |
//! | Set port   | `1011`       |
//! | Reset ctrl | `1100`       |
//! | Set ctrl   | `1101`       |

use crate::protocol::line;
use crate::protocol::line::put_word;
use crate::protocol::{
    to_upper, ProtocolMessageDecoder, ProtocolMessageEncoder, ProtocolMessageEncoding,
};
use vstd::prelude::*;

verus! {

/// Position of control signal 1 (`Cp1`) bit in a binary-encoded protocol message.
pub const VIA_CTRL1_MASK: u8 = 0b00000010;

/// Position of control signal 2 (`Cp2`) bit in a binary-encoded protocol message.
pub const VIA_CTRL2_MASK: u8 = 0b00000001;

/// Position of the ctrl signals field in a binary-encoded protocol message.
pub const VIA_CTRL_MASK: u8 = 0b00000011;

/// Position of the port bit in a binary-encoded protocol message.
pub const VIA_PORT_MASK: u8 = 0b00000100;

/// Bit mask used to isolate the message type field in a binary-encoded protocol message.
pub const VIA_TYPE_MASK: u8 = 0b11110000;

/// Field value for the Port State message type in a binary-encoded protocol message.
pub const VIA_TYPE_PORT_STATE: u8 = 0b10000000;

/// Field value for the Ctrl State message type in a binary-encoded protocol message.
pub const VIA_TYPE_CTRL_STATE: u8 = 0b10010000;

/// Field value for the Reset Port message type in a binary-encoded protocol message.
pub const VIA_TYPE_RESET_PORT: u8 = 0b10100000;

/// Field value for the Set Port message type in a binary-encoded protocol message.
pub const VIA_TYPE_SET_PORT: u8 = 0b10110000;

/// Field value for the Reset Ctrl message type in a binary-encoded protocol message.
pub const VIA_TYPE_RESET_CTRL: u8 = 0b11000000;

/// Field value for the Set Ctrl message type in a binary-encoded protocol message.
pub const VIA_TYPE_SET_CTRL: u8 = 0b11010000;

/// A decoded VIA protocol message. A port is identified by its letter, `A` or `B`; levels and
/// masks of control pins have pin 1 in bit 1 and pin 2 in bit 0.
#[derive(Debug, Clone, Copy, PartialEq, Eq, Structural)]
pub enum ViaProtocolMessage {
    /// The state of a port.
    PortState { port: u8, port_state: u8 },
    /// The state of the control pins of a port.
    CtrlState { port: u8, ctrl_state: u8 },
    /// Resets data and/or control pins of a port.
    ResetPort { port: u8, port_mask: u8, ctrl_mask: u8 },
    /// Sets data and/or control pins of a port.
    SetPort { port: u8, port_mask: u8, ctrl_mask: u8 },
    /// Resets control pins of a port.
    ResetCtrl { port: u8, ctrl_mask: u8 },
    /// Sets control pins of a port.
    SetCtrl { port: u8, ctrl_mask: u8 },
}

/// The upper case hexadecimal digit of a number below 16.
pub open spec fn hex_digit(n: int) -> u8 {
    if n < 10 {
        (0x30 + n) as u8
    } else {
        (0x41 + n - 10) as u8
    }
}

/// The value of a hexadecimal digit of either case.
pub open spec fn hex_value(b: u8) -> Option<u8> {
    if 0x30 <= b <= 0x39 {
        Some((b - 0x30) as u8)
    } else if 0x41 <= b <= 0x46 {
        Some((b - 0x41 + 10) as u8)
    } else if 0x61 <= b <= 0x66 {
        Some((b - 0x61 + 10) as u8)
    } else {
        None
    }
}

fn hex_nibble(n: u8) -> (digit: u8)
    requires
        n < 16,
    ensures
        digit == hex_digit(n as int),
{
    if n < 10 {
        0x30 + n
    } else {
        0x41 + (n - 10)
    }
}

fn parse_hex_nibble(b: u8) -> (value: Option<u8>)
    ensures
        value == hex_value(b),
        value matches Some(n) ==> n < 16,
{
    if 0x30 <= b && b <= 0x39 {
        Some(b - 0x30)
    } else if 0x41 <= b && b <= 0x46 {
        Some(b - 0x41 + 10)
    } else if 0x61 <= b && b <= 0x66 {
        Some(b - 0x61 + 10)
    } else {
        None
    }
}

/// Whether control pin 1 is set in `ctrl`.
pub open spec fn ctrl1(ctrl: u8) -> bool {
    ctrl / 2 % 2 == 1
}

/// Whether control pin 2 is set in `ctrl`.
pub open spec fn ctrl2(ctrl: u8) -> bool {
    ctrl % 2 == 1
}

/// The ASCII digit of a level.
pub open spec fn level_digit(level: bool) -> u8 {
    if level {
        0x31
    } else {
        0x30
    }
}

fn encode_ascii_bit(level: bool) -> (digit: u8)
    ensures
        digit == level_digit(level),
{
    if level {
        0x31
    } else {
        0x30
    }
}

/// The letter of a change: `S` to set, `R` to reset.
pub open spec fn change_letter(set: bool) -> u8 {
    if set {
        0x53
    } else {
        0x52
    }
}

/// The word of a port's state.
pub open spec fn port_state_word(port: u8, port_state: u8) -> Seq<u8> {
    seq![port, hex_digit(port_state as int / 16), hex_digit(port_state as int % 16), 0x20u8]
}

/// The word of a change to a port.
pub open spec fn port_change_word(set: bool, port: u8, port_mask: u8) -> Seq<u8> {
    seq![
        change_letter(set),
        port,
        hex_digit(port_mask as int / 16),
        hex_digit(port_mask as int % 16),
        0x20u8,
    ]
}

/// The word of the state of a port's control pins.
pub open spec fn ctrl_state_word(port: u8, ctrl_state: u8) -> Seq<u8> {
    seq![0x43u8, port, level_digit(ctrl1(ctrl_state)), level_digit(ctrl2(ctrl_state)), 0x20u8]
}

/// The word of a change to one control pin.
pub open spec fn ctrl_change_word(set: bool, port: u8, pin: u8) -> Seq<u8> {
    seq![change_letter(set), 0x43u8, port, pin, 0x20u8]
}

/// The words of a change to the control pins in a mask, pin 1 first.
pub open spec fn ctrl_change_words(set: bool, port: u8, ctrl_mask: u8) -> Seq<Seq<u8>> {
    (if ctrl1(ctrl_mask) {
        seq![ctrl_change_word(set, port, 0x31)]
    } else {
        Seq::empty()
    }) + (if ctrl2(ctrl_mask) {
        seq![ctrl_change_word(set, port, 0x32)]
    } else {
        Seq::empty()
    })
}

/// The ASCII words of a message.
pub open spec fn message_words(message: ViaProtocolMessage) -> Seq<Seq<u8>> {
    match message {
        ViaProtocolMessage::PortState { port, port_state } => seq![
            port_state_word(port, port_state),
        ],
        ViaProtocolMessage::CtrlState { port, ctrl_state } => seq![
            ctrl_state_word(port, ctrl_state),
        ],
        ViaProtocolMessage::ResetPort { port, port_mask, ctrl_mask } => seq![
            port_change_word(false, port, port_mask),
        ] + ctrl_change_words(false, port, ctrl_mask),
        ViaProtocolMessage::SetPort { port, port_mask, ctrl_mask } => seq![
            port_change_word(true, port, port_mask),
        ] + ctrl_change_words(true, port, ctrl_mask),
        ViaProtocolMessage::ResetCtrl { port, ctrl_mask } => ctrl_change_words(
            false,
            port,
            ctrl_mask,
        ),
        ViaProtocolMessage::SetCtrl { port, ctrl_mask } => ctrl_change_words(true, port, ctrl_mask),
    }
}

/// Encodes [`ViaProtocolMessage`] values into ASCII format for transmission.
///
/// A space follows each message as a human readability aid.
pub struct ViaAsciiProtocolEncoder {
    pub line_length: u8,
}

impl Default for ViaAsciiProtocolEncoder {
    fn default() -> (e: Self)
        ensures
            e.line_length == 0,
    {
        Self::new()
    }
}

impl ProtocolMessageEncoder<ViaProtocolMessage> for ViaAsciiProtocolEncoder {
    open spec fn wf(&self) -> bool {
        line::line_ok(self.line_length)
    }

    open spec fn initial(encoding: ProtocolMessageEncoding) -> Self {
        ViaAsciiProtocolEncoder { line_length: 0 }
    }

    open spec fn encoded(&self, message: ViaProtocolMessage) -> Seq<u8> {
        line::line_bytes(self.line_length, message_words(message))
    }

    open spec fn after(&self, message: ViaProtocolMessage) -> Self {
        ViaAsciiProtocolEncoder {
            line_length: line::line_length(self.line_length, message_words(message)),
        }
    }

    fn for_encoding(encoding: ProtocolMessageEncoding) -> (e: Self) {
        Self::new()
    }

    fn encode(&mut self, message: &ViaProtocolMessage, out: &mut Vec<u8>) {
        self.encode_ascii(message, out);
    }
}

/// What holds of an encoder and its output once `words` were put on its line.
pub open spec fn words_put(
    before: ViaAsciiProtocolEncoder,
    after: ViaAsciiProtocolEncoder,
    out_before: Seq<u8>,
    out_after: Seq<u8>,
    words: Seq<Seq<u8>>,
) -> bool {
    &&& line::line_ok(after.line_length)
    &&& after.line_length == line::line_length(before.line_length, words)
    &&& out_after == out_before + line::line_bytes(before.line_length, words)
}

impl ViaAsciiProtocolEncoder {
    /// Creates an encoder at the start of a line.
    pub fn new() -> (e: Self)
        ensures
            e.line_length == 0,
    {
        ViaAsciiProtocolEncoder { line_length: 0 }
    }

    fn put(&mut self, word: &[u8], out: &mut Vec<u8>)
        requires
            line::line_ok(old(self).line_length),
            word@.len() <= line::WORD_LIMIT,
        ensures
            words_put(*old(self), *final(self), old(out)@, final(out)@, seq![word@]),
    {
        proof {
            line::line_with_word(self.line_length, Seq::empty(), word@);
            assert(Seq::<Seq<u8>>::empty().push(word@) =~= seq![word@]);
        }
        self.line_length = put_word(self.line_length, word, out);
    }

    fn encode_ascii(&mut self, message: &ViaProtocolMessage, out: &mut Vec<u8>)
        requires
            line::line_ok(old(self).line_length),
        ensures
            words_put(*old(self), *final(self), old(out)@, final(out)@, message_words(*message)),
    {
        match message {
            ViaProtocolMessage::PortState { port, port_state } => {
                self.encode_ascii_port_state(*port, *port_state, out);
            },
            ViaProtocolMessage::CtrlState { port, ctrl_state } => {
                self.encode_ascii_ctrl_state(*port, *ctrl_state, out);
            },
            ViaProtocolMessage::ResetPort { port, port_mask, ctrl_mask } => {
                self.encode_ascii_port_change(false, *port, *port_mask, *ctrl_mask, out);
            },
            ViaProtocolMessage::SetPort { port, port_mask, ctrl_mask } => {
                self.encode_ascii_port_change(true, *port, *port_mask, *ctrl_mask, out);
            },
            ViaProtocolMessage::ResetCtrl { port, ctrl_mask } => {
                self.encode_ascii_port_ctrl_change(false, *port, *ctrl_mask, out);
            },
            ViaProtocolMessage::SetCtrl { port, ctrl_mask } => {
                self.encode_ascii_port_ctrl_change(true, *port, *ctrl_mask, out);
            },
        }
    }

    fn encode_ascii_port_state(&mut self, port: u8, port_state: u8, out: &mut Vec<u8>)
        requires
            line::line_ok(old(self).line_length),
        ensures
            words_put(
                *old(self),
                *final(self),
                old(out)@,
                final(out)@,
                seq![port_state_word(port, port_state)],
            ),
    {
        let word = [port, hex_nibble(port_state / 16), hex_nibble(port_state % 16), 0x20];
        assert(word@ =~= port_state_word(port, port_state));
        self.put(&word, out);
    }

    fn encode_ascii_port_change(
        &mut self,
        set: bool,
        port: u8,
        port_mask: u8,
        ctrl_mask: u8,
        out: &mut Vec<u8>,
    )
        requires
            line::line_ok(old(self).line_length),
        ensures
            words_put(
                *old(self),
                *final(self),
                old(out)@,
                final(out)@,
                seq![port_change_word(set, port, port_mask)] + ctrl_change_words(
                    set,
                    port,
                    ctrl_mask,
                ),
            ),
    {
        let letter: u8 = encode_change(set);
        let word = [letter, port, hex_nibble(port_mask / 16), hex_nibble(port_mask % 16), 0x20];
        assert(word@ =~= port_change_word(set, port, port_mask));
        self.put(&word, out);
        proof {
            line::line_in_parts(
                old(self).line_length,
                seq![word@],
                ctrl_change_words(set, port, ctrl_mask),
            );
        }
        self.encode_ascii_port_ctrl_change(set, port, ctrl_mask, out);
        assert(out@ =~= old(out)@ + line::line_bytes(
            old(self).line_length,
            seq![word@] + ctrl_change_words(set, port, ctrl_mask),
        ));
    }

    fn encode_ascii_port_ctrl_change(
        &mut self,
        set: bool,
        port: u8,
        ctrl_mask: u8,
        out: &mut Vec<u8>,
    )
        requires
            line::line_ok(old(self).line_length),
        ensures
            words_put(
                *old(self),
                *final(self),
                old(out)@,
                final(out)@,
                ctrl_change_words(set, port, ctrl_mask),
            ),
    {
        let ghost first = if ctrl1(ctrl_mask) {
            seq![ctrl_change_word(set, port, 0x31)]
        } else {
            Seq::empty()
        };
        if ctrl_mask / 2 % 2 == 1 {
            self.encode_ascii_ctrl_change(set, port, 0x31, out);
        }
        proof {
            line::line_in_parts(
                old(self).line_length,
                first,
                if ctrl2(ctrl_mask) {
                    seq![ctrl_change_word(set, port, 0x32)]
                } else {
                    Seq::empty()
                },
            );
        }
        if ctrl_mask % 2 == 1 {
            self.encode_ascii_ctrl_change(set, port, 0x32, out);
        }
        assert(out@ =~= old(out)@ + line::line_bytes(
            old(self).line_length,
            ctrl_change_words(set, port, ctrl_mask),
        ));
    }

    fn encode_ascii_ctrl_change(&mut self, set: bool, port: u8, pin: u8, out: &mut Vec<u8>)
        requires
            line::line_ok(old(self).line_length),
        ensures
            words_put(
                *old(self),
                *final(self),
                old(out)@,
                final(out)@,
                seq![ctrl_change_word(set, port, pin)],
            ),
    {
        let word = [encode_change(set), 0x43, port, pin, 0x20];
        assert(word@ =~= ctrl_change_word(set, port, pin));
        self.put(&word, out);
    }

    fn encode_ascii_ctrl_state(&mut self, port: u8, ctrl_state: u8, out: &mut Vec<u8>)
        requires
            line::line_ok(old(self).line_length),
        ensures
            words_put(
                *old(self),
                *final(self),
                old(out)@,
                final(out)@,
                seq![ctrl_state_word(port, ctrl_state)],
            ),
    {
        let pin1: u8 = encode_ascii_bit(ctrl_state / 2 % 2 == 1);
        let pin2: u8 = encode_ascii_bit(ctrl_state % 2 == 1);
        let word = [0x43, port, pin1, pin2, 0x20];
        assert(word@ =~= ctrl_state_word(port, ctrl_state));
        self.put(&word, out);
    }
}

fn encode_change(set: bool) -> (letter: u8)
    ensures
        letter == change_letter(set),
{
    if set {
        0x53
    } else {
        0x52
    }
}

/// The first byte of a binary message.
pub open spec fn message_byte(kind: u8, port: u8, ctrl: u8) -> u8 {
    (kind + (if port == 0x42 { 4int } else { 0 }) + ctrl % 4) as u8
}

/// The binary form of a message.
pub open spec fn message_bytes(message: ViaProtocolMessage) -> Seq<u8> {
    match message {
        ViaProtocolMessage::PortState { port, port_state } => seq![
            message_byte(VIA_TYPE_PORT_STATE, port, 0),
            port_state,
        ],
        ViaProtocolMessage::CtrlState { port, ctrl_state } => seq![
            message_byte(VIA_TYPE_CTRL_STATE, port, ctrl_state),
        ],
        ViaProtocolMessage::ResetPort { port, port_mask, ctrl_mask } => seq![
            message_byte(VIA_TYPE_RESET_PORT, port, ctrl_mask),
            port_mask,
        ],
        ViaProtocolMessage::SetPort { port, port_mask, ctrl_mask } => seq![
            message_byte(VIA_TYPE_SET_PORT, port, ctrl_mask),
            port_mask,
        ],
        ViaProtocolMessage::ResetCtrl { port, ctrl_mask } => seq![
            message_byte(VIA_TYPE_RESET_CTRL, port, ctrl_mask),
        ],
        ViaProtocolMessage::SetCtrl { port, ctrl_mask } => seq![
            message_byte(VIA_TYPE_SET_CTRL, port, ctrl_mask),
        ],
    }
}

/// Encodes [`ViaProtocolMessage`] values into binary format for transmission.
pub struct ViaBinaryProtocolEncoder;

impl Default for ViaBinaryProtocolEncoder {
    fn default() -> (e: Self)
        ensures
            e == ViaBinaryProtocolEncoder,
    {
        Self::new()
    }
}

impl ProtocolMessageEncoder<ViaProtocolMessage> for ViaBinaryProtocolEncoder {
    open spec fn wf(&self) -> bool {
        true
    }

    open spec fn initial(encoding: ProtocolMessageEncoding) -> Self {
        ViaBinaryProtocolEncoder
    }

    open spec fn encoded(&self, message: ViaProtocolMessage) -> Seq<u8> {
        message_bytes(message)
    }

    open spec fn after(&self, message: ViaProtocolMessage) -> Self {
        *self
    }

    fn for_encoding(encoding: ProtocolMessageEncoding) -> (e: Self) {
        Self::new()
    }

    fn encode(&mut self, message: &ViaProtocolMessage, out: &mut Vec<u8>) {
        self.encode_binary(message, out);
    }
}

impl ViaBinaryProtocolEncoder {
    /// Creates an encoder.
    pub fn new() -> (e: Self)
        ensures
            e == ViaBinaryProtocolEncoder,
    {
        ViaBinaryProtocolEncoder
    }

    fn encode_binary(&self, message: &ViaProtocolMessage, out: &mut Vec<u8>)
        ensures
            final(out)@ == old(out)@ + message_bytes(*message),
    {
        match message {
            ViaProtocolMessage::PortState { port, port_state } => {
                out.push(Self::encode_message_byte(VIA_TYPE_PORT_STATE, *port, 0));
                out.push(*port_state);
            },
            ViaProtocolMessage::CtrlState { port, ctrl_state } => {
                out.push(Self::encode_message_byte(VIA_TYPE_CTRL_STATE, *port, *ctrl_state));
            },
            ViaProtocolMessage::ResetPort { port, port_mask, ctrl_mask } => {
                out.push(Self::encode_message_byte(VIA_TYPE_RESET_PORT, *port, *ctrl_mask));
                out.push(*port_mask);
            },
            ViaProtocolMessage::SetPort { port, port_mask, ctrl_mask } => {
                out.push(Self::encode_message_byte(VIA_TYPE_SET_PORT, *port, *ctrl_mask));
                out.push(*port_mask);
            },
            ViaProtocolMessage::ResetCtrl { port, ctrl_mask } => {
                out.push(Self::encode_message_byte(VIA_TYPE_RESET_CTRL, *port, *ctrl_mask));
            },
            ViaProtocolMessage::SetCtrl { port, ctrl_mask } => {
                out.push(Self::encode_message_byte(VIA_TYPE_SET_CTRL, *port, *ctrl_mask));
            },
        }
        assert(out@ =~= old(out)@ + message_bytes(*message));
    }

    fn encode_message_byte(kind: u8, port: u8, ctrl: u8) -> (b: u8)
        requires
            kind < 0xf0,
        ensures
            b == message_byte(kind, port, ctrl),
    {
        let port_bit: u8 = if port == 0x42 { VIA_PORT_MASK } else { 0 };
        kind + port_bit + ctrl % 4
    }
}

/// What a two-digit word says of a port.
#[derive(Debug, Clone, Copy, PartialEq, Eq, Structural)]
pub enum PortWord {
    State,
    ResetBits,
    SetBits,
}

/// What the ASCII decoder has seen of the message at hand.
#[derive(Debug, Clone, Copy, PartialEq, Eq, Structural)]
pub enum AsciiDecoderState {
    /// Nothing.
    Idle,
    /// All but the digits of a port word.
    Port { word: PortWord, port: u8 },
    /// All but the low digit of a port word.
    PortHigh { word: PortWord, port: u8, high_nibble: u8 },
    /// `C`.
    CtrlState,
    /// `C` and a port.
    CtrlStatePort { port: u8 },
    /// `C`, a port and the level of pin 1.
    CtrlStatePin1 { port: u8, pin: bool },
    /// `S` if `set`, else `R`.
    Change { set: bool },
    /// `SC` if `set`, else `RC`.
    ChangeCtrl { set: bool },
    /// `SC` or `RC`, and a port.
    ChangeCtrlPort { set: bool, port: u8 },
}

/// The message of a port word.
pub open spec fn port_message(word: PortWord, port: u8, value: u8) -> ViaProtocolMessage {
    match word {
        PortWord::State => ViaProtocolMessage::PortState { port, port_state: value },
        PortWord::ResetBits => ViaProtocolMessage::ResetPort { port, port_mask: value, ctrl_mask: 0 },
        PortWord::SetBits => ViaProtocolMessage::SetPort { port, port_mask: value, ctrl_mask: 0 },
    }
}

/// The message of a change to control pins.
pub open spec fn ctrl_message(set: bool, port: u8, ctrl_mask: u8) -> ViaProtocolMessage {
    if set {
        ViaProtocolMessage::SetCtrl { port, ctrl_mask }
    } else {
        ViaProtocolMessage::ResetCtrl { port, ctrl_mask }
    }
}

/// Whether a receiver discards `b`: a control character, a space, or a byte that is not ASCII.
pub open spec fn ascii_discarded(b: u8) -> bool {
    b <= 0x20 || b >= 0x7f
}

/// Whether `letter` is the letter of a port.
pub open spec fn is_port(letter: u8) -> bool {
    letter == 0x41 || letter == 0x42
}

/// Whether `b` is the digit of a level.
pub open spec fn is_level_digit(b: u8) -> bool {
    b == 0x30 || b == 0x31
}

/// What the ASCII decoder makes of `b`: what it has then seen, and the message that is complete.
pub open spec fn ascii_step(state: AsciiDecoderState, b: u8) -> (
    AsciiDecoderState,
    Option<ViaProtocolMessage>,
) {
    let letter = crate::protocol::upper(b);
    let restart: (AsciiDecoderState, Option<ViaProtocolMessage>) = (AsciiDecoderState::Idle, None);
    if ascii_discarded(b) {
        (state, None)
    } else {
        match state {
            AsciiDecoderState::Idle => if is_port(letter) {
                (AsciiDecoderState::Port { word: PortWord::State, port: letter }, None)
            } else if letter == 0x43 {
                (AsciiDecoderState::CtrlState, None)
            } else if letter == 0x52 {
                (AsciiDecoderState::Change { set: false }, None)
            } else if letter == 0x53 {
                (AsciiDecoderState::Change { set: true }, None)
            } else {
                restart
            },
            AsciiDecoderState::Port { word, port } => match hex_value(b) {
                Some(high_nibble) => (
                    AsciiDecoderState::PortHigh { word, port, high_nibble },
                    None,
                ),
                None => restart,
            },
            AsciiDecoderState::PortHigh { word, port, high_nibble } => match hex_value(b) {
                Some(low_nibble) => (
                    AsciiDecoderState::Idle,
                    Some(port_message(word, port, (high_nibble * 16 + low_nibble) as u8)),
                ),
                None => restart,
            },
            AsciiDecoderState::CtrlState => if is_port(letter) {
                (AsciiDecoderState::CtrlStatePort { port: letter }, None)
            } else {
                restart
            },
            AsciiDecoderState::CtrlStatePort { port } => if is_level_digit(b) {
                (AsciiDecoderState::CtrlStatePin1 { port, pin: b == 0x31 }, None)
            } else {
                restart
            },
            AsciiDecoderState::CtrlStatePin1 { port, pin } => if is_level_digit(b) {
                let ctrl_state = ((if pin { 2int } else { 0 }) + (b - 0x30)) as u8;
                (AsciiDecoderState::Idle, Some(ViaProtocolMessage::CtrlState { port, ctrl_state }))
            } else {
                restart
            },
            AsciiDecoderState::Change { set } => if is_port(letter) {
                let word = if set {
                    PortWord::SetBits
                } else {
                    PortWord::ResetBits
                };
                (AsciiDecoderState::Port { word, port: letter }, None)
            } else if letter == 0x43 {
                (AsciiDecoderState::ChangeCtrl { set }, None)
            } else {
                restart
            },
            AsciiDecoderState::ChangeCtrl { set } => if is_port(letter) {
                (AsciiDecoderState::ChangeCtrlPort { set, port: letter }, None)
            } else {
                restart
            },
            AsciiDecoderState::ChangeCtrlPort { set, port } => if b == 0x31 {
                (AsciiDecoderState::Idle, Some(ctrl_message(set, port, VIA_CTRL1_MASK)))
            } else if b == 0x32 {
                (AsciiDecoderState::Idle, Some(ctrl_message(set, port, VIA_CTRL2_MASK)))
            } else {
                restart
            },
        }
    }
}

/// Decodes an ASCII-encoded byte stream into [`ViaProtocolMessage`] values.
///
/// Invalid data is silently ignored.
pub struct ViaAsciiProtocolDecoder {
    pub state: AsciiDecoderState,
}

impl Default for ViaAsciiProtocolDecoder {
    fn default() -> (d: Self)
        ensures
            d.state == AsciiDecoderState::Idle,
    {
        Self::new()
    }
}

impl ProtocolMessageDecoder<ViaProtocolMessage> for ViaAsciiProtocolDecoder {
    open spec fn wf(&self) -> bool {
        self.state matches AsciiDecoderState::PortHigh { high_nibble, .. } ==> high_nibble < 16
    }

    open spec fn initial(encoding: ProtocolMessageEncoding) -> Self {
        ViaAsciiProtocolDecoder { state: AsciiDecoderState::Idle }
    }

    open spec fn after(&self, b: u8) -> Self {
        ViaAsciiProtocolDecoder { state: ascii_step(self.state, b).0 }
    }

    open spec fn decoded(&self, b: u8) -> Option<ViaProtocolMessage> {
        ascii_step(self.state, b).1
    }

    fn for_encoding(encoding: ProtocolMessageEncoding) -> (d: Self) {
        Self::new()
    }

    fn feed(&mut self, b: u8) -> (message: Option<ViaProtocolMessage>) {
        self.feed_ascii(b)
    }
}

fn make_port_message(word: PortWord, port: u8, value: u8) -> (message: ViaProtocolMessage)
    ensures
        message == port_message(word, port, value),
{
    match word {
        PortWord::State => ViaProtocolMessage::PortState { port, port_state: value },
        PortWord::ResetBits => ViaProtocolMessage::ResetPort { port, port_mask: value, ctrl_mask: 0 },
        PortWord::SetBits => ViaProtocolMessage::SetPort { port, port_mask: value, ctrl_mask: 0 },
    }
}

fn make_ctrl_message(set: bool, port: u8, ctrl_mask: u8) -> (message: ViaProtocolMessage)
    ensures
        message == ctrl_message(set, port, ctrl_mask),
{
    if set {
        ViaProtocolMessage::SetCtrl { port, ctrl_mask }
    } else {
        ViaProtocolMessage::ResetCtrl { port, ctrl_mask }
    }
}

impl ViaAsciiProtocolDecoder {
    /// Creates a decoder that has seen nothing.
    pub fn new() -> (d: Self)
        ensures
            d.state == AsciiDecoderState::Idle,
    {
        ViaAsciiProtocolDecoder { state: AsciiDecoderState::Idle }
    }

    fn feed_ascii(&mut self, b: u8) -> (message: Option<ViaProtocolMessage>)
        requires
            old(self).wf(),
        ensures
            final(self).wf(),
            (final(self).state, message) == ascii_step(old(self).state, b),
    {
        if b <= 0x20 || b >= 0x7f {
            return None;
        }
        let letter: u8 = to_upper(b);
        let port_letter = letter == 0x41 || letter == 0x42;
        let state = self.state;
        self.state = AsciiDecoderState::Idle;
        match state {
            AsciiDecoderState::Idle => {
                if port_letter {
                    self.state = AsciiDecoderState::Port { word: PortWord::State, port: letter };
                } else if letter == 0x43 {
                    self.state = AsciiDecoderState::CtrlState;
                } else if letter == 0x52 {
                    self.state = AsciiDecoderState::Change { set: false };
                } else if letter == 0x53 {
                    self.state = AsciiDecoderState::Change { set: true };
                }
                None
            },
            AsciiDecoderState::Port { word, port } => {
                if let Some(high_nibble) = parse_hex_nibble(b) {
                    self.state = AsciiDecoderState::PortHigh { word, port, high_nibble };
                }
                None
            },
            AsciiDecoderState::PortHigh { word, port, high_nibble } => {
                match parse_hex_nibble(b) {
                    Some(low_nibble) => Some(
                        make_port_message(word, port, high_nibble * 16 + low_nibble),
                    ),
                    None => None,
                }
            },
            AsciiDecoderState::CtrlState => {
                if port_letter {
                    self.state = AsciiDecoderState::CtrlStatePort { port: letter };
                }
                None
            },
            AsciiDecoderState::CtrlStatePort { port } => {
                if b == 0x30 || b == 0x31 {
                    self.state = AsciiDecoderState::CtrlStatePin1 { port, pin: b == 0x31 };
                }
                None
            },
            AsciiDecoderState::CtrlStatePin1 { port, pin } => {
                if b == 0x30 || b == 0x31 {
                    let pin1: u8 = if pin { VIA_CTRL1_MASK } else { 0 };
                    Some(ViaProtocolMessage::CtrlState { port, ctrl_state: pin1 + (b - 0x30) })
                } else {
                    None
                }
            },
            AsciiDecoderState::Change { set } => {
                if port_letter {
                    let word = if set {
                        PortWord::SetBits
                    } else {
                        PortWord::ResetBits
                    };
                    self.state = AsciiDecoderState::Port { word, port: letter };
                } else if letter == 0x43 {
                    self.state = AsciiDecoderState::ChangeCtrl { set };
                }
                None
            },
            AsciiDecoderState::ChangeCtrl { set } => {
                if port_letter {
                    self.state = AsciiDecoderState::ChangeCtrlPort { set, port: letter };
                }
                None
            },
            AsciiDecoderState::ChangeCtrlPort { set, port } => {
                if b == 0x31 {
                    Some(make_ctrl_message(set, port, VIA_CTRL1_MASK))
                } else if b == 0x32 {
                    Some(make_ctrl_message(set, port, VIA_CTRL2_MASK))
                } else {
                    None
                }
            },
        }
    }
}

/// What the binary decoder has seen of the message at hand.
#[derive(Debug, Clone, Copy, PartialEq, Eq, Structural)]
pub enum BinaryDecoderState {
    /// Nothing.
    Idle,
    /// The first byte of a two-byte message.
    Port { word: PortWord, message: u8 },
}

/// The port in the first byte of a binary message.
pub open spec fn byte_port(message: u8) -> u8 {
    if message / 4 % 2 == 0 {
        0x41
    } else {
        0x42
    }
}

/// What the binary decoder makes of `b`: what it has then seen, and the message that is complete.
pub open spec fn binary_step(state: BinaryDecoderState, b: u8) -> (
    BinaryDecoderState,
    Option<ViaProtocolMessage>,
) {
    match state {
        BinaryDecoderState::Idle => {
            let port = byte_port(b);
            let ctrl = b % 4;
            let kind = b / 16;
            if kind == VIA_TYPE_PORT_STATE / 16 {
                (BinaryDecoderState::Port { word: PortWord::State, message: b }, None)
            } else if kind == VIA_TYPE_RESET_PORT / 16 {
                (BinaryDecoderState::Port { word: PortWord::ResetBits, message: b }, None)
            } else if kind == VIA_TYPE_SET_PORT / 16 {
                (BinaryDecoderState::Port { word: PortWord::SetBits, message: b }, None)
            } else if kind == VIA_TYPE_CTRL_STATE / 16 {
                (state, Some(ViaProtocolMessage::CtrlState { port, ctrl_state: ctrl }))
            } else if kind == VIA_TYPE_RESET_CTRL / 16 {
                (state, Some(ctrl_message(false, port, ctrl)))
            } else if kind == VIA_TYPE_SET_CTRL / 16 {
                (state, Some(ctrl_message(true, port, ctrl)))
            } else {
                (state, None)
            }
        },
        BinaryDecoderState::Port { word, message } => {
            let port = byte_port(message);
            let ctrl_mask = message % 4;
            (
                BinaryDecoderState::Idle,
                Some(
                    match word {
                        PortWord::State => ViaProtocolMessage::PortState { port, port_state: b },
                        PortWord::ResetBits => ViaProtocolMessage::ResetPort {
                            port,
                            port_mask: b,
                            ctrl_mask,
                        },
                        PortWord::SetBits => ViaProtocolMessage::SetPort {
                            port,
                            port_mask: b,
                            ctrl_mask,
                        },
                    },
                ),
            )
        },
    }
}

/// Decodes a binary-encoded byte stream into [`ViaProtocolMessage`] values.
///
/// Invalid data is silently ignored.
pub struct ViaBinaryProtocolDecoder {
    pub state: BinaryDecoderState,
}

impl Default for ViaBinaryProtocolDecoder {
    fn default() -> (d: Self)
        ensures
            d.state == BinaryDecoderState::Idle,
    {
        Self::new()
    }
}

impl ProtocolMessageDecoder<ViaProtocolMessage> for ViaBinaryProtocolDecoder {
    open spec fn wf(&self) -> bool {
        true
    }

    open spec fn initial(encoding: ProtocolMessageEncoding) -> Self {
        ViaBinaryProtocolDecoder { state: BinaryDecoderState::Idle }
    }

    open spec fn after(&self, b: u8) -> Self {
        ViaBinaryProtocolDecoder { state: binary_step(self.state, b).0 }
    }

    open spec fn decoded(&self, b: u8) -> Option<ViaProtocolMessage> {
        binary_step(self.state, b).1
    }

    fn for_encoding(encoding: ProtocolMessageEncoding) -> (d: Self) {
        Self::new()
    }

    fn feed(&mut self, b: u8) -> (message: Option<ViaProtocolMessage>) {
        self.feed_binary(b)
    }
}

fn decode_port(message: u8) -> (port: u8)
    ensures
        port == byte_port(message),
{
    if message / 4 % 2 == 0 {
        0x41
    } else {
        0x42
    }
}

impl ViaBinaryProtocolDecoder {
    /// Creates a decoder that has seen nothing.
    pub fn new() -> (d: Self)
        ensures
            d.state == BinaryDecoderState::Idle,
    {
        ViaBinaryProtocolDecoder { state: BinaryDecoderState::Idle }
    }

    fn feed_binary(&mut self, b: u8) -> (message: Option<ViaProtocolMessage>)
        ensures
            (final(self).state, message) == binary_step(old(self).state, b),
    {
        match self.state {
            BinaryDecoderState::Idle => {
                let port: u8 = decode_port(b);
                let kind: u8 = b / 16;
                if kind == VIA_TYPE_PORT_STATE / 16 {
                    self.state = BinaryDecoderState::Port { word: PortWord::State, message: b };
                    None
                } else if kind == VIA_TYPE_RESET_PORT / 16 {
                    self.state = BinaryDecoderState::Port { word: PortWord::ResetBits, message: b };
                    None
                } else if kind == VIA_TYPE_SET_PORT / 16 {
                    self.state = BinaryDecoderState::Port { word: PortWord::SetBits, message: b };
                    None
                } else if kind == VIA_TYPE_CTRL_STATE / 16 {
                    Some(ViaProtocolMessage::CtrlState { port, ctrl_state: b % 4 })
                } else if kind == VIA_TYPE_RESET_CTRL / 16 {
                    Some(make_ctrl_message(false, port, b % 4))
                } else if kind == VIA_TYPE_SET_CTRL / 16 {
                    Some(make_ctrl_message(true, port, b % 4))
                } else {
                    None
                }
            },
            BinaryDecoderState::Port { word, message } => {
                self.state = BinaryDecoderState::Idle;
                let port: u8 = decode_port(message);
                let ctrl_mask: u8 = message % 4;
                Some(
                    match word {
                        PortWord::State => ViaProtocolMessage::PortState { port, port_state: b },
                        PortWord::ResetBits => ViaProtocolMessage::ResetPort {
                            port,
                            port_mask: b,
                            ctrl_mask,
                        },
                        PortWord::SetBits => ViaProtocolMessage::SetPort {
                            port,
                            port_mask: b,
                            ctrl_mask,
                        },
                    },
                )
            },
        }
    }
}

/// An encoder of either format.
pub enum ViaProtocolEncoder {
    Ascii(ViaAsciiProtocolEncoder),
    Binary(ViaBinaryProtocolEncoder),
}

/// Creates an encoder for protocol format `encoding`.
pub fn new_encoder(encoding: ProtocolMessageEncoding) -> (e: ViaProtocolEncoder)
    ensures
        e == <ViaProtocolEncoder as ProtocolMessageEncoder<ViaProtocolMessage>>::initial(encoding),
{
    match encoding {
        ProtocolMessageEncoding::Ascii => ViaProtocolEncoder::Ascii(ViaAsciiProtocolEncoder::new()),
        ProtocolMessageEncoding::Binary => ViaProtocolEncoder::Binary(
            ViaBinaryProtocolEncoder::new(),
        ),
    }
}

impl ProtocolMessageEncoder<ViaProtocolMessage> for ViaProtocolEncoder {
    open spec fn wf(&self) -> bool {
        match self {
            ViaProtocolEncoder::Ascii(e) => e.wf(),
            ViaProtocolEncoder::Binary(e) => e.wf(),
        }
    }

    open spec fn initial(encoding: ProtocolMessageEncoding) -> Self {
        match encoding {
            ProtocolMessageEncoding::Ascii => ViaProtocolEncoder::Ascii(
                ViaAsciiProtocolEncoder { line_length: 0 },
            ),
            ProtocolMessageEncoding::Binary => ViaProtocolEncoder::Binary(ViaBinaryProtocolEncoder),
        }
    }

    open spec fn encoded(&self, message: ViaProtocolMessage) -> Seq<u8> {
        match self {
            ViaProtocolEncoder::Ascii(e) => e.encoded(message),
            ViaProtocolEncoder::Binary(e) => e.encoded(message),
        }
    }

    open spec fn after(&self, message: ViaProtocolMessage) -> Self {
        match self {
            ViaProtocolEncoder::Ascii(e) => ViaProtocolEncoder::Ascii(e.after(message)),
            ViaProtocolEncoder::Binary(e) => ViaProtocolEncoder::Binary(e.after(message)),
        }
    }

    fn for_encoding(encoding: ProtocolMessageEncoding) -> (e: Self) {
        new_encoder(encoding)
    }

    fn encode(&mut self, message: &ViaProtocolMessage, out: &mut Vec<u8>) {
        match self {
            ViaProtocolEncoder::Ascii(e) => e.encode(message, out),
            ViaProtocolEncoder::Binary(e) => e.encode(message, out),
        }
    }
}

/// A decoder of either format.
pub enum ViaProtocolDecoder {
    Ascii(ViaAsciiProtocolDecoder),
    Binary(ViaBinaryProtocolDecoder),
}

/// Creates a decoder for protocol format `encoding`.
pub fn new_decoder(encoding: ProtocolMessageEncoding) -> (d: ViaProtocolDecoder)
    ensures
        d == <ViaProtocolDecoder as ProtocolMessageDecoder<ViaProtocolMessage>>::initial(encoding),
{
    match encoding {
        ProtocolMessageEncoding::Ascii => ViaProtocolDecoder::Ascii(ViaAsciiProtocolDecoder::new()),
        ProtocolMessageEncoding::Binary => ViaProtocolDecoder::Binary(
            ViaBinaryProtocolDecoder::new(),
        ),
    }
}

impl ProtocolMessageDecoder<ViaProtocolMessage> for ViaProtocolDecoder {
    open spec fn wf(&self) -> bool {
        match self {
            ViaProtocolDecoder::Ascii(d) => d.wf(),
            ViaProtocolDecoder::Binary(d) => d.wf(),
        }
    }

    open spec fn initial(encoding: ProtocolMessageEncoding) -> Self {
        match encoding {
            ProtocolMessageEncoding::Ascii => ViaProtocolDecoder::Ascii(
                ViaAsciiProtocolDecoder { state: AsciiDecoderState::Idle },
            ),
            ProtocolMessageEncoding::Binary => ViaProtocolDecoder::Binary(
                ViaBinaryProtocolDecoder { state: BinaryDecoderState::Idle },
            ),
        }
    }

    open spec fn after(&self, b: u8) -> Self {
        match self {
            ViaProtocolDecoder::Ascii(d) => ViaProtocolDecoder::Ascii(d.after(b)),
            ViaProtocolDecoder::Binary(d) => ViaProtocolDecoder::Binary(d.after(b)),
        }
    }

    open spec fn decoded(&self, b: u8) -> Option<ViaProtocolMessage> {
        match self {
            ViaProtocolDecoder::Ascii(d) => d.decoded(b),
            ViaProtocolDecoder::Binary(d) => d.decoded(b),
        }
    }

    fn for_encoding(encoding: ProtocolMessageEncoding) -> (d: Self) {
        new_decoder(encoding)
    }

    fn feed(&mut self, b: u8) -> (message: Option<ViaProtocolMessage>) {
        match self {
            ViaProtocolDecoder::Ascii(d) => d.feed(b),
            ViaProtocolDecoder::Binary(d) => d.feed(b),
        }
    }
}

/// The port that a message speaks of.
pub open spec fn message_port(message: ViaProtocolMessage) -> u8 {
    match message {
        ViaProtocolMessage::PortState { port, .. } => port,
        ViaProtocolMessage::CtrlState { port, .. } => port,
        ViaProtocolMessage::ResetPort { port, .. } => port,
        ViaProtocolMessage::SetPort { port, .. } => port,
        ViaProtocolMessage::ResetCtrl { port, .. } => port,
        ViaProtocolMessage::SetCtrl { port, .. } => port,
    }
}

/// The control field of a message, 0 if it has none.
pub open spec fn message_ctrl(message: ViaProtocolMessage) -> u8 {
    match message {
        ViaProtocolMessage::PortState { .. } => 0,
        ViaProtocolMessage::CtrlState { ctrl_state, .. } => ctrl_state,
        ViaProtocolMessage::ResetPort { ctrl_mask, .. } => ctrl_mask,
        ViaProtocolMessage::SetPort { ctrl_mask, .. } => ctrl_mask,
        ViaProtocolMessage::ResetCtrl { ctrl_mask, .. } => ctrl_mask,
        ViaProtocolMessage::SetCtrl { ctrl_mask, .. } => ctrl_mask,
    }
}

/// Whether a message speaks of a port that exists and of control pins that exist.
pub open spec fn is_proper(message: ViaProtocolMessage) -> bool {
    is_port(message_port(message)) && message_ctrl(message) <= VIA_CTRL_MASK
}

proof fn lemma_message_byte(kind: u8, port: u8, ctrl: u8)
    requires
        kind % 16 == 0,
        kind < 0xf0,
        is_port(port),
    ensures
        message_byte(kind, port, ctrl) / 16 == kind / 16,
        byte_port(message_byte(kind, port, ctrl)) == port,
        message_byte(kind, port, ctrl) % 4 == ctrl % 4,
{
}

proof fn lemma_two_steps(decoder: ViaBinaryProtocolDecoder, bytes: Seq<u8>)
    requires
        bytes.len() == 1 || bytes.len() == 2,
    ensures
        ({
            let s1 = binary_step(decoder.state, bytes[0]);
            let s2 = binary_step(s1.0, bytes[1]);
            let m1 = match s1.1 {
                Some(m) => Seq::empty().push(m),
                None => Seq::empty(),
            };
            let m2 = match s2.1 {
                Some(m) => m1.push(m),
                None => m1,
            };
            &&& crate::protocol::after_bytes::<ViaProtocolMessage, ViaBinaryProtocolDecoder>(
                decoder,
                bytes,
            ).state == if bytes.len() == 1 {
                s1.0
            } else {
                s2.0
            }
            &&& crate::protocol::messages_in::<ViaProtocolMessage, ViaBinaryProtocolDecoder>(
                decoder,
                bytes,
            ) == if bytes.len() == 1 {
                m1
            } else {
                m2
            }
        }),
{
    reveal_with_fuel(crate::protocol::after_bytes, 3);
    reveal_with_fuel(crate::protocol::messages_in, 3);
    let start = bytes.take(1);
    assert(start.drop_last() =~= Seq::<u8>::empty());
    assert(crate::protocol::messages_in::<ViaProtocolMessage, ViaBinaryProtocolDecoder>(
        decoder,
        start.drop_last(),
    ) =~= Seq::empty());
    if bytes.len() == 2 {
        assert(bytes.drop_last() =~= start);
    } else {
        assert(bytes =~= start);
    }
}

/// What one encoded binary message decodes to is that message, and the decoder is idle again.
pub proof fn binary_round_trips(message: ViaProtocolMessage)
    requires
        is_proper(message),
    ensures
        ({
            let decoder = ViaBinaryProtocolDecoder { state: BinaryDecoderState::Idle };
            let bytes = ViaBinaryProtocolEncoder.encoded(message);
            &&& crate::protocol::messages_in::<ViaProtocolMessage, ViaBinaryProtocolDecoder>(
                decoder,
                bytes,
            ) == seq![message]
            &&& crate::protocol::after_bytes::<ViaProtocolMessage, ViaBinaryProtocolDecoder>(
                decoder,
                bytes,
            ) == decoder
        }),
{
    let decoder = ViaBinaryProtocolDecoder { state: BinaryDecoderState::Idle };
    let bytes = ViaBinaryProtocolEncoder.encoded(message);
    let port = message_port(message);
    let ctrl = message_ctrl(message);
    lemma_message_byte(VIA_TYPE_PORT_STATE, port, 0);
    lemma_message_byte(VIA_TYPE_CTRL_STATE, port, ctrl);
    lemma_message_byte(VIA_TYPE_RESET_PORT, port, ctrl);
    lemma_message_byte(VIA_TYPE_SET_PORT, port, ctrl);
    lemma_message_byte(VIA_TYPE_RESET_CTRL, port, ctrl);
    lemma_message_byte(VIA_TYPE_SET_CTRL, port, ctrl);
    lemma_two_steps(decoder, bytes);
    let first = binary_step(decoder.state, bytes[0]);
    assert(Seq::empty().push(message) =~= seq![message]);
    if bytes.len() == 1 {
        assert(first == (BinaryDecoderState::Idle, Some(message)));
    } else {
        assert(first.1 is None);
        assert(binary_step(first.0, bytes[1]) == (BinaryDecoderState::Idle, Some(message)));
    }
}

/// The changes to single control pins that a mask stands for, pin 1 first.
pub open spec fn single_ctrl_messages(set: bool, port: u8, ctrl_mask: u8) -> Seq<
    ViaProtocolMessage,
> {
    (if ctrl1(ctrl_mask) {
        seq![ctrl_message(set, port, VIA_CTRL1_MASK)]
    } else {
        Seq::empty()
    }) + (if ctrl2(ctrl_mask) {
        seq![ctrl_message(set, port, VIA_CTRL2_MASK)]
    } else {
        Seq::empty()
    })
}

/// The change to the data pins alone that a change to a port stands for.
pub open spec fn port_change(set: bool, port: u8, port_mask: u8) -> ViaProtocolMessage {
    if set {
        ViaProtocolMessage::SetPort { port, port_mask, ctrl_mask: 0 }
    } else {
        ViaProtocolMessage::ResetPort { port, port_mask, ctrl_mask: 0 }
    }
}

/// What an ASCII peer makes of a message: the ASCII format has one word for the port and one for
/// each control pin that changes.
pub open spec fn ascii_meaning(message: ViaProtocolMessage) -> Seq<ViaProtocolMessage> {
    match message {
        ViaProtocolMessage::ResetPort { port, port_mask, ctrl_mask } => seq![
            port_change(false, port, port_mask),
        ] + single_ctrl_messages(false, port, ctrl_mask),
        ViaProtocolMessage::SetPort { port, port_mask, ctrl_mask } => seq![
            port_change(true, port, port_mask),
        ] + single_ctrl_messages(true, port, ctrl_mask),
        ViaProtocolMessage::ResetCtrl { port, ctrl_mask } => single_ctrl_messages(
            false,
            port,
            ctrl_mask,
        ),
        ViaProtocolMessage::SetCtrl { port, ctrl_mask } => single_ctrl_messages(
            true,
            port,
            ctrl_mask,
        ),
        _ => seq![message],
    }
}

spec fn idle() -> ViaAsciiProtocolDecoder {
    ViaAsciiProtocolDecoder { state: AsciiDecoderState::Idle }
}

#[verifier::opaque]
spec fn word_means(word: Seq<u8>, message: ViaProtocolMessage) -> bool {
    line::word_means::<ViaProtocolMessage, ViaAsciiProtocolDecoder>(idle(), word, message)
}

proof fn lemma_word_means(word: Seq<u8>, message: ViaProtocolMessage)
    requires
        word.len() == 4 || word.len() == 5,
        ({
            let s1 = ascii_step(AsciiDecoderState::Idle, word[0]);
            let s2 = ascii_step(s1.0, word[1]);
            let s3 = ascii_step(s2.0, word[2]);
            let s4 = ascii_step(s3.0, word[3]);
            let s5 = ascii_step(s4.0, word[4]);
            &&& s1.1 is None
            &&& s2.1 is None
            &&& word.len() == 4 ==> s3.1 == Some(message) && s4 == (
                AsciiDecoderState::Idle,
                None::<ViaProtocolMessage>,
            )
            &&& word.len() == 5 ==> s3.1 is None && s4.1 == Some(message) && s5 == (
                AsciiDecoderState::Idle,
                None::<ViaProtocolMessage>,
            )
        }),
    ensures
        word_means(word, message),
{
    reveal(word_means);
    reveal_with_fuel(crate::protocol::after_bytes, 6);
    reveal_with_fuel(crate::protocol::messages_in, 6);
    assert(crate::protocol::messages_in::<ViaProtocolMessage, ViaAsciiProtocolDecoder>(
        idle(),
        word,
    ) =~= seq![message]);
    line::word_means_anywhere::<ViaProtocolMessage, ViaAsciiProtocolDecoder>(idle(), word, message);
}

proof fn lemma_port_state_word_means(port: u8, port_state: u8)
    requires
        is_port(port),
    ensures
        word_means(
            port_state_word(port, port_state),
            ViaProtocolMessage::PortState { port, port_state },
        ),
{
    lemma_word_means(
        port_state_word(port, port_state),
        ViaProtocolMessage::PortState { port, port_state },
    );
}

proof fn lemma_ctrl_state_word_means(port: u8, ctrl_state: u8)
    requires
        is_port(port),
        ctrl_state <= VIA_CTRL_MASK,
    ensures
        word_means(
            ctrl_state_word(port, ctrl_state),
            ViaProtocolMessage::CtrlState { port, ctrl_state },
        ),
{
    lemma_word_means(
        ctrl_state_word(port, ctrl_state),
        ViaProtocolMessage::CtrlState { port, ctrl_state },
    );
}

proof fn lemma_port_change_word_means(set: bool, port: u8, port_mask: u8)
    requires
        is_port(port),
    ensures
        word_means(port_change_word(set, port, port_mask), port_change(set, port, port_mask)),
{
    lemma_word_means(port_change_word(set, port, port_mask), port_change(set, port, port_mask));
}

proof fn lemma_ctrl_change_words_mean(set: bool, port: u8, ctrl_mask: u8)
    requires
        is_port(port),
    ensures
        ctrl_change_words(set, port, ctrl_mask).len() == single_ctrl_messages(
            set,
            port,
            ctrl_mask,
        ).len(),
        forall|i: int|
            0 <= i < ctrl_change_words(set, port, ctrl_mask).len() ==> word_means(
                #[trigger] ctrl_change_words(set, port, ctrl_mask)[i],
                single_ctrl_messages(set, port, ctrl_mask)[i],
            ),
{
    lemma_word_means(ctrl_change_word(set, port, 0x31), ctrl_message(set, port, VIA_CTRL1_MASK));
    lemma_word_means(ctrl_change_word(set, port, 0x32), ctrl_message(set, port, VIA_CTRL2_MASK));
}

/// An idle ASCII decoder that is fed an encoded message, at whatever place in the line it was
/// encoded, puts out what the message means, and is idle again.
pub proof fn ascii_round_trips(encoder: ViaAsciiProtocolEncoder, message: ViaProtocolMessage)
    requires
        is_proper(message),
    ensures
        ({
            let decoder = ViaAsciiProtocolDecoder { state: AsciiDecoderState::Idle };
            let bytes = encoder.encoded(message);
            &&& crate::protocol::messages_in::<ViaProtocolMessage, ViaAsciiProtocolDecoder>(
                decoder,
                bytes,
            ) == ascii_meaning(message)
            &&& crate::protocol::after_bytes::<ViaProtocolMessage, ViaAsciiProtocolDecoder>(
                decoder,
                bytes,
            ) == decoder
        }),
{
    let words = message_words(message);
    let messages = ascii_meaning(message);
    match message {
        ViaProtocolMessage::PortState { port, port_state } => {
            lemma_port_state_word_means(port, port_state);
        },
        ViaProtocolMessage::CtrlState { port, ctrl_state } => {
            lemma_ctrl_state_word_means(port, ctrl_state);
        },
        ViaProtocolMessage::ResetPort { port, port_mask, ctrl_mask } => {
            lemma_port_change_word_means(false, port, port_mask);
            lemma_ctrl_change_words_mean(false, port, ctrl_mask);
        },
        ViaProtocolMessage::SetPort { port, port_mask, ctrl_mask } => {
            lemma_port_change_word_means(true, port, port_mask);
            lemma_ctrl_change_words_mean(true, port, ctrl_mask);
        },
        ViaProtocolMessage::ResetCtrl { port, ctrl_mask } => {
            lemma_ctrl_change_words_mean(false, port, ctrl_mask);
        },
        ViaProtocolMessage::SetCtrl { port, ctrl_mask } => {
            lemma_ctrl_change_words_mean(true, port, ctrl_mask);
        },
    }
    assert forall|i: int| 0 <= i < words.len() implies word_means(
        #[trigger] words[i],
        messages[i],
    ) by {
        match message {
            ViaProtocolMessage::ResetPort { port, ctrl_mask, .. } => {
                if i > 0 {
                    assert(words[i] == ctrl_change_words(false, port, ctrl_mask)[i - 1]);
                }
            },
            ViaProtocolMessage::SetPort { port, ctrl_mask, .. } => {
                if i > 0 {
                    assert(words[i] == ctrl_change_words(true, port, ctrl_mask)[i - 1]);
                }
            },
            _ => {},
        }
    }
    reveal(word_means);
    line::line_means::<ViaProtocolMessage, ViaAsciiProtocolDecoder>(
        idle(),
        encoder.line_length,
        words,
        messages,
    );
}

/// The ASCII decoder does not distinguish upper case and lower case letters.
pub proof fn ascii_case_does_not_matter(state: AsciiDecoderState, b: u8)
    ensures
        ascii_step(state, crate::protocol::upper(b)) == ascii_step(state, b),
{
}

/// A discarded byte leaves the ASCII decoder as it was, in the middle of a message too.
pub proof fn ascii_discards_leave_no_trace(decoder: ViaAsciiProtocolDecoder, b: u8)
    requires
        ascii_discarded(b),
    ensures
        decoder.after(b) == decoder,
        decoder.decoded(b) is None,
{
}

} // verus!
