//! The peripheral protocols on the wire, byte by byte.

use super::line;
use super::ptm;
use super::ptm::{
    PtmAsciiProtocolDecoder, PtmAsciiProtocolEncoder, PtmBinaryProtocolDecoder,
    PtmBinaryProtocolEncoder, PtmProtocolMessage, Signals,
};
use super::via::{
    ctrl_change_word, ctrl_change_words, ctrl_state_word, hex_digit, hex_value, port_change_word,
    port_state_word, AsciiDecoderState, BinaryDecoderState, ViaAsciiProtocolDecoder, ViaAsciiProtocolEncoder,
    ViaBinaryProtocolDecoder, ViaBinaryProtocolEncoder, ViaProtocolMessage,
};
use super::{ProtocolMessageDecoder, ProtocolMessageEncoder, ProtocolMessageEncoding};
use crate::bytes::bits_by_division;
use vstd::prelude::*;

verus! {

/// The sixteen hexadecimal digits in order, upper case.
pub open spec fn hex_digits() -> Seq<u8> {
    seq![
        0x30u8, 0x31, 0x32, 0x33, 0x34, 0x35, 0x36, 0x37, 0x38, 0x39, 0x41, 0x42, 0x43, 0x44, 0x45,
        0x46,
    ]
}

/// Hexadecimal digits stand for their places in the order of digits, in either case; no other byte is
/// a digit.
pub proof fn hexadecimal_digits(n: int, b: u8)
    requires
        0 <= n < 16,
    ensures
        hex_digit(n) == hex_digits()[n],
        hex_value(hex_digits()[n]) == Some(n as u8),
        n >= 10 ==> hex_value((hex_digits()[n] + 0x20) as u8) == Some(n as u8),
        hex_value(b) matches Some(v) ==> v < 16 && (b == hex_digits()[v as int] || b
            == hex_digits()[v as int] + 0x20 && v >= 10),
        hex_value(b) is None ==> b < 0x30 || 0x39 < b < 0x41 || 0x46 < b < 0x61 || 0x66 < b,
{
}

/// A word goes on the current line, unless 72 or more bytes are on it: then a carriage return and a
/// line feed come first, and the word starts a new line.
pub proof fn lines_are_ended(length: u8, word: Seq<u8>)
    requires
        length < 77,
        word.len() <= 5,
    ensures
        length < 72 ==> line::word_bytes(length, word) == word && line::word_length(length, word)
            == length + word.len(),
        length >= 72 ==> line::word_bytes(length, word).len() == word.len() + 2 && line::word_bytes(
            length,
            word,
        )[0] == 0x0D && line::word_bytes(length, word)[1] == 0x0A && line::word_bytes(
            length,
            word,
        ).skip(2) == word && line::word_length(length, word) == word.len(),
{
    if length >= 72 {
        assert(line::word_bytes(length, word).skip(2) =~= word);
    }
}

proof fn lemma_one_word(length: u8, word: Seq<u8>)
    requires
        length < 72,
    ensures
        line::line_bytes(length, seq![word]) == word,
{
    assert(seq![word].drop_last() =~= Seq::empty());
    assert(line::line_bytes(length, seq![word].drop_last()) =~= Seq::empty());
    assert(line::line_length(length, seq![word].drop_last()) == length);
    assert(line::line_bytes(length, seq![word]) =~= word);
}

/// A PTM state message is its letter, `T` for clocks, `U` for gates or `V` for outputs, the levels of
/// timers 1, 2 and 3, and a space.
pub proof fn ptm_ascii_states(e: PtmAsciiProtocolEncoder, levels: [bool; 3])
    requires
        e.line_length < 72,
    ensures
        ({
            let one = if levels[0] { 0x31u8 } else { 0x30 };
            let two = if levels[1] { 0x31u8 } else { 0x30 };
            let three = if levels[2] { 0x31u8 } else { 0x30 };
            &&& e.encoded(PtmProtocolMessage::ClockState { clocks: levels }) == seq![
                0x54u8, one, two, three, 0x20,
            ]
            &&& e.encoded(PtmProtocolMessage::GateState { gates: levels }) == seq![
                0x55u8, one, two, three, 0x20,
            ]
            &&& e.encoded(PtmProtocolMessage::OutputState { outputs: levels }) == seq![
                0x56u8, one, two, three, 0x20,
            ]
        }),
{
    lemma_one_word(e.line_length, ptm::state_word(0x54, levels));
    lemma_one_word(e.line_length, ptm::state_word(0x55, levels));
    lemma_one_word(e.line_length, ptm::state_word(0x56, levels));
}

/// The PTM edge message of a single timer is its letter, `C` for a clock or `G` for a gate, the number
/// of the timer from 1 on, the polarity, and a space.
pub proof fn ptm_ascii_edges(e: PtmAsciiProtocolEncoder, timer: int, edges: [bool; 3], positive: bool)
    requires
        e.line_length < 72,
        1 <= timer <= 3,
        edges[0] == (timer == 1),
        edges[1] == (timer == 2),
        edges[2] == (timer == 3),
    ensures
        ({
            let polarity = if positive { 0x31u8 } else { 0x30 };
            &&& e.encoded(PtmProtocolMessage::ClockEdge { clocks: edges, positive }) == seq![
                0x43u8, (0x30 + timer) as u8, polarity, 0x20,
            ]
            &&& e.encoded(PtmProtocolMessage::GateEdge { gates: edges, positive }) == seq![
                0x47u8, (0x30 + timer) as u8, polarity, 0x20,
            ]
        }),
{
    reveal_with_fuel(ptm::edge_words, 4);
    let clock = ptm::edge_word(0x43, timer - 1, positive);
    let gate = ptm::edge_word(0x47, timer - 1, positive);
    assert(ptm::edge_words(0x43, edges, positive, 3) =~= seq![clock]);
    assert(ptm::edge_words(0x47, edges, positive, 3) =~= seq![gate]);
    lemma_one_word(e.line_length, clock);
    lemma_one_word(e.line_length, gate);
}

/// How the ASCII decoder of the PTM goes through a message: a letter of either case starts it, an edge
/// goes on with a timer from 1 to 3 and a state with levels; any other byte but a blank starts over.
pub proof fn ptm_ascii_decoding(d: PtmAsciiProtocolDecoder, b: u8)
    requires
        b > 0x20,
    ensures
        ({
            let next = d.after(b).state;
            &&& d.state == ptm::AsciiDecoderState::Idle ==> {
                &&& b == 0x43 || b == 0x63 ==> next == (ptm::AsciiDecoderState::EdgeTimer {
                    gate: false,
                })
                &&& b == 0x47 || b == 0x67 ==> next == (ptm::AsciiDecoderState::EdgeTimer {
                    gate: true,
                })
                &&& b == 0x54 || b == 0x74 ==> next == (ptm::AsciiDecoderState::StateT1 {
                    of: Signals::Clocks,
                })
                &&& b == 0x55 || b == 0x75 ==> next == (ptm::AsciiDecoderState::StateT1 {
                    of: Signals::Gates,
                })
                &&& b == 0x56 || b == 0x76 ==> next == (ptm::AsciiDecoderState::StateT1 {
                    of: Signals::Outputs,
                })
                &&& next != ptm::AsciiDecoderState::Idle ==> b == 0x43 || b == 0x63 || b == 0x47 || b
                    == 0x67 || 0x54 <= b <= 0x56 || 0x74 <= b <= 0x76
            }
            &&& d.state matches ptm::AsciiDecoderState::EdgeTimer { gate } ==> {
                &&& 0x31 <= b <= 0x33 ==> next == (ptm::AsciiDecoderState::EdgePolarity {
                    gate,
                    timer: (b - 0x30) as u8,
                })
                &&& b < 0x31 || b > 0x33 ==> next == ptm::AsciiDecoderState::Idle
            }
            &&& d.state matches ptm::AsciiDecoderState::StateT1 { of } ==> {
                &&& b == 0x30 || b == 0x31 ==> next == (ptm::AsciiDecoderState::StateT2 {
                    of,
                    t1: b == 0x31,
                })
                &&& b != 0x30 && b != 0x31 ==> next == ptm::AsciiDecoderState::Idle
            }
            &&& d.state matches ptm::AsciiDecoderState::StateT2 { of, t1 } ==> {
                &&& b == 0x30 || b == 0x31 ==> next == (ptm::AsciiDecoderState::StateT3 {
                    of,
                    t1,
                    t2: b == 0x31,
                })
                &&& b != 0x30 && b != 0x31 ==> next == ptm::AsciiDecoderState::Idle
            }
            &&& d.state is EdgePolarity || d.state is StateT3 ==> next
                == ptm::AsciiDecoderState::Idle && (d.decoded(b) is Some <==> b == 0x30 || b == 0x31)
        }),
{
}

/// A binary PTM message is one byte: the kind in its high half, the polarity of an edge in bit 3, and
/// timers 1, 2 and 3 in bits 0, 1 and 2.
pub proof fn ptm_binary_bytes(b: u8)
    ensures
        ({
            let message = PtmBinaryProtocolDecoder.decoded(b);
            let one = b & 0x01 != 0;
            let two = b & 0x02 != 0;
            let three = b & 0x04 != 0;
            let positive = b & 0x08 != 0;
            &&& 0x80 <= b < 0x90 ==> (message matches Some(
                PtmProtocolMessage::ClockEdge { clocks, positive: p },
            ) && clocks[0] == one && clocks[1] == two && clocks[2] == three && p == positive)
            &&& 0x90 <= b < 0xA0 ==> (message matches Some(
                PtmProtocolMessage::GateEdge { gates, positive: p },
            ) && gates[0] == one && gates[1] == two && gates[2] == three && p == positive)
            &&& 0xA0 <= b < 0xB0 ==> (message matches Some(
                PtmProtocolMessage::ClockState { clocks },
            ) && clocks[0] == one && clocks[1] == two && clocks[2] == three)
            &&& 0xB0 <= b < 0xC0 ==> (message matches Some(
                PtmProtocolMessage::GateState { gates },
            ) && gates[0] == one && gates[1] == two && gates[2] == three)
            &&& 0xC0 <= b < 0xD0 ==> (message matches Some(
                PtmProtocolMessage::OutputState { outputs },
            ) && outputs[0] == one && outputs[1] == two && outputs[2] == three)
            &&& b < 0x80 || b >= 0xD0 ==> message is None
        }),
{
    bits_by_division(b);
}

/// A PTM message is sent as the one byte that stands for it; bit 3 of a state message is clear.
pub proof fn ptm_binary_encodings(s: [bool; 3], positive: bool)
    ensures
        ({
            let bits = (if s[0] { 1int } else { 0 }) + (if s[1] { 2int } else { 0 }) + (if s[2] {
                4int
            } else {
                0
            });
            let sign = if positive { 8int } else { 0 };
            let e = PtmBinaryProtocolEncoder;
            &&& e.encoded(PtmProtocolMessage::ClockEdge { clocks: s, positive }) == seq![
                (0x80 + sign + bits) as u8,
            ]
            &&& e.encoded(PtmProtocolMessage::GateEdge { gates: s, positive }) == seq![
                (0x90 + sign + bits) as u8,
            ]
            &&& e.encoded(PtmProtocolMessage::ClockState { clocks: s }) == seq![(0xA0 + bits) as u8]
            &&& e.encoded(PtmProtocolMessage::GateState { gates: s }) == seq![(0xB0 + bits) as u8]
            &&& e.encoded(PtmProtocolMessage::OutputState { outputs: s }) == seq![
                (0xC0 + bits) as u8,
            ]
        }),
{
}

/// The VIA messages with one word: a port's state is the port's letter and two hexadecimal digits, the
/// state of its control pins is `C`, the port's letter and the levels of pins 1 and 2; a space
/// follows each.
pub proof fn via_ascii_states(e: ViaAsciiProtocolEncoder, port: u8, state: u8)
    requires
        e.line_length < 72,
    ensures
        e.encoded(ViaProtocolMessage::PortState { port, port_state: state }) == seq![
            port,
            hex_digits()[state as int / 16],
            hex_digits()[state as int % 16],
            0x20u8,
        ],
        e.encoded(ViaProtocolMessage::CtrlState { port, ctrl_state: state }) == seq![
            0x43u8,
            port,
            if state & 0x02 != 0 { 0x31u8 } else { 0x30 },
            if state & 0x01 != 0 { 0x31u8 } else { 0x30 },
            0x20u8,
        ],
{
    bits_by_division(state);
    lemma_one_word(e.line_length, port_state_word(port, state));
    lemma_one_word(e.line_length, ctrl_state_word(port, state));
    hexadecimal_digits(state as int / 16, 0);
    hexadecimal_digits(state as int % 16, 0);
}

/// A change to a VIA port is `S` to set or `R` to reset, the port's letter and two hexadecimal digits;
/// a change to a control pin is `SC` or `RC`, the port's letter and the pin's number.
pub proof fn via_ascii_changes(e: ViaAsciiProtocolEncoder, port: u8, mask: u8)
    requires
        e.line_length < 72,
    ensures
        e.encoded(ViaProtocolMessage::SetPort { port, port_mask: mask, ctrl_mask: 0 }) == seq![
            0x53u8,
            port,
            hex_digits()[mask as int / 16],
            hex_digits()[mask as int % 16],
            0x20u8,
        ],
        e.encoded(ViaProtocolMessage::ResetPort { port, port_mask: mask, ctrl_mask: 0 }) == seq![
            0x52u8,
            port,
            hex_digits()[mask as int / 16],
            hex_digits()[mask as int % 16],
            0x20u8,
        ],
        e.encoded(ViaProtocolMessage::SetCtrl { port, ctrl_mask: 2 }) == seq![
            0x53u8, 0x43, port, 0x31, 0x20,
        ],
        e.encoded(ViaProtocolMessage::SetCtrl { port, ctrl_mask: 1 }) == seq![
            0x53u8, 0x43, port, 0x32, 0x20,
        ],
        e.encoded(ViaProtocolMessage::ResetCtrl { port, ctrl_mask: 2 }) == seq![
            0x52u8, 0x43, port, 0x31, 0x20,
        ],
        e.encoded(ViaProtocolMessage::ResetCtrl { port, ctrl_mask: 1 }) == seq![
            0x52u8, 0x43, port, 0x32, 0x20,
        ],
{
    hexadecimal_digits(mask as int / 16, 0);
    hexadecimal_digits(mask as int % 16, 0);
    let set = port_change_word(true, port, mask);
    let reset = port_change_word(false, port, mask);
    assert(seq![set] + ctrl_change_words(true, port, 0) =~= seq![set]);
    assert(seq![reset] + ctrl_change_words(false, port, 0) =~= seq![reset]);
    lemma_one_word(e.line_length, set);
    lemma_one_word(e.line_length, reset);
    assert(ctrl_change_words(true, port, 2) =~= seq![ctrl_change_word(true, port, 0x31)]);
    assert(ctrl_change_words(true, port, 1) =~= seq![ctrl_change_word(true, port, 0x32)]);
    assert(ctrl_change_words(false, port, 2) =~= seq![
        ctrl_change_word(false, port, 0x31),
    ]);
    assert(ctrl_change_words(false, port, 1) =~= seq![
        ctrl_change_word(false, port, 0x32),
    ]);
    lemma_one_word(e.line_length, ctrl_change_word(true, port, 0x31));
    lemma_one_word(e.line_length, ctrl_change_word(true, port, 0x32));
    lemma_one_word(e.line_length, ctrl_change_word(false, port, 0x31));
    lemma_one_word(e.line_length, ctrl_change_word(false, port, 0x32));
}

/// Only a hexadecimal digit completes a message in the VIA's ASCII protocol, and the message says what
/// the digit says: it is the low digit of a port's bits, the level of pin 2, or the number of a pin,
/// of which pin 1 has bit 1 and pin 2 bit 0. The decoder then starts over.
pub proof fn via_ascii_messages_end_with_digit(d: ViaAsciiProtocolDecoder, b: u8)
    requires
        d.wf(),
    ensures
        d.decoded(b) matches Some(message) ==> d.after(b).state == AsciiDecoderState::Idle && (
        match message {
            ViaProtocolMessage::PortState { port_state, .. } => hex_value(b) == Some(
                (port_state as int % 16) as u8,
            ),
            ViaProtocolMessage::SetPort { port_mask, ctrl_mask, .. } => hex_value(b) == Some(
                (port_mask as int % 16) as u8,
            ) && ctrl_mask == 0,
            ViaProtocolMessage::ResetPort { port_mask, ctrl_mask, .. } => hex_value(b) == Some(
                (port_mask as int % 16) as u8,
            ) && ctrl_mask == 0,
            ViaProtocolMessage::CtrlState { ctrl_state, .. } => ctrl_state < 4 && b == 0x30
                + ctrl_state as int % 2,
            ViaProtocolMessage::SetCtrl { ctrl_mask, .. } => b == 0x31 && ctrl_mask == 2 || b == 0x32
                && ctrl_mask == 1,
            ViaProtocolMessage::ResetCtrl { ctrl_mask, .. } => b == 0x31 && ctrl_mask == 2 || b
                == 0x32 && ctrl_mask == 1,
        }),
{
}

/// A binary VIA message starts with a byte that has its kind in the high half, the port in bit 2 and
/// control pins in bits 1 and 0; a message on a port's bits has them in a second byte.
pub proof fn via_binary_bytes(port: u8, bits: u8, ctrl: u8)
    requires
        ctrl < 4,
    ensures
        ({
            let select = if port == 0x42 { 4int } else { 0 };
            let e = ViaBinaryProtocolEncoder;
            &&& e.encoded(ViaProtocolMessage::PortState { port, port_state: bits }) == seq![
                (0x80 + select) as u8,
                bits,
            ]
            &&& e.encoded(ViaProtocolMessage::CtrlState { port, ctrl_state: ctrl }) == seq![
                (0x90 + select + ctrl) as u8,
            ]
            &&& e.encoded(
                ViaProtocolMessage::ResetPort { port, port_mask: bits, ctrl_mask: ctrl },
            ) == seq![(0xA0 + select + ctrl) as u8, bits]
            &&& e.encoded(ViaProtocolMessage::SetPort { port, port_mask: bits, ctrl_mask: ctrl })
                == seq![(0xB0 + select + ctrl) as u8, bits]
            &&& e.encoded(ViaProtocolMessage::ResetCtrl { port, ctrl_mask: ctrl }) == seq![
                (0xC0 + select + ctrl) as u8,
            ]
            &&& e.encoded(ViaProtocolMessage::SetCtrl { port, ctrl_mask: ctrl }) == seq![
                (0xD0 + select + ctrl) as u8,
            ]
        }),
{
}

/// What a first byte of a binary VIA message makes of an idle decoder: a message on control pins is
/// complete at once, one on a port's bits awaits them, and any other byte is ignored.
pub proof fn via_binary_first_byte(b: u8, bits: u8)
    ensures
        ({
            let idle = ViaBinaryProtocolDecoder { state: BinaryDecoderState::Idle };
            let port = if b & 0x04 != 0 { 0x42u8 } else { 0x41 };
            let ctrl = (b % 4) as u8;
            &&& b < 0x80 || b >= 0xE0 ==> idle.decoded(b) is None && idle.after(b) == idle
            &&& 0x90 <= b < 0xA0 ==> idle.decoded(b) == Some(
                ViaProtocolMessage::CtrlState { port, ctrl_state: ctrl },
            ) && idle.after(b) == idle
            &&& 0xC0 <= b < 0xD0 ==> idle.decoded(b) == Some(
                ViaProtocolMessage::ResetCtrl { port, ctrl_mask: ctrl },
            ) && idle.after(b) == idle
            &&& 0xD0 <= b < 0xE0 ==> idle.decoded(b) == Some(
                ViaProtocolMessage::SetCtrl { port, ctrl_mask: ctrl },
            ) && idle.after(b) == idle
            &&& 0x80 <= b < 0x90 ==> idle.decoded(b) is None && idle.after(b).decoded(bits) == Some(
                ViaProtocolMessage::PortState { port, port_state: bits },
            )
            &&& 0xA0 <= b < 0xB0 ==> idle.decoded(b) is None && idle.after(b).decoded(bits) == Some(
                ViaProtocolMessage::ResetPort { port, port_mask: bits, ctrl_mask: ctrl },
            )
            &&& 0xB0 <= b < 0xC0 ==> idle.decoded(b) is None && idle.after(b).decoded(bits) == Some(
                ViaProtocolMessage::SetPort { port, port_mask: bits, ctrl_mask: ctrl },
            )
            &&& (0x80 <= b < 0x90 || 0xA0 <= b < 0xC0) ==> idle.after(b).after(bits) == idle
        }),
{
    bits_by_division(b);
}

/// The case of its letters does not matter to the name of an encoding.
pub proof fn encoding_names_ignore_case(a: Seq<char>, b: Seq<char>)
    requires
        a.len() == b.len(),
        forall|i: int|
            0 <= i < a.len() ==> #[trigger] a[i] == b[i] || ('A' <= a[i] <= 'Z' && b[i] == ((
            a[i] as int) + 32) as char),
    ensures
        ProtocolMessageEncoding::named(a) == ProtocolMessageEncoding::named(b),
{
    let f = |c: char| super::ascii_lower(c);
    assert(a.map_values(f) =~= b.map_values(f));
}

} // verus!
