use emma65::protocol::via::{ViaAsciiProtocolDecoder, ViaAsciiProtocolEncoder, ViaBinaryProtocolDecoder, ViaBinaryProtocolEncoder, ViaProtocolMessage, VIA_CTRL1_MASK, VIA_CTRL2_MASK, VIA_PORT_MASK, VIA_TYPE_CTRL_STATE, VIA_TYPE_PORT_STATE, VIA_TYPE_RESET_CTRL, VIA_TYPE_RESET_PORT, VIA_TYPE_SET_CTRL, VIA_TYPE_SET_PORT};
use emma65::protocol::{ProtocolMessageDecoder, ProtocolMessageEncoder};

fn ascii_encoder_and_out() -> (ViaAsciiProtocolEncoder, Vec<u8>) {
    (ViaAsciiProtocolEncoder::new(), Vec::new())
}

#[test]
fn encode_ascii_port_a_state() {
    let (mut enc, mut out) = ascii_encoder_and_out();
    enc.encode(
        &ViaProtocolMessage::PortState {
            port: b'A',
            port_state: 0x55,
        },
        &mut out);
    assert_eq!(out, b"A55 ");
}

#[test]
fn encode_ascii_port_b_state() {
    let (mut enc, mut out) = ascii_encoder_and_out();
    enc.encode(
        &ViaProtocolMessage::PortState {
            port: b'B',
            port_state: 0xAA,
        },
        &mut out);
    assert_eq!(out, b"BAA ");
}

#[test]
fn encode_ascii_port_a_ctrl_state() {
    let (mut enc, mut out) = ascii_encoder_and_out();
    enc.encode(
        &ViaProtocolMessage::CtrlState {
            port: b'A',
            ctrl_state: 0xFF,
        },
        &mut out);
    assert_eq!(out, b"CA11 ");
}

#[test]
fn encode_ascii_port_b_ctrl_state() {
    let (mut enc, mut out) = ascii_encoder_and_out();
    enc.encode(
        &ViaProtocolMessage::CtrlState {
            port: b'B',
            ctrl_state: 0xFF,
        },
        &mut out);
    assert_eq!(out, b"CB11 ");
}

#[test]
fn encode_ascii_port_a_reset_without_ctrl_mask() {
    let (mut enc, mut out) = ascii_encoder_and_out();
    enc.encode(
        &ViaProtocolMessage::ResetPort {
            port: b'A',
            port_mask: 0x55,
            ctrl_mask: 0x00,
        },
        &mut out);
    assert_eq!(out, b"RA55 ");
}

#[test]
fn encode_ascii_port_a_reset_with_ctrl_mask() {
    let (mut enc, mut out) = ascii_encoder_and_out();
    enc.encode(
        &ViaProtocolMessage::ResetPort {
            port: b'A',
            port_mask: 0x55,
            ctrl_mask: 0xFF,
        },
        &mut out);
    assert_eq!(out, b"RA55 RCA1 RCA2 ");
}

#[test]
fn encode_ascii_port_b_reset_without_ctrl_mask() {
    let (mut enc, mut out) = ascii_encoder_and_out();
    enc.encode(
        &ViaProtocolMessage::ResetPort {
            port: b'B',
            port_mask: 0xAA,
            ctrl_mask: 0x00,
        },
        &mut out);
    assert_eq!(out, b"RBAA ");
}

#[test]
fn encode_ascii_port_b_reset_with_ctrl_mask() {
    let (mut enc, mut out) = ascii_encoder_and_out();
    enc.encode(
        &ViaProtocolMessage::ResetPort {
            port: b'B',
            port_mask: 0xAA,
            ctrl_mask: 0xFF,
        },
        &mut out);
    assert_eq!(out, b"RBAA RCB1 RCB2 ");
}

#[test]
fn encode_ascii_port_a_set_without_ctrl_mask() {
    let (mut enc, mut out) = ascii_encoder_and_out();
    enc.encode(
        &ViaProtocolMessage::SetPort {
            port: b'A',
            port_mask: 0x55,
            ctrl_mask: 0x00,
        },
        &mut out);
    assert_eq!(out, b"SA55 ");
}

#[test]
fn encode_ascii_port_a_set_with_ctrl_mask() {
    let (mut enc, mut out) = ascii_encoder_and_out();
    enc.encode(
        &ViaProtocolMessage::SetPort {
            port: b'A',
            port_mask: 0x55,
            ctrl_mask: 0xFF,
        },
        &mut out);
    assert_eq!(out, b"SA55 SCA1 SCA2 ");
}

#[test]
fn encode_ascii_port_b_set_without_ctrl_mask() {
    let (mut enc, mut out) = ascii_encoder_and_out();
    enc.encode(
        &ViaProtocolMessage::SetPort {
            port: b'B',
            port_mask: 0xAA,
            ctrl_mask: 0x00,
        },
        &mut out);
    assert_eq!(out, b"SBAA ");
}

#[test]
fn encode_ascii_port_b_set_with_ctrl_mask() {
    let (mut enc, mut out) = ascii_encoder_and_out();
    enc.encode(
        &ViaProtocolMessage::SetPort {
            port: b'B',
            port_mask: 0xAA,
            ctrl_mask: 0xFF,
        },
        &mut out);
    assert_eq!(out, b"SBAA SCB1 SCB2 ");
}

#[test]
fn encode_ascii_port_a_reset_ctrl() {
    let (mut enc, mut out) = ascii_encoder_and_out();
    enc.encode(
        &ViaProtocolMessage::ResetCtrl {
            port: b'A',
            ctrl_mask: 0xFF,
        },
        &mut out);
    assert_eq!(out, b"RCA1 RCA2 ");
}

#[test]
fn encode_ascii_port_b_reset_ctrl() {
    let (mut enc, mut out) = ascii_encoder_and_out();
    enc.encode(
        &ViaProtocolMessage::ResetCtrl {
            port: b'B',
            ctrl_mask: 0xFF,
        },
        &mut out);
    assert_eq!(out, b"RCB1 RCB2 ");
}

#[test]
fn encode_ascii_port_a_set_ctrl() {
    let (mut enc, mut out) = ascii_encoder_and_out();
    enc.encode(
        &ViaProtocolMessage::SetCtrl {
            port: b'A',
            ctrl_mask: 0xFF,
        },
        &mut out);
    assert_eq!(out, b"SCA1 SCA2 ");
}

#[test]
fn encode_ascii_port_b_set_ctrl() {
    let (mut enc, mut out) = ascii_encoder_and_out();
    enc.encode(
        &ViaProtocolMessage::SetCtrl {
            port: b'B',
            ctrl_mask: 0xFF,
        },
        &mut out);
    assert_eq!(out, b"SCB1 SCB2 ");
}

#[test]
fn via_encode_ascii_inserts_newline() {
    let mut encoder = ViaAsciiProtocolEncoder::new();
    let mut out: Vec<u8> = Vec::new();
    let mut expected: String = String::new();
    for _ in 0..(72 / 4) {
        encoder.encode(&ViaProtocolMessage::PortState {
            port: b'A',
            port_state: 0xFF,
        }, &mut out);
        expected.push_str("AFF ");
    }
    assert_eq!(out, expected.as_bytes());
    encoder.encode(&ViaProtocolMessage::PortState {
        port: b'A',
        port_state: 0xFF,
    }, &mut out);
    expected.push_str("\r\nAFF ");
    assert_eq!(out, expected.as_bytes());
}

fn binary_encoder_and_out() -> (ViaBinaryProtocolEncoder, Vec<u8>) {
    (ViaBinaryProtocolEncoder::new(), Vec::new())
}

#[test]
fn encode_binary_port_a_state() {
    let (mut enc, mut out) = binary_encoder_and_out();
    enc.encode(
        &ViaProtocolMessage::PortState {
            port: b'A',
            port_state: 0x55,
        },
        &mut out);
    assert_eq!(out, &[0b10000000, 0b01010101]);
}

#[test]
fn encode_binary_port_b_state() {
    let (mut enc, mut out) = binary_encoder_and_out();
    enc.encode(
        &ViaProtocolMessage::PortState {
            port: b'B',
            port_state: 0xAA,
        },
        &mut out);
    assert_eq!(out, &[0b10000100, 0b10101010]);
}

#[test]
fn encode_binary_port_a_ctrl_state() {
    let (mut enc, mut out) = binary_encoder_and_out();
    enc.encode(
        &ViaProtocolMessage::CtrlState {
            port: b'A',
            ctrl_state: 0x01,
        },
        &mut out);
    assert_eq!(out, &[0b10010001]);
}

#[test]
fn encode_binary_port_b_ctrl_state() {
    let (mut enc, mut out) = binary_encoder_and_out();
    enc.encode(
        &ViaProtocolMessage::CtrlState {
            port: b'B',
            ctrl_state: 0x02,
        },
        &mut out);
    assert_eq!(out, &[0b10010110]);
}

#[test]
fn encode_binary_port_a_reset() {
    let (mut enc, mut out) = binary_encoder_and_out();
    enc.encode(
        &ViaProtocolMessage::ResetPort {
            port: b'A',
            port_mask: 0x55,
            ctrl_mask: 0x01,
        },
        &mut out);
    assert_eq!(out, &[0b10100001, 0b01010101]);
}

#[test]
fn encode_binary_port_b_reset() {
    let (mut enc, mut out) = binary_encoder_and_out();
    enc.encode(
        &ViaProtocolMessage::ResetPort {
            port: b'B',
            port_mask: 0xAA,
            ctrl_mask: 0x02,
        },
        &mut out);
    assert_eq!(out, &[0b10100110, 0b10101010]);
}

#[test]
fn encode_binary_port_a_set() {
    let (mut enc, mut out) = binary_encoder_and_out();
    enc.encode(
        &ViaProtocolMessage::SetPort {
            port: b'A',
            port_mask: 0x55,
            ctrl_mask: 0x01,
        },
        &mut out);
    assert_eq!(out, &[0b10110001, 0b01010101]);
}

#[test]
fn encode_binary_port_b_set() {
    let (mut enc, mut out) = binary_encoder_and_out();
    enc.encode(
        &ViaProtocolMessage::SetPort {
            port: b'B',
            port_mask: 0xAA,
            ctrl_mask: 0x02,
        },
        &mut out);
    assert_eq!(out, &[0b10110110, 0b10101010]);
}

#[test]
fn encode_binary_port_a_ctrl_reset() {
    let (mut enc, mut out) = binary_encoder_and_out();
    enc.encode(
        &ViaProtocolMessage::ResetCtrl {
            port: b'A',
            ctrl_mask: 0x01,
        },
        &mut out);
    assert_eq!(out, &[0b11000001]);
}

#[test]
fn encode_binary_port_b_ctrl_reset() {
    let (mut enc, mut out) = binary_encoder_and_out();
    enc.encode(
        &ViaProtocolMessage::ResetCtrl {
            port: b'B',
            ctrl_mask: 0x02,
        },
        &mut out);
    assert_eq!(out, &[0b11000110]);
}

#[test]
fn encode_binary_port_a_ctrl_set() {
    let (mut enc, mut out) = binary_encoder_and_out();
    enc.encode(
        &ViaProtocolMessage::SetCtrl {
            port: b'A',
            ctrl_mask: 0x01,
        },
        &mut out);
    assert_eq!(out, &[0b11010001]);
}

#[test]
fn encode_binary_port_b_ctrl_set() {
    let (mut enc, mut out) = binary_encoder_and_out();
    enc.encode(
        &ViaProtocolMessage::SetCtrl {
            port: b'B',
            ctrl_mask: 0x02,
        },
        &mut out);
    assert_eq!(out, &[0b11010110]);
}

#[test]
fn decode_ascii_port_a_state() {
    let mut decoder = ViaAsciiProtocolDecoder::new();
    assert!(decoder.feed(b'A').is_none());
    assert!(decoder.feed(b'5').is_none());
    let message = decoder.feed(b'A');
    assert_eq!(message, Some(ViaProtocolMessage::PortState { port: b'A', port_state: 0x5A }));
}

#[test]
fn decode_ascii_port_b_state() {
    let mut decoder = ViaAsciiProtocolDecoder::new();
    assert!(decoder.feed(b'B').is_none());
    assert!(decoder.feed(b'A').is_none());
    let message = decoder.feed(b'5');
    assert_eq!(message, Some(ViaProtocolMessage::PortState { port: b'B', port_state: 0xA5 }));
}

#[test]
fn decode_ascii_port_a_ctrl_state() {
    let mut decoder = ViaAsciiProtocolDecoder::new();
    assert!(decoder.feed(b'C').is_none());
    assert!(decoder.feed(b'A').is_none());
    assert!(decoder.feed(b'0').is_none());
    let message = decoder.feed(b'1');
    assert_eq!(message, Some(ViaProtocolMessage::CtrlState { port: b'A', ctrl_state: VIA_CTRL2_MASK }));
}

#[test]
fn decode_ascii_port_b_ctrl_state() {
    let mut decoder = ViaAsciiProtocolDecoder::new();
    assert!(decoder.feed(b'C').is_none());
    assert!(decoder.feed(b'B').is_none());
    assert!(decoder.feed(b'1').is_none());
    let message = decoder.feed(b'0');
    assert_eq!(message, Some(ViaProtocolMessage::CtrlState { port: b'B', ctrl_state: VIA_CTRL1_MASK }));
}

#[test]
fn decode_ascii_port_a_reset() {
    let mut decoder = ViaAsciiProtocolDecoder::new();
    assert!(decoder.feed(b'R').is_none());
    assert!(decoder.feed(b'A').is_none());
    assert!(decoder.feed(b'5').is_none());
    let message = decoder.feed(b'A');
    assert_eq!(message, Some(ViaProtocolMessage::ResetPort { port: b'A', port_mask: 0x5A, ctrl_mask: 0 }));
}

#[test]
fn decode_ascii_port_b_reset() {
    let mut decoder = ViaAsciiProtocolDecoder::new();
    assert!(decoder.feed(b'R').is_none());
    assert!(decoder.feed(b'B').is_none());
    assert!(decoder.feed(b'A').is_none());
    let message = decoder.feed(b'5');
    assert_eq!(message, Some(ViaProtocolMessage::ResetPort { port: b'B', port_mask: 0xA5, ctrl_mask: 0 }));
}

#[test]
fn decode_ascii_port_a_set() {
    let mut decoder = ViaAsciiProtocolDecoder::new();
    assert!(decoder.feed(b'S').is_none());
    assert!(decoder.feed(b'A').is_none());
    assert!(decoder.feed(b'5').is_none());
    let message = decoder.feed(b'A');
    assert_eq!(message, Some(ViaProtocolMessage::SetPort { port: b'A', port_mask: 0x5A, ctrl_mask: 0 }));
}

#[test]
fn decode_ascii_port_b_set() {
    let mut decoder = ViaAsciiProtocolDecoder::new();
    assert!(decoder.feed(b'S').is_none());
    assert!(decoder.feed(b'B').is_none());
    assert!(decoder.feed(b'A').is_none());
    let message = decoder.feed(b'5');
    assert_eq!(message, Some(ViaProtocolMessage::SetPort { port: b'B', port_mask: 0xA5, ctrl_mask: 0 }));
}

#[test]
fn decode_ascii_port_a_ctrl_reset() {
    let mut decoder = ViaAsciiProtocolDecoder::new();
    assert!(decoder.feed(b'R').is_none());
    assert!(decoder.feed(b'C').is_none());
    assert!(decoder.feed(b'A').is_none());
    let message = decoder.feed(b'1');
    assert_eq!(message, Some(ViaProtocolMessage::ResetCtrl { port: b'A', ctrl_mask: VIA_CTRL1_MASK }));
}

#[test]
fn decode_ascii_port_b_ctrl_reset() {
    let mut decoder = ViaAsciiProtocolDecoder::new();
    assert!(decoder.feed(b'R').is_none());
    assert!(decoder.feed(b'C').is_none());
    assert!(decoder.feed(b'B').is_none());
    let message = decoder.feed(b'2');
    assert_eq!(message, Some(ViaProtocolMessage::ResetCtrl { port: b'B', ctrl_mask: VIA_CTRL2_MASK }));
}

#[test]
fn decode_ascii_port_a_ctrl_set() {
    let mut decoder = ViaAsciiProtocolDecoder::new();
    assert!(decoder.feed(b'S').is_none());
    assert!(decoder.feed(b'C').is_none());
    assert!(decoder.feed(b'A').is_none());
    let message = decoder.feed(b'1');
    assert_eq!(message, Some(ViaProtocolMessage::SetCtrl { port: b'A', ctrl_mask: VIA_CTRL1_MASK }));
}

#[test]
fn decode_ascii_port_b_ctrl_set() {
    let mut decoder = ViaAsciiProtocolDecoder::new();
    assert!(decoder.feed(b'S').is_none());
    assert!(decoder.feed(b'C').is_none());
    assert!(decoder.feed(b'B').is_none());
    let message = decoder.feed(b'2');
    assert_eq!(message, Some(ViaProtocolMessage::SetCtrl { port: b'B', ctrl_mask: VIA_CTRL2_MASK }));
}

#[test]
fn decode_binary_port_a_state() {
    let mut decoder = ViaBinaryProtocolDecoder::new();
    assert!(decoder
        .feed(VIA_TYPE_PORT_STATE).is_none());
    let message = decoder.feed(0x55);
    assert_eq!(message, Some(ViaProtocolMessage::PortState { port: b'A', port_state: 0x55 }));
}

#[test]
fn decode_binary_port_b_state() {
    let mut decoder = ViaBinaryProtocolDecoder::new();
    assert!(decoder
        .feed(VIA_TYPE_PORT_STATE | VIA_PORT_MASK).is_none());
    let message = decoder.feed(0x55);
    assert_eq!(message, Some(ViaProtocolMessage::PortState { port: b'B', port_state: 0x55 }));
}

#[test]
fn decode_binary_port_a_ctrl_state() {
    let mut decoder = ViaBinaryProtocolDecoder::new();
    let message = decoder
        .feed(VIA_TYPE_CTRL_STATE | VIA_CTRL1_MASK | VIA_CTRL2_MASK);
    assert_eq!(message, Some(ViaProtocolMessage::CtrlState {
        port: b'A', ctrl_state: VIA_CTRL1_MASK | VIA_CTRL2_MASK}));
}

#[test]
fn decode_binary_port_b_ctrl_state() {
    let mut decoder = ViaBinaryProtocolDecoder::new();
    let message = decoder
        .feed(VIA_TYPE_CTRL_STATE | VIA_PORT_MASK | VIA_CTRL2_MASK);
    assert_eq!(message, Some(ViaProtocolMessage::CtrlState {
        port: b'B', ctrl_state: VIA_CTRL2_MASK}));
}

#[test]
fn decode_binary_port_a_reset() {
    let mut decoder = ViaBinaryProtocolDecoder::new();
    assert!(decoder
        .feed(VIA_TYPE_RESET_PORT | VIA_CTRL1_MASK | VIA_CTRL2_MASK).is_none());
    let message = decoder.feed(0x55);
    assert_eq!(message, Some(ViaProtocolMessage::ResetPort {
        port: b'A', port_mask: 0x55, ctrl_mask: VIA_CTRL1_MASK | VIA_CTRL2_MASK}));
}

#[test]
fn decode_binary_port_b_reset() {
    let mut decoder = ViaBinaryProtocolDecoder::new();
    assert!(decoder
        .feed(VIA_TYPE_RESET_PORT | VIA_PORT_MASK | VIA_CTRL1_MASK).is_none());
    let message = decoder.feed(0x55);
    assert_eq!(message, Some(ViaProtocolMessage::ResetPort {
        port: b'B', port_mask: 0x55, ctrl_mask: VIA_CTRL1_MASK}));
}

#[test]
fn decode_binary_port_a_set() {
    let mut decoder = ViaBinaryProtocolDecoder::new();
    assert!(decoder
        .feed(VIA_TYPE_SET_PORT | VIA_CTRL1_MASK | VIA_CTRL2_MASK).is_none());
    let message = decoder.feed(0xAA);
    assert_eq!(message, Some(ViaProtocolMessage::SetPort {
        port: b'A', port_mask: 0xAA, ctrl_mask: VIA_CTRL1_MASK | VIA_CTRL2_MASK}));
}

#[test]
fn decode_binary_port_b_set() {
    let mut decoder = ViaBinaryProtocolDecoder::new();
    assert!(decoder
        .feed(VIA_TYPE_SET_PORT | VIA_PORT_MASK | VIA_CTRL2_MASK).is_none());
    let message = decoder.feed(0xAA);
    assert_eq!(message, Some(ViaProtocolMessage::SetPort {
        port: b'B', port_mask: 0xAA, ctrl_mask: VIA_CTRL2_MASK}));
}

#[test]
fn decode_binary_port_a_ctrl_reset() {
    let mut decoder = ViaBinaryProtocolDecoder::new();
    let message = decoder
        .feed(VIA_TYPE_RESET_CTRL | VIA_CTRL1_MASK | VIA_CTRL2_MASK);
    assert_eq!(message, Some(ViaProtocolMessage::ResetCtrl {
        port: b'A', ctrl_mask: VIA_CTRL1_MASK | VIA_CTRL2_MASK}));
}

#[test]
fn decode_binary_port_b_ctrl_reset() {
    let mut decoder = ViaBinaryProtocolDecoder::new();
    let message = decoder
        .feed(VIA_TYPE_RESET_CTRL | VIA_PORT_MASK | VIA_CTRL2_MASK);
    assert_eq!(message, Some(ViaProtocolMessage::ResetCtrl {
        port: b'B', ctrl_mask: VIA_CTRL2_MASK}));
}

#[test]
fn decode_binary_port_a_ctrl_set() {
    let mut decoder = ViaBinaryProtocolDecoder::new();
    let message = decoder
        .feed(VIA_TYPE_SET_CTRL | VIA_CTRL1_MASK | VIA_CTRL2_MASK);
    assert_eq!(message, Some(ViaProtocolMessage::SetCtrl {
        port: b'A', ctrl_mask: VIA_CTRL1_MASK | VIA_CTRL2_MASK}));
}

#[test]
fn decode_binary_port_b_ctrl_set() {
    let mut decoder = ViaBinaryProtocolDecoder::new();
    let message = decoder
        .feed(VIA_TYPE_SET_CTRL | VIA_PORT_MASK | VIA_CTRL2_MASK);
    assert_eq!(message, Some(ViaProtocolMessage::SetCtrl {
        port: b'B', ctrl_mask: VIA_CTRL2_MASK}));
}
