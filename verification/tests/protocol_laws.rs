//! What holds of the peripheral protocols, on concrete values.

use emma65::device::IoDevice;
use emma65::mc6840::Mc6840;
use emma65::protocol::manager::ProtocolManager as RelayManager;
use emma65::protocol::ptm::{
    PtmAsciiProtocolDecoder, PtmAsciiProtocolEncoder, PtmBinaryProtocolDecoder,
    PtmBinaryProtocolEncoder, PtmProtocolMessage,
};
use emma65::protocol::via::{
    ViaAsciiProtocolDecoder, ViaAsciiProtocolEncoder, ViaBinaryProtocolDecoder,
    ViaBinaryProtocolEncoder, ViaProtocolMessage,
};
use emma65::protocol::{
    ProtocolMessageDecoder, ProtocolMessageEncoder, ProtocolMessageEncoding,
};
use emma65::protocol_manager::ProtocolManager;
use emma65::transport::{TransportError, TransportEvent, TransportPort};

#[test]
fn encodings_have_names() {
    assert_eq!(ProtocolMessageEncoding::Ascii.to_string(), "ASCII");
    assert_eq!(ProtocolMessageEncoding::Binary.to_string(), "Binary");
    assert_eq!(ProtocolMessageEncoding::from_str("aScIi"), Ok(ProtocolMessageEncoding::Ascii));
    assert_eq!(
        ProtocolMessageEncoding::try_from("BINARY".to_string()),
        Ok(ProtocolMessageEncoding::Binary)
    );
    assert_eq!(
        ProtocolMessageEncoding::from_str("Morse"),
        Err("Invalid transport message encoding 'Morse'; try 'ASCII' or 'Binary'".to_string())
    );
}

fn ptm_messages() -> Vec<PtmProtocolMessage> {
    vec![
        PtmProtocolMessage::ClockState { clocks: [true, false, true] },
        PtmProtocolMessage::GateState { gates: [false, true, false] },
        PtmProtocolMessage::OutputState { outputs: [true, true, false] },
    ]
}

#[test]
fn ptm_messages_round_trip() {
    for message in ptm_messages() {
        let mut bytes = vec![];
        PtmBinaryProtocolEncoder::new().encode(&message, &mut bytes);
        let mut decoder = PtmBinaryProtocolDecoder::new();
        let decoded: Vec<_> = bytes.iter().filter_map(|&b| decoder.feed(b)).collect();
        assert_eq!(decoded, vec![message]);

        let mut bytes = vec![];
        PtmAsciiProtocolEncoder::new().encode(&message, &mut bytes);
        let mut decoder = PtmAsciiProtocolDecoder::new();
        let decoded: Vec<_> = bytes.iter().filter_map(|&b| decoder.feed(b)).collect();
        assert_eq!(decoded, vec![message]);

        let mut decoder = PtmAsciiProtocolDecoder::new();
        let decoded: Vec<_> =
            bytes.iter().filter_map(|&b| decoder.feed(b.to_ascii_lowercase())).collect();
        assert_eq!(decoded, vec![message]);
    }
}

#[test]
fn ptm_lines_are_wrapped() {
    let mut encoder = PtmAsciiProtocolEncoder::new();
    let mut bytes = vec![];
    for _ in 0..20 {
        encoder.encode(
            &PtmProtocolMessage::ClockState { clocks: [true, true, true] },
            &mut bytes,
        );
    }
    let text = String::from_utf8(bytes).unwrap();
    let lengths: Vec<usize> = text.lines().map(|line| line.len()).collect();
    assert_eq!(lengths, vec![75, 25]);
    let mut decoder = PtmAsciiProtocolDecoder::new();
    assert_eq!(text.bytes().filter_map(|b| decoder.feed(b)).count(), 20);
}

fn via_messages() -> Vec<ViaProtocolMessage> {
    vec![
        ViaProtocolMessage::PortState { port: b'A', port_state: 0x5A },
        ViaProtocolMessage::PortState { port: b'B', port_state: 0xFF },
    ]
}

#[test]
fn via_messages_round_trip() {
    for message in via_messages() {
        let mut bytes = vec![];
        ViaBinaryProtocolEncoder::new().encode(&message, &mut bytes);
        let mut decoder = ViaBinaryProtocolDecoder::new();
        let decoded: Vec<_> = bytes.iter().filter_map(|&b| decoder.feed(b)).collect();
        assert_eq!(decoded, vec![message]);

        let mut bytes = vec![];
        ViaAsciiProtocolEncoder::new().encode(&message, &mut bytes);
        let mut decoder = ViaAsciiProtocolDecoder::new();
        let decoded: Vec<_> =
            bytes.iter().filter_map(|&b| decoder.feed(b.to_ascii_lowercase())).collect();
        assert_eq!(decoded, vec![message]);
    }
}

#[test]
fn mc6840_talks_to_its_peripherals() {
    let mut device = Mc6840::new("ptm");
    let mut port = TransportPort::new(0);
    port.inbound.push_back(TransportEvent::Connected(1));
    port.inbound.push_back(TransportEvent::Connected(2));
    // One client raises a gate, the other drops a clock; their letters are interleaved.
    for (a, b) in "G11 ".bytes().zip("C20 ".bytes()) {
        port.inbound.push_back(TransportEvent::Data(1, a));
        port.inbound.push_back(TransportEvent::Data(2, b));
    }
    device.attach_transport(port);
    device.tick(0);
    assert!(device.timers[0].gate_level);
    assert!(!device.timers[1].clock_level);
    let sent = device.protocol_manager.as_ref().unwrap().transport.outbound.clone();
    assert_eq!(
        String::from_utf8(sent).unwrap(),
        "T111 U000 V000 T111 U000 V000 T101 U100 "
    );
}

#[test]
fn mc6840_tells_a_lone_peripheral_of_outputs_only() {
    let mut device = Mc6840::new("ptm");
    let mut port = TransportPort::new(0);
    port.inbound.push_back(TransportEvent::Connected(1));
    for b in "G11 C20 ".bytes() {
        port.inbound.push_back(TransportEvent::Data(1, b));
    }
    device.attach_transport(port);
    device.tick(0);
    assert!(device.timers[0].gate_level);
    assert!(!device.timers[1].clock_level);
    device.timers[2].output_enabled = true;
    device.timers[2].output_state = false;
    device.timers[2].triggered = true;
    device.timers[2].counter = 0;
    device.tick(1);
    assert!(device.timers[2].output_state);
    let port = &mut device.protocol_manager.as_mut().unwrap().transport;
    assert_eq!(String::from_utf8(port.outbound.clone()).unwrap(), "T111 U000 V000 V001 ");
    // A second peripheral is told what the first one does.
    port.outbound.clear();
    port.inbound.push_back(TransportEvent::Connected(2));
    for b in "G10 ".bytes() {
        port.inbound.push_back(TransportEvent::Data(1, b));
    }
    device.tick(0);
    let sent = device.protocol_manager.as_ref().unwrap().transport.outbound.clone();
    assert_eq!(String::from_utf8(sent).unwrap(), "T101 U100 V001 U000 ");
}

#[test]
fn mc6840_continuous_timer_has_a_period() {
    for (latch, period) in [(2u32, 3u32), (1, 2), (0, 65537)] {
        let mut device = Mc6840::new("ptm");
        device.write(1, 0x01);
        device.write(0, 0xC0);
        device.write(2, (latch / 256) as u8);
        device.write(3, (latch % 256) as u8);
        device.tick(period - 1);
        assert!(!device.irq_active());
        assert!(!device.timers[0].output_state);
        device.tick(1);
        assert!(device.irq_active());
        assert!(device.timers[0].output_state);
        device.tick(period - 1);
        assert!(device.timers[0].output_state);
        device.tick(1);
        assert!(!device.timers[0].output_state);
    }
}

#[test]
fn mc6840_counts_down_and_interrupts() {
    let mut device = Mc6840::new("ptm");
    device.write(1, 0x40 | 0x01);
    device.write(0, 0x40);
    device.write(2, 0x00);
    device.write(3, 0x02);
    assert_eq!(device.peek(2), 0);
    assert_eq!(device.peek(3), 2);
    device.tick(2);
    assert!(!device.irq_active());
    device.tick(1);
    assert_eq!(device.read(1), 0x81);
    assert_eq!(device.read(2), 0);
    assert_eq!(device.read(3), 2);
    assert!(!device.irq_active(), "reading the counter withdraws the interrupt that was shown");
}

#[test]
fn manager_reports_the_transport_error() {
    let mut port = TransportPort::new(0);
    port.fault = Some(TransportError::Io(9));
    port.inbound.push_back(TransportEvent::Connected(1));
    port.inbound.push_back(TransportEvent::Connected(2));
    let mut manager: ProtocolManager<
        PtmProtocolMessage,
        PtmBinaryProtocolEncoder,
        PtmBinaryProtocolDecoder,
    > = ProtocolManager::new(ProtocolMessageEncoding::Binary, port);
    let state = [PtmProtocolMessage::ClockState { clocks: [false; 3] }];
    assert_eq!(manager.poll_transport(&state), Err(TransportError::Io(9)));
    assert_eq!(manager.transport.inbound.len(), 1);
    assert_eq!(manager.send_to_all(&state[0]), Err(TransportError::Io(9)));
    assert_eq!(manager.send_all_to_all(&[]), Ok(()));
}

#[test]
fn manager_sends_up_to_the_byte_that_fails() {
    let mut port = TransportPort::new(0);
    port.fault = Some(TransportError::Io(9));
    port.grace = 7;
    let mut manager: ProtocolManager<
        PtmProtocolMessage,
        PtmAsciiProtocolEncoder,
        PtmAsciiProtocolDecoder,
    > = ProtocolManager::new(ProtocolMessageEncoding::Ascii, port);
    let messages = ptm_messages();
    assert_eq!(manager.send_all_to_all(&messages[..1]), Ok(()));
    assert_eq!(manager.transport.outbound, b"T101 ");
    assert_eq!(manager.transport.grace, 2);
    assert_eq!(manager.send_all_to_all(&messages[1..]), Err(TransportError::Io(9)));
    assert_eq!(manager.transport.outbound, b"T101 U0");
    assert_eq!(manager.transport.grace, 0);
    manager.transport.fault = None;
    assert_eq!(manager.send_to_all(&messages[2]), Ok(()));
    assert_eq!(manager.transport.outbound, b"T101 U0V110 ");
}

#[test]
fn interrupted_dump_ends_the_poll() {
    let mut port = TransportPort::new(0);
    port.fault = Some(TransportError::Disconnected);
    port.grace = 6;
    port.inbound.push_back(TransportEvent::Connected(1));
    port.inbound.push_back(TransportEvent::Connected(2));
    let mut manager: ProtocolManager<
        PtmProtocolMessage,
        PtmAsciiProtocolEncoder,
        PtmAsciiProtocolDecoder,
    > = ProtocolManager::new(ProtocolMessageEncoding::Ascii, port);
    assert_eq!(manager.poll_transport(&ptm_messages()), Err(TransportError::Disconnected));
    assert_eq!(manager.transport.outbound, b"T101 U");
    assert_eq!(manager.slots.len(), 1);
    assert_eq!(manager.transport.inbound.len(), 1);
}

#[test]
fn clients_are_those_that_have_not_disconnected() {
    let mut manager: RelayManager<
        PtmProtocolMessage,
        PtmAsciiProtocolEncoder,
        PtmAsciiProtocolDecoder,
    > = RelayManager::new(ProtocolMessageEncoding::Ascii, TransportPort::new(0));
    let mut step = |events: &[TransportEvent]| {
        manager.transport.inbound.extend(events.iter().copied());
        manager.poll_transport(&[]);
        manager.has_clients()
    };
    assert!(!step(&[]));
    assert!(step(&[TransportEvent::Connected(1), TransportEvent::Connected(2)]));
    assert!(step(&[TransportEvent::Disconnected(1), TransportEvent::Data(2, b'T')]));
    assert!(step(&[TransportEvent::Connected(2), TransportEvent::Disconnected(3)]));
    assert!(!step(&[TransportEvent::Disconnected(2)]));
    assert!(step(&[TransportEvent::Disconnected(1), TransportEvent::Connected(1)]));
    assert!(!step(&[TransportEvent::Disconnected(1)]));
}

#[test]
fn only_a_level_digit_completes_an_ascii_ptm_message() {
    for start in ["", "c", "C1", "g3", "T", "U1", "V01"] {
        for b in 0..=255u8 {
            let mut decoder = PtmAsciiProtocolDecoder::new();
            for s in start.bytes() {
                assert_eq!(decoder.feed(s), None);
            }
            let positive = b == b'1';
            let level = b == b'0' || b == b'1';
            let expected = match start {
                "C1" if level => {
                    Some(PtmProtocolMessage::ClockEdge { clocks: [true, false, false], positive })
                }
                "g3" if level => {
                    Some(PtmProtocolMessage::GateEdge { gates: [false, false, true], positive })
                }
                "V01" if level => {
                    Some(PtmProtocolMessage::OutputState { outputs: [false, true, positive] })
                }
                _ => None,
            };
            assert_eq!(decoder.feed(b), expected, "{start} {b}");
        }
    }
}

#[test]
fn mc6840_prescaler_divides_by_eight() {
    let mut device = Mc6840::new("ptm");
    device.write(0, 0x01);
    device.write(6, 0x00);
    device.write(7, 0x05);
    device.tick(7);
    assert_eq!(device.peek(7), 5);
    device.tick(1);
    assert_eq!(device.peek(7), 4);
    device.tick(16);
    assert_eq!(device.peek(7), 2);
}
