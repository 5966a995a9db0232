use emma65::transport::{TransportError, TransportPort};
use emma65::transport_manager::{
    TransportManager, TransportMessageDecoder, TransportMessageEncoder, TransportMessageEncoding,
};

/// Encodes a byte as itself, behind a marker that tells the encoding.
struct ByteEncoder {
    binary: bool,
}

impl TransportMessageEncoder<u8> for ByteEncoder {
    fn select_binary(&mut self) {
        self.binary = true;
    }

    fn encoding(&self) -> TransportMessageEncoding {
        if self.binary {
            TransportMessageEncoding::Binary
        } else {
            TransportMessageEncoding::Ascii
        }
    }

    fn encode(&mut self, message: &u8, out: &mut Vec<u8>) {
        out.push(if self.binary { b'b' } else { b'a' });
        out.push(*message);
    }

    fn reset(&mut self) {
        self.binary = false;
    }
}

/// Takes the encoding from its first byte; every later byte is a message, but for zero.
struct ByteDecoder {
    encoding: Option<TransportMessageEncoding>,
}

impl TransportMessageDecoder<u8> for ByteDecoder {
    fn encoding(&self) -> Option<TransportMessageEncoding> {
        self.encoding
    }

    fn feed(&mut self, b: u8) -> Option<u8> {
        if self.encoding.is_none() {
            self.encoding = Some(if b >= 0x80 {
                TransportMessageEncoding::Binary
            } else {
                TransportMessageEncoding::Ascii
            });
            None
        } else if b != 0 {
            Some(b)
        } else {
            None
        }
    }

    fn reset(&mut self) {
        self.encoding = None;
    }
}

fn manager(ports: usize) -> TransportManager<u8, ByteEncoder, ByteDecoder> {
    let mut manager = TransportManager::new();
    for _ in 0..ports {
        manager.attach_transport(
            TransportPort::new(1),
            ByteEncoder { binary: false },
            ByteDecoder { encoding: None },
        );
    }
    manager
}

fn arrive(
    manager: &mut TransportManager<u8, ByteEncoder, ByteDecoder>,
    slot: usize,
    bytes: &[u8],
) {
    manager.slots[slot].transport.inbound.extend(bytes.iter().copied());
}

fn sent(manager: &TransportManager<u8, ByteEncoder, ByteDecoder>, slot: usize) -> Vec<u8> {
    manager.slots[slot].transport.outbound.clone()
}

#[test]
fn nothing_is_sent_before_the_handshake() {
    let mut manager = manager(2);
    arrive(&mut manager, 1, &[0x41]);
    assert_eq!(manager.send_to_all(&5), Ok(()));
    assert_eq!(sent(&manager, 0), vec![]);
    assert_eq!(sent(&manager, 1), vec![]);
}

#[test]
fn the_first_byte_selects_the_encoding_and_is_answered_with_the_state() {
    let mut manager = manager(2);
    arrive(&mut manager, 0, &[0x41]);
    arrive(&mut manager, 1, &[0x80]);
    assert_eq!(manager.poll_transports(&[1, 2]), Ok(None));
    assert_eq!(sent(&manager, 0), vec![b'a', 1, b'a', 2]);
    assert_eq!(sent(&manager, 1), vec![b'b', 1, b'b', 2]);
    assert_eq!(manager.send_all_to_all(&[3]), Ok(()));
    assert_eq!(sent(&manager, 0), vec![b'a', 1, b'a', 2, b'a', 3]);
    assert_eq!(sent(&manager, 1), vec![b'b', 1, b'b', 2, b'b', 3]);
}

#[test]
fn a_poll_returns_the_first_message() {
    let mut manager = manager(2);
    arrive(&mut manager, 0, &[0x41, 0]);
    arrive(&mut manager, 1, &[0x41, 7, 8]);
    assert_eq!(manager.poll_transports(&[]), Ok(Some(7)));
    assert_eq!(manager.poll_transports(&[]), Ok(Some(8)));
    assert_eq!(manager.poll_transports(&[]), Ok(None));
}

#[test]
fn a_new_peer_starts_over() {
    let mut manager = manager(1);
    arrive(&mut manager, 0, &[0x80]);
    assert_eq!(manager.poll_transports(&[1]), Ok(None));
    manager.slots[0].transport.connection_id = 2;
    arrive(&mut manager, 0, &[0x41, 9]);
    assert_eq!(manager.poll_transports(&[1]), Ok(Some(9)));
    assert_eq!(sent(&manager, 0), vec![b'b', 1, b'a', 1]);
}

#[test]
fn a_faulty_transport_fails_the_send() {
    let mut manager = manager(1);
    arrive(&mut manager, 0, &[0x41]);
    manager.slots[0].transport.fault = Some(TransportError::Io(4));
    assert_eq!(manager.poll_transports(&[]), Ok(None));
    assert_eq!(manager.send_to_all(&1), Err(TransportError::Io(4)));
    assert_eq!(manager.send_all_to_all(&[]), Ok(()));
}

#[test]
fn a_send_that_fails_midway_stops_there() {
    let mut manager = manager(3);
    for slot in 0..3 {
        arrive(&mut manager, slot, &[0x41]);
    }
    assert_eq!(manager.poll_transports(&[]), Ok(None));
    manager.slots[1].transport.fault = Some(TransportError::Disconnected);
    manager.slots[1].transport.grace = 3;
    assert_eq!(manager.send_all_to_all(&[5, 6, 7]), Err(TransportError::Disconnected));
    assert_eq!(sent(&manager, 0), vec![b'a', 5, b'a', 6]);
    assert_eq!(sent(&manager, 1), vec![b'a', 5, b'a']);
    assert_eq!(sent(&manager, 2), vec![b'a', 5]);
}
