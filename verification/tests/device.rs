use emma65::device::{
    device_event_channel, log_device_event, DeviceEvent, DeviceId, ErrorReceiver, IoDevice,
};
use emma65::logging::{LogCategory, LogLevel, LogSender};
use emma65::transport::TransportError;

#[test]
fn send_events_receive_from_other_thread() {
    let (sender, mut receiver) = device_event_channel();
    let id = DeviceId(1);

    sender.send(DeviceEvent::TransportConnected { device: id, peer: None }).unwrap();
    sender.send(DeviceEvent::DeviceInfo { device: id, message: "hello".to_string() }).unwrap();

    let ev1 = receiver.try_recv().unwrap();
    assert!(matches!(ev1, DeviceEvent::TransportConnected { .. }));
    let ev2 = receiver.try_recv().unwrap();
    assert!(matches!(ev2, DeviceEvent::DeviceInfo { .. }));
}

#[test]
fn log_device_event_reports_transport_error_at_error_level() {
    let mut sender = LogSender::with_capacity(4);
    let device = DeviceId(0xc000);

    log_device_event(
        &mut sender,
        &DeviceEvent::TransportError { device, error: TransportError::Disconnected },
    );

    let received = &sender.records[0];
    assert_eq!(received.level, LogLevel::Error);
    assert_eq!(received.category, LogCategory::Transport);
    assert_eq!(received.message, format!("{} transport error: disconnected", device.to_string()));
    assert_eq!(received.message, "@c000 transport error: disconnected");
}

#[test]
fn log_device_event_reports_connected_with_and_without_peer() {
    let mut sender = LogSender::with_capacity(4);
    let device = DeviceId(0xc000);

    log_device_event(
        &mut sender,
        &DeviceEvent::TransportConnected { device, peer: Some("client-1".to_string()) },
    );
    log_device_event(&mut sender, &DeviceEvent::TransportConnected { device, peer: None });

    assert_eq!(sender.records[0].message, format!("{} connected: client-1", device.to_string()));
    assert_eq!(sender.records[1].message, format!("{} connected", device.to_string()));
}

/// Logs every event that `receiver` holds, as a host does.
fn log_pending(receiver: &mut ErrorReceiver, sender: &mut LogSender) {
    while let Ok(event) = receiver.try_recv() {
        log_device_event(sender, &event);
    }
}

#[test]
fn log_device_events_drains_until_every_sender_is_dropped() {
    let (event_tx, mut event_rx) = device_event_channel();
    let mut log = LogSender::with_capacity(4);
    let device = DeviceId(1);

    event_tx.send(DeviceEvent::DeviceInfo { device, message: "hello".to_string() }).unwrap();
    drop(event_tx);

    log_pending(&mut event_rx, &mut log);

    assert_eq!(log.records[0].message, format!("{}: hello", device.to_string()));
    assert_eq!(log.records.len(), 1);
}

#[test]
fn every_event_has_its_text_and_severity() {
    let device = DeviceId(0x12345);
    let events = [
        (
            DeviceEvent::TransportDisconnected {
                device,
                peer: Some("client-1".to_string()),
                reason: "closed".to_string(),
            },
            LogLevel::Warn,
            "@12345 disconnected: closed (client-1)",
        ),
        (
            DeviceEvent::TransportDisconnected {
                device,
                peer: None,
                reason: "closed".to_string(),
            },
            LogLevel::Warn,
            "@12345 disconnected: closed",
        ),
        (
            DeviceEvent::TransportError { device, error: TransportError::Io(32) },
            LogLevel::Error,
            "@12345 transport error: os error 32",
        ),
        (
            DeviceEvent::DeviceInfo { device, message: "ready".to_string() },
            LogLevel::Info,
            "@12345: ready",
        ),
        (
            DeviceEvent::RejectedWrite { device, address: 0xc0 },
            LogLevel::Warn,
            "@12345 rejected write at 0x00c0",
        ),
        (
            DeviceEvent::OutboundBytesDropped { device, count: 1024 },
            LogLevel::Warn,
            "@12345 dropped 1024 outbound bytes",
        ),
        (
            DeviceEvent::InboundEventsDropped { device, count: 0 },
            LogLevel::Warn,
            "@12345 dropped 0 inbound events",
        ),
    ];
    let mut log = LogSender::with_capacity(10);
    for (event, _, _) in &events {
        log_device_event(&mut log, event);
    }
    for (i, (_, level, text)) in events.iter().enumerate() {
        assert_eq!(log.records[i].level, *level);
        assert_eq!(log.records[i].message, *text);
    }
}

#[test]
fn a_full_log_drops_records() {
    let device = DeviceId(1);
    let mut log = LogSender::with_capacity(1);
    for message in ["first", "second"] {
        log_device_event(
            &mut log,
            &DeviceEvent::DeviceInfo { device, message: message.to_string() },
        );
    }
    assert_eq!(log.records.len(), 1);
    assert_eq!(log.records[0].message, "@0001: first");
}

/// A byte of memory.
struct Cell(u8);

impl IoDevice for Cell {
    fn read(&mut self, _address: u16) -> u8 {
        self.0
    }

    fn write(&mut self, _address: u16, value: u8) {
        self.0 = value;
    }

    fn peek(&self, _address: u16) -> u8 {
        self.0
    }

    fn identity_address(&self) -> u16 {
        0x12
    }
}

#[test]
fn a_device_has_defaults() {
    let mut device = Cell(1);
    device.patch(0, 5);
    device.tick(1000);
    device.reset();
    device.shutdown();
    assert_eq!(device.read(0), 5);
    assert!(device.claims(0xFFFF));
    assert!(!device.irq_active());
    assert!(!device.take_nmi());
    assert!(!device.take_reset());
    assert_eq!(device.name(), "unknown");
    assert_eq!(device.identity(), "unknown@0x0012");
}
