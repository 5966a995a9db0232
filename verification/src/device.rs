//! Device identification, device events, and the trait of the devices on the bus.

use crate::logging::{LogCategory, LogLevel, LogRecord, LogRecordView, LogSender};
use crate::text::{append_digits, append_hex4};
use crate::transport::TransportError;
use vstd::prelude::*;

verus! {

/// tokio's sending half of an unbounded channel.
#[verifier::external_type_specification]
#[verifier::external_body]
#[verifier::reject_recursive_types(T)]
pub struct ExUnboundedSender<T>(tokio::sync::mpsc::UnboundedSender<T>);

/// tokio's receiving half of an unbounded channel.
#[verifier::external_type_specification]
#[verifier::external_body]
#[verifier::reject_recursive_types(T)]
pub struct ExUnboundedReceiver<T>(tokio::sync::mpsc::UnboundedReceiver<T>);

/// Sending half of a device event channel. Devices hold one to report asynchronous transport
/// events to the host.
pub type ErrorSender = tokio::sync::mpsc::UnboundedSender<DeviceEvent>;

/// Receiving half of a device event channel, held by the host.
pub type ErrorReceiver = tokio::sync::mpsc::UnboundedReceiver<DeviceEvent>;

/// tokio's `unbounded_channel`. The two halves are opaque, so nothing is claimed of them.
pub assume_specification<T>[ tokio::sync::mpsc::unbounded_channel::<T> ]() -> (
    tokio::sync::mpsc::UnboundedSender<T>,
    tokio::sync::mpsc::UnboundedReceiver<T>,
);

/// Creates a device event channel: the two halves that one call of tokio's `unbounded_channel`
/// returned. Each device gets a clone of the sending half; the host reads the receiving half.
pub fn device_event_channel() -> (pair: (ErrorSender, ErrorReceiver))
    ensures
        call_ensures(tokio::sync::mpsc::unbounded_channel::<DeviceEvent>, (), pair),
{
    tokio::sync::mpsc::unbounded_channel()
}

/// Uniquely identifies a device registered on the bus.
#[derive(Debug, Clone, Copy, PartialEq, Eq, Hash, Structural)]
pub struct DeviceId(pub u32);

impl DeviceId {
    /// The identifier as text: an at sign and the number in hexadecimal, at least four digits.
    pub open spec fn text(self) -> Seq<char> {
        seq!['@'] + crate::text::hex4(self.0 as nat)
    }

    /// The identifier as text, such as `@c000`.
    pub fn to_string(&self) -> (s: String)
        ensures
            s@ == self.text(),
    {
        proof {
            reveal_strlit("@");
        }
        let mut s = String::from_str("@");
        append_hex4(&mut s, self.0);
        assert(s@ =~= self.text());
        s
    }
}

/// Asynchronous event emitted by a device to notify the host of transport state changes.
#[derive(Debug)]
pub enum DeviceEvent {
    /// A transport connection was established for the given device.
    TransportConnected {
        device: DeviceId,
        /// Identifies the peer, for transports that accept more than one client at a time.
        peer: Option<String>,
    },
    /// A transport connection was lost.
    TransportDisconnected {
        device: DeviceId,
        /// Identifies the peer, for transports that accept more than one client at a time.
        peer: Option<String>,
        /// Human-readable reason for the disconnection.
        reason: String,
    },
    /// A transport error occurred during I/O.
    TransportError { device: DeviceId, error: TransportError },
    /// An informational message from the device.
    DeviceInfo { device: DeviceId, message: String },
    /// An attempted write to a read-only register or location was turned down.
    RejectedWrite { device: DeviceId, address: u16 },
    /// Outbound bytes dropped since the last report because the outbound ring was full.
    OutboundBytesDropped { device: DeviceId, count: u64 },
    /// Inbound events dropped since the last report because the ingress channel was full.
    InboundEventsDropped { device: DeviceId, count: u64 },
}

impl TransportError {
    /// What an error says of itself.
    pub open spec fn text(self) -> Seq<char> {
        match self {
            TransportError::Disconnected => "disconnected"@,
            TransportError::Io(code) => "os error "@ + crate::text::digits(code as nat, 10),
        }
    }

    /// What the error says of itself.
    pub fn to_string(&self) -> (s: String)
        ensures
            s@ == self.text(),
    {
        match self {
            TransportError::Disconnected => String::from_str("disconnected"),
            TransportError::Io(code) => {
                let mut s = String::from_str("os error ");
                append_digits(&mut s, *code as u64, 10);
                s
            },
        }
    }
}

/// The severity at which an event is logged.
pub open spec fn event_level(event: DeviceEvent) -> LogLevel {
    match event {
        DeviceEvent::TransportConnected { .. } => LogLevel::Info,
        DeviceEvent::TransportDisconnected { .. } => LogLevel::Warn,
        DeviceEvent::TransportError { .. } => LogLevel::Error,
        DeviceEvent::DeviceInfo { .. } => LogLevel::Info,
        DeviceEvent::RejectedWrite { .. } => LogLevel::Warn,
        DeviceEvent::OutboundBytesDropped { .. } => LogLevel::Warn,
        DeviceEvent::InboundEventsDropped { .. } => LogLevel::Warn,
    }
}

/// What is logged of an event.
pub open spec fn event_text(event: DeviceEvent) -> Seq<char> {
    match event {
        DeviceEvent::TransportConnected { device, peer } => match peer {
            Some(peer) => device.text() + " connected: "@ + peer@,
            None => device.text() + " connected"@,
        },
        DeviceEvent::TransportDisconnected { device, peer, reason } => match peer {
            Some(peer) => device.text() + " disconnected: "@ + reason@ + " ("@ + peer@ + ")"@,
            None => device.text() + " disconnected: "@ + reason@,
        },
        DeviceEvent::TransportError { device, error } => device.text() + " transport error: "@
            + error.text(),
        DeviceEvent::DeviceInfo { device, message } => device.text() + ": "@ + message@,
        DeviceEvent::RejectedWrite { device, address } => device.text() + " rejected write at 0x"@
            + crate::text::hex4(address as nat),
        DeviceEvent::OutboundBytesDropped { device, count } => device.text() + " dropped "@
            + crate::text::digits(count as nat, 10) + " outbound bytes"@,
        DeviceEvent::InboundEventsDropped { device, count } => device.text() + " dropped "@
            + crate::text::digits(count as nat, 10) + " inbound events"@,
    }
}

/// The log record of an event.
pub open spec fn event_record(event: DeviceEvent) -> LogRecordView {
    LogRecordView {
        level: event_level(event),
        category: LogCategory::Transport,
        message: event_text(event),
    }
}

/// Makes the log record of `event`: its text, at a severity appropriate to its kind.
pub fn device_event_record(event: &DeviceEvent) -> (record: LogRecord)
    ensures
        record@ == event_record(*event),
{
    let (level, message) = match event {
        DeviceEvent::TransportConnected { device, peer } => {
            let mut s = device.to_string();
            match peer {
                Some(peer) => {
                    s.append(" connected: ");
                    s.append(peer.as_str());
                },
                None => {
                    s.append(" connected");
                },
            }
            (LogLevel::Info, s)
        },
        DeviceEvent::TransportDisconnected { device, peer, reason } => {
            let mut s = device.to_string();
            s.append(" disconnected: ");
            s.append(reason.as_str());
            if let Some(peer) = peer {
                s.append(" (");
                s.append(peer.as_str());
                s.append(")");
            }
            (LogLevel::Warn, s)
        },
        DeviceEvent::TransportError { device, error } => {
            let mut s = device.to_string();
            s.append(" transport error: ");
            s.append(error.to_string().as_str());
            (LogLevel::Error, s)
        },
        DeviceEvent::DeviceInfo { device, message } => {
            let mut s = device.to_string();
            s.append(": ");
            s.append(message.as_str());
            (LogLevel::Info, s)
        },
        DeviceEvent::RejectedWrite { device, address } => {
            let mut s = device.to_string();
            s.append(" rejected write at 0x");
            append_hex4(&mut s, *address as u32);
            (LogLevel::Warn, s)
        },
        DeviceEvent::OutboundBytesDropped { device, count } => {
            let mut s = device.to_string();
            s.append(" dropped ");
            append_digits(&mut s, *count, 10);
            s.append(" outbound bytes");
            (LogLevel::Warn, s)
        },
        DeviceEvent::InboundEventsDropped { device, count } => {
            let mut s = device.to_string();
            s.append(" dropped ");
            append_digits(&mut s, *count, 10);
            s.append(" inbound events");
            (LogLevel::Warn, s)
        },
    };
    LogRecord { level, category: LogCategory::Transport, message }
}

/// Logs `event` through `sender` under `LogCategory::Transport`, at a severity appropriate to its
/// kind.
pub fn log_device_event(sender: &mut LogSender, event: &DeviceEvent)
    ensures
        final(sender).capacity == old(sender).capacity,
        final(sender)@ == crate::logging::after_log(
            old(sender)@,
            old(sender).capacity as nat,
            event_record(*event),
        ),
{
    sender.log(device_event_record(event));
}

/// A device's name and bus address, as diagnostics give them.
pub open spec fn identity_text(name: Seq<char>, address: u16) -> Seq<char> {
    name + "@0x"@ + crate::text::hex4(address as nat)
}

/// The log record of a device's reset.
pub open spec fn reset_record(name: Seq<char>, address: u16) -> LogRecordView {
    LogRecordView {
        level: LogLevel::Info,
        category: LogCategory::Device,
        message: identity_text(name, address) + " reset"@,
    }
}

/// Makes a device's identity from its name and bus address.
pub fn make_identity(name: &str, address: u16) -> (s: String)
    ensures
        s@ == identity_text(name@, address),
{
    let mut s = String::from_str(name);
    s.append("@0x");
    append_hex4(&mut s, address as u32);
    s
}

/// Logs the reset of a device.
pub fn log_reset(sender: &mut LogSender, name: &str, address: u16)
    ensures
        final(sender).capacity == old(sender).capacity,
        final(sender)@ == crate::logging::after_log(
            old(sender)@,
            old(sender).capacity as nat,
            reset_record(name@, address),
        ),
{
    let mut message = make_identity(name, address);
    message.append(" reset");
    sender.log(LogRecord { level: LogLevel::Info, category: LogCategory::Device, message });
}

/// The line with which a host logs the reset of a device.
pub open spec fn reset_line_text(name: Seq<char>, place: Seq<char>) -> Seq<char> {
    name + " @"@ + place + " reset"@
}

/// Makes the line with which a host logs the reset of a device, with `value` in hexadecimal.
pub fn make_reset_line(name: &str, value: u16) -> (s: String)
    ensures
        s@ == reset_line_text(name@, "0x"@ + crate::text::hex4(value as nat)),
{
    let mut s = String::from_str(name);
    s.append(" @");
    s.append("0x");
    append_hex4(&mut s, value as u32);
    s.append(" reset");
    assert(s@ =~= reset_line_text(name@, "0x"@ + crate::text::hex4(value as nat)));
    s
}

/// A device that can be mapped into the bus address space.
///
/// The spec functions say where and when a device can be used and what a write does to it, and a
/// verified device defines them. By default a device can be used everywhere and always, and a write
/// may do anything to it, so that a device can also be written in ordinary Rust.
pub trait IoDevice: Send + Sized {
    /// What holds of every device in use.
    open spec fn wf(&self) -> bool {
        true
    }

    /// The bus addresses at which the device can be accessed.
    open spec fn mapped_at(&self, address: u16) -> bool {
        true
    }

    /// The bus addresses at which the device can be written, which by default are those at which it
    /// can be accessed.
    open spec fn writable_at(&self, address: u16) -> bool {
        self.mapped_at(address)
    }

    /// Whether the device can take this many clock cycles at once.
    open spec fn can_tick(&self, cycles: u32) -> bool {
        true
    }

    /// Whether a write of `value` at `address` may turn the device `before` into the device `after`.
    open spec fn written(before: Self, after: Self, address: u16, value: u8) -> bool {
        true
    }

    /// Reads a byte at the absolute bus address `address`, with side effects.
    fn read(&mut self, address: u16) -> (value: u8)
        requires
            old(self).wf(),
            old(self).mapped_at(address),
        ensures
            final(self).wf(),
    ;

    /// Writes `value` at the absolute bus address `address`.
    fn write(&mut self, address: u16, value: u8)
        requires
            old(self).wf(),
            old(self).writable_at(address),
        ensures
            final(self).wf(),
            Self::written(*old(self), *final(self), address, value),
    ;

    /// Reads a byte at the absolute bus address `address`, without side effects.
    fn peek(&self, address: u16) -> (value: u8)
        requires
            self.wf(),
            self.mapped_at(address),
    ;

    /// Writes a `value` at the absolute bus address `address`, bypassing read-only restrictions at
    /// the target device. By default a device has none, and a patch is a write.
    fn patch(&mut self, address: u16, value: u8)
        requires
            old(self).wf(),
            old(self).writable_at(address),
        ensures
            final(self).wf(),
        default_ensures
            Self::written(*old(self), *final(self), address, value),
    {
        self.write(address, value);
    }

    /// Returns `true` if this device currently responds to `addr`, the absolute bus address.
    /// Consulted before dispatching; declining causes the bus to fall through to the next
    /// most-specific region containing `addr`, or to the unmapped-address policy if none remain.
    /// By default a device always claims.
    fn claims(&self, addr: u16) -> (claimed: bool)
        requires
            self.wf(),
        default_ensures
            claimed,
    {
        true
    }

    /// Advances device state by `cycles` clock cycles. Called after each CPU instruction.
    fn tick(&mut self, cycles: u32)
        requires
            old(self).wf(),
            old(self).can_tick(cycles),
        ensures
            final(self).wf(),
        default_ensures
            *final(self) == *old(self),
    {
    }

    /// Resets the state of the device in a manner comparable to a hardware reset.
    fn reset(&mut self)
        requires
            old(self).wf(),
        ensures
            final(self).wf(),
        default_ensures
            *final(self) == *old(self),
    {
    }

    /// Returns `true` if this device is currently asserting an IRQ.
    fn irq_active(&self) -> (active: bool)
        requires
            self.wf(),
        default_ensures
            !active,
    {
        false
    }

    /// Consumes a pending NMI edge event from this device, returning `true` if one was pending.
    /// By default a device has no NMI capability.
    fn take_nmi(&mut self) -> (pending: bool)
        requires
            old(self).wf(),
        ensures
            final(self).wf(),
        default_ensures
            !pending,
            *final(self) == *old(self),
    {
        false
    }

    /// Consumes a pending device-initiated CPU RESET request, returning `true` if one was pending.
    /// By default a device has no reset capability.
    fn take_reset(&mut self) -> (pending: bool)
        requires
            old(self).wf(),
        ensures
            final(self).wf(),
        default_ensures
            !pending,
            *final(self) == *old(self),
    {
        false
    }

    /// Returns a human-readable name for this device, used in diagnostics and tracing.
    /// By default a device is called `unknown`.
    fn name(&self) -> (name: &str)
        default_ensures
            name@ == "unknown"@,
    {
        "unknown"
    }

    /// Returns the bus address that identifies this device in diagnostics.
    fn identity_address(&self) -> (address: u16);

    /// Returns the name and the address of this device, such as `console@0xf000`.
    fn identity(&self) -> (text: String)
        ensures
            exists|name: &str, address: u16|
                #![auto]
                call_ensures(Self::name, (self,), name) && call_ensures(
                    Self::identity_address,
                    (self,),
                    address,
                ) && text@ == identity_text(name@, address),
    {
        let name = self.name();
        let address: u16 = self.identity_address();
        make_identity(name, address)
    }

    /// Signals any transport owned by this device to begin shutdown.
    /// By default a device has no transport.
    fn shutdown(&mut self)
        requires
            old(self).wf(),
        ensures
            final(self).wf(),
        default_ensures
            *final(self) == *old(self),
    {
    }
}

/// Errors are logged as errors, what was lost or turned down as warnings, and the rest for
/// information; all of it as the transport's.
pub proof fn severities(event: DeviceEvent)
    ensures
        event_record(event).category == LogCategory::Transport,
        event_record(event).message == event_text(event),
        event is TransportError <==> event_record(event).level == LogLevel::Error,
        event is TransportConnected || event is DeviceInfo <==> event_record(event).level
            == LogLevel::Info,
        event is TransportDisconnected || event is RejectedWrite || event is OutboundBytesDropped
            || event is InboundEventsDropped <==> event_record(event).level == LogLevel::Warn,
{
}

} // verus!
