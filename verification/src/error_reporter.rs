//! Reports events of a device to the host.

use crate::device::{DeviceEvent, DeviceId, ErrorSender};
use crate::transport::TransportError;
use vstd::prelude::*;

verus! {

/// Reports the events of one device. `sent` is every event that was handed to the channel so far, in
/// order; only [`ErrorReporter::send`] adds to it.
pub struct ErrorReporter {
    error_sender: ErrorSender,
    device_id: DeviceId,
    sent: Ghost<Seq<DeviceEvent>>,
}

/// A reporter, seen through the channel that it reports to, the device that it speaks for and the
/// events that it has handed to the channel.
#[verifier::ext_equal]
pub ghost struct ReporterView {
    pub target: ErrorSender,
    pub device_id: DeviceId,
    pub sent: Seq<DeviceEvent>,
}

impl View for ErrorReporter {
    type V = ReporterView;

    closed spec fn view(&self) -> ReporterView {
        ReporterView {
            target: self.error_sender,
            device_id: self.device_id,
            sent: self.sent@,
        }
    }
}

impl ReporterView {
    /// A reporter to `target` that has reported nothing.
    pub open spec fn fresh(target: ErrorSender, device_id: DeviceId) -> Self {
        ReporterView { target, device_id, sent: Seq::empty() }
    }

    /// The reporter after it has reported a transport error.
    pub open spec fn reported(self, error: TransportError) -> Self {
        ReporterView {
            sent: self.sent.push(DeviceEvent::TransportError { device: self.device_id, error }),
            ..self
        }
    }

    /// The reporter after it has reported a rejected write.
    pub open spec fn rejected(self, address: u16) -> Self {
        ReporterView {
            sent: self.sent.push(DeviceEvent::RejectedWrite { device: self.device_id, address }),
            ..self
        }
    }
}

/// An optional reporter, by view.
pub open spec fn view_of(reporter: Option<ErrorReporter>) -> Option<ReporterView> {
    match reporter {
        Some(r) => Some(r@),
        None => None,
    }
}

/// What an optional reporter has become after a transport error was reported to it.
pub open spec fn after_report(
    reporter: Option<ReporterView>,
    error: TransportError,
) -> Option<ReporterView> {
    match reporter {
        Some(r) => Some(r.reported(error)),
        None => None,
    }
}

/// What an optional reporter has become after a rejected write was reported to it.
pub open spec fn after_rejected(
    reporter: Option<ReporterView>,
    address: u16,
) -> Option<ReporterView> {
    match reporter {
        Some(r) => Some(r.rejected(address)),
        None => None,
    }
}

impl ErrorReporter {
    /// Creates a reporter for the device identified as `device_id`, targeting `error_sender`.
    pub fn new(error_sender: ErrorSender, device_id: DeviceId) -> (r: Self)
        ensures
            r@ == ReporterView::fresh(error_sender, device_id),
    {
        ErrorReporter { error_sender, device_id, sent: Ghost(Seq::empty()) }
    }

    /// Hands `event` to tokio's `UnboundedSender::send` on the reporter's target, which stays the
    /// same, and so adds it to what was reported. Whether a receiver is still there to take it rests with the host; nothing is claimed of that
    /// outcome, which is dropped.
    #[verifier::external_body]
    fn send(&mut self, event: DeviceEvent)
        ensures
            final(self)@ == (ReporterView { sent: old(self)@.sent.push(event), ..old(self)@ }),
    {
        let _ = self.error_sender.send(event);
    }

    /// Reports a transport error of the device.
    pub fn report(&mut self, error: TransportError)
        ensures
            final(self)@ == old(self)@.reported(error),
    {
        let device = self.device_id;
        self.send(DeviceEvent::TransportError { device, error });
    }

    /// Reports that the device turned down a write at `address`.
    pub fn report_rejected_write(&mut self, address: u16)
        ensures
            final(self)@ == old(self)@.rejected(address),
    {
        let device = self.device_id;
        self.send(DeviceEvent::RejectedWrite { device, address });
    }
}

/// Reports a transport error if a reporter is available.
pub fn report(error: TransportError, error_reporter: &mut Option<ErrorReporter>)
    ensures
        view_of(*final(error_reporter)) == after_report(view_of(*old(error_reporter)), error),
{
    if let Some(reporter) = error_reporter {
        reporter.report(error);
    }
}

/// Reports a rejected write if a reporter is available.
pub fn report_rejected_write(address: u16, error_reporter: &mut Option<ErrorReporter>)
    ensures
        view_of(*final(error_reporter)) == after_rejected(view_of(*old(error_reporter)), address),
{
    if let Some(reporter) = error_reporter {
        reporter.report_rejected_write(address);
    }
}

} // verus!
