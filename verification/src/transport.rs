//! The byte streams that connect a device with its peripherals.
//!
//! A [`TransportPort`] is the device's end of a transport. The host queues what arrives from the
//! peripheral in `inbound` and takes away what the device sends from `outbound`; the device does
//! the opposite.

use std::collections::VecDeque;
use vstd::prelude::*;

verus! {

/// An error of the transport behind a port.
#[derive(Debug, Clone, Copy, PartialEq, Eq, Structural)]
pub enum TransportError {
    /// The peer is gone.
    Disconnected,
    /// The operating system reported an error with this code.
    Io(u32),
}

/// What a transport that serves several clients delivers.
#[derive(Debug, Clone, Copy, PartialEq, Eq, Structural)]
pub enum TransportEvent {
    /// The client with this identifier connected.
    Connected(u8),
    /// The client with this identifier sent this byte.
    Data(u8, u8),
    /// The client with this identifier disconnected.
    Disconnected(u8),
}

/// A device's end of a transport that delivers items of type `E`.
pub struct TransportPort<E> {
    /// Items that have arrived and that the device has not taken yet, oldest first.
    pub inbound: VecDeque<E>,
    /// Bytes that the device has sent and that the host has not taken yet, oldest first.
    pub outbound: Vec<u8>,
    /// The error that meets sends, if there is one.
    pub fault: Option<TransportError>,
    /// Number of bytes that the transport still takes before the fault meets them.
    pub grace: u64,
    /// Changes whenever a new peer takes over the transport.
    pub connection_id: u64,
    /// Every byte that was handed to the transport and that it refused, oldest first.
    pub refused: Ghost<Seq<u8>>,
}

/// A port, seen through the contents of its queues.
#[verifier::ext_equal]
pub ghost struct PortView<E> {
    pub inbound: Seq<E>,
    pub outbound: Seq<u8>,
    pub fault: Option<TransportError>,
    pub grace: u64,
    pub connection_id: u64,
    pub refused: Seq<u8>,
}

impl<E> View for TransportPort<E> {
    type V = PortView<E>;

    open spec fn view(&self) -> PortView<E> {
        PortView {
            inbound: self.inbound@,
            outbound: self.outbound@,
            fault: self.fault,
            grace: self.grace,
            connection_id: self.connection_id,
            refused: self.refused@,
        }
    }
}

/// An optional port, by view.
pub open spec fn view_of<E>(port: Option<TransportPort<E>>) -> Option<PortView<E>> {
    match port {
        Some(p) => Some(p@),
        None => None,
    }
}

impl<E> PortView<E> {
    /// The port after the device has taken the oldest inbound item.
    pub open spec fn taken(self) -> Self {
        PortView { inbound: self.inbound.skip(1), ..self }
    }

    /// The port after the device has taken every inbound item.
    pub open spec fn drained(self) -> Self {
        PortView { inbound: Seq::empty(), ..self }
    }

    /// The error that meets the next byte, if one does.
    pub open spec fn refusal(self) -> Option<TransportError> {
        if self.grace > 0 {
            None
        } else {
            self.fault
        }
    }

    /// How many of the next `n` bytes the transport takes before it refuses one.
    pub open spec fn accepts(self, n: nat) -> nat {
        if self.fault is Some && self.grace < n {
            self.grace as nat
        } else {
            n
        }
    }

    /// The port after the device has handed all of `bytes` to it, whatever comes of each: those that
    /// the transport takes have gone out, the others were refused.
    pub open spec fn sent(self, bytes: Seq<u8>) -> Self {
        if self.fault is None {
            PortView { outbound: self.outbound + bytes, ..self }
        } else {
            let taken = self.accepts(bytes.len());
            PortView {
                outbound: self.outbound + bytes.take(taken as int),
                refused: self.refused + bytes.skip(taken as int),
                grace: (self.grace - taken) as u64,
                ..self
            }
        }
    }

    /// The port after the device has handed `bytes` to it up to the first that is refused, and the
    /// result. Every byte before that one has gone out, and none after it was handed over.
    pub open spec fn sent_up_to_error(self, bytes: Seq<u8>) -> (Self, Result<(), TransportError>) {
        let taken = self.accepts(bytes.len()) as int;
        if taken < bytes.len() {
            (self.sent(bytes.take(taken + 1)), Err(self.fault.unwrap()))
        } else {
            (self.sent(bytes), Ok(()))
        }
    }

    /// The port after the device has shut the transport down.
    pub open spec fn closed(self) -> Self {
        PortView { fault: Some(TransportError::Disconnected), grace: 0, ..self }
    }
}

impl<E: Copy> TransportPort<E> {
    /// A port with nothing queued in either direction and no fault.
    pub fn new(connection_id: u64) -> (p: Self)
        ensures
            p@ == (PortView::<E> {
                inbound: Seq::empty(),
                outbound: Seq::empty(),
                fault: None,
                grace: 0,
                connection_id,
                refused: Seq::empty(),
            }),
    {
        TransportPort {
            inbound: VecDeque::new(),
            outbound: Vec::new(),
            fault: None,
            grace: 0,
            connection_id,
            refused: Ghost(Seq::empty()),
        }
    }

    /// Takes the oldest inbound item, if there is one.
    pub fn try_recv(&mut self) -> (item: Option<E>)
        ensures
            old(self)@.inbound.len() == 0 ==> item is None && final(self)@ == old(self)@,
            old(self)@.inbound.len() > 0 ==> item == Some(old(self)@.inbound[0]) && final(self)@
                == old(self)@.taken(),
    {
        let item = self.inbound.pop_front();
        assert(item is Some ==> self@ =~= old(self)@.taken());
        item
    }

    /// Drops every inbound item.
    pub fn discard_inbound(&mut self)
        ensures
            final(self)@ == old(self)@.drained(),
    {
        self.inbound.clear();
        assert(self@ =~= old(self)@.drained());
    }

    /// Sends one byte; a transport that refuses it reports its error.
    pub fn send(&mut self, b: u8) -> (r: Result<(), TransportError>)
        ensures
            final(self)@ == old(self)@.sent(seq![b]),
            r == (match old(self)@.refusal() {
                Some(e) => Err(e),
                None => Ok(()),
            }),
    {
        match self.fault {
            Some(e) if self.grace == 0 => {
                self.refused = Ghost(self.refused@.push(b));
                assert(self@ =~= old(self)@.sent(seq![b]));
                Err(e)
            },
            _ => {
                if self.fault.is_some() {
                    self.grace = self.grace - 1;
                }
                self.outbound.push(b);
                assert(self@ =~= old(self)@.sent(seq![b]));
                Ok(())
            },
        }
    }

    /// Sends all of `bytes`, whatever comes of each.
    pub fn send_bytes(&mut self, bytes: &[u8])
        ensures
            final(self)@ == old(self)@.sent(bytes@),
    {
        let mut i: usize = 0;
        assert(old(self)@ =~= old(self)@.sent(bytes@.take(0)));
        while i < bytes.len()
            invariant
                i <= bytes@.len(),
                self@ == old(self)@.sent(bytes@.take(i as int)),
            decreases bytes@.len() - i,
        {
            let _ = self.send(bytes[i]);
            proof {
                sending_in_parts(old(self)@, bytes@.take(i as int), seq![bytes@[i as int]]);
                assert(bytes@.take(i + 1) =~= bytes@.take(i as int) + seq![bytes@[i as int]]);
            }
            i += 1;
        }
        assert(bytes@.take(i as int) =~= bytes@);
    }

    /// Sends `bytes` up to the first that the transport refuses, whose error is returned.
    pub fn send_up_to_error(&mut self, bytes: &[u8]) -> (r: Result<(), TransportError>)
        ensures
            (final(self)@, r) == old(self)@.sent_up_to_error(bytes@),
    {
        let mut i: usize = 0;
        assert(old(self)@ =~= old(self)@.sent(bytes@.take(0)));
        while i < bytes.len()
            invariant
                i <= bytes@.len(),
                old(self)@.accepts(i as nat) == i,
                self@ == old(self)@.sent(bytes@.take(i as int)),
            decreases bytes@.len() - i,
        {
            let result = self.send(bytes[i]);
            proof {
                sending_in_parts(old(self)@, bytes@.take(i as int), seq![bytes@[i as int]]);
                assert(bytes@.take(i + 1) =~= bytes@.take(i as int) + seq![bytes@[i as int]]);
            }
            if result.is_err() {
                return result;
            }
            i += 1;
        }
        assert(bytes@.take(i as int) =~= bytes@);
        Ok(())
    }

    /// Shuts the transport down: nothing that is sent afterwards leaves the device.
    pub fn shutdown(&mut self)
        ensures
            final(self)@ == old(self)@.closed(),
    {
        self.fault = Some(TransportError::Disconnected);
        self.grace = 0;
    }
}

/// Handing over `first` and then `second` is handing over `first + second`.
pub proof fn sending_in_parts<E>(port: PortView<E>, first: Seq<u8>, second: Seq<u8>)
    ensures
        port.sent(first).sent(second) == port.sent(first + second),
{
    assert(port.sent(first).sent(second) =~= port.sent(first + second));
}

/// Sending `first + second` up to the first error is sending `first` and then, unless that met an
/// error, `second`.
pub proof fn sending_up_to_error_in_parts<E>(port: PortView<E>, first: Seq<u8>, second: Seq<u8>)
    ensures
        port.sent_up_to_error(first + second) == if port.sent_up_to_error(first).1 is Err {
            port.sent_up_to_error(first)
        } else {
            port.sent_up_to_error(first).0.sent_up_to_error(second)
        },
{
    let whole = first + second;
    let taken = port.accepts(whole.len()) as int;
    if taken < first.len() {
        assert(whole.take(taken + 1) =~= first.take(taken + 1));
    } else if taken < whole.len() {
        let rest = taken - first.len();
        assert(port.sent(first).accepts(second.len()) == rest);
        assert(whole.take(taken + 1) =~= first + second.take(rest + 1));
        sending_in_parts(port, first, second.take(rest + 1));
    } else {
        sending_in_parts(port, first, second);
    }
}

/// A send that fails after some bytes have gone out has sent exactly those; the byte that failed was
/// refused, and none after it was handed over.
pub proof fn failed_send_stops<E>(port: PortView<E>, bytes: Seq<u8>)
    requires
        port.sent_up_to_error(bytes).1 is Err,
    ensures
        ({
            let taken = port.accepts(bytes.len()) as int;
            let (after, result) = port.sent_up_to_error(bytes);
            &&& 0 <= taken < bytes.len()
            &&& Err::<(), TransportError>(port.fault.unwrap()) == result
            &&& after.outbound == port.outbound + bytes.take(taken)
            &&& after.refused == port.refused.push(bytes[taken])
            &&& after.inbound == port.inbound
        }),
{
    let taken = port.accepts(bytes.len()) as int;
    let handed = bytes.take(taken + 1);
    assert(port.accepts(handed.len()) == taken);
    assert(handed.take(taken) =~= bytes.take(taken));
    assert(handed.skip(taken) =~= seq![bytes[taken]]);
    assert(port.refused + seq![bytes[taken]] =~= port.refused.push(bytes[taken]));
}

/// A send that meets no error has sent everything, once and in order.
pub proof fn successful_send_is_whole<E>(port: PortView<E>, bytes: Seq<u8>)
    requires
        port.sent_up_to_error(bytes).1 is Ok,
    ensures
        port.sent_up_to_error(bytes).0.outbound == port.outbound + bytes,
        port.sent_up_to_error(bytes).0.refused == port.refused,
        port.sent_up_to_error(bytes).0.inbound == port.inbound,
{
    assert(bytes.take(bytes.len() as int) =~= bytes);
    assert(bytes.skip(bytes.len() as int) =~= Seq::empty());
    assert(port.refused + Seq::<u8>::empty() =~= port.refused);
}

/// Items are taken oldest first; taking them leaves what was sent alone.
pub proof fn items_are_taken_in_order<E>(port: PortView<E>)
    requires
        port.inbound.len() > 0,
    ensures
        seq![port.inbound[0]] + port.taken().inbound == port.inbound,
        port.taken().outbound == port.outbound,
        port.drained().inbound.len() == 0,
        port.drained().outbound == port.outbound,
{
    assert(seq![port.inbound[0]] + port.taken().inbound =~= port.inbound);
}

/// After a shutdown nothing more leaves the device: every byte is refused as disconnected.
pub proof fn closed_port_takes_nothing<E>(port: PortView<E>, bytes: Seq<u8>)
    requires
        bytes.len() > 0,
    ensures
        port.closed().sent(bytes).outbound == port.outbound,
        port.closed().sent(bytes).refused == port.refused + bytes,
        port.closed().refusal() == Some(TransportError::Disconnected),
        port.closed().sent_up_to_error(bytes).1 == Err::<(), TransportError>(
            TransportError::Disconnected,
        ),
{
    assert(port.closed().sent(bytes).outbound =~= port.outbound);
    assert(port.closed().sent(bytes).refused =~= port.refused + bytes);
}

/// A transport with a fault takes as many bytes as its grace says and then refuses.
pub proof fn grace_runs_out<E>(port: PortView<E>, bytes: Seq<u8>)
    requires
        port.fault is Some,
    ensures
        bytes.len() <= port.grace ==> port.sent(bytes).outbound == port.outbound + bytes
            && port.sent(bytes).grace == port.grace - bytes.len() && port.sent(bytes).refused
            == port.refused,
        bytes.len() > port.grace ==> port.sent(bytes).outbound == port.outbound + bytes.take(
            port.grace as int,
        ) && port.sent(bytes).grace == 0 && port.sent(bytes).refused == port.refused + bytes.skip(
            port.grace as int,
        ),
        port.refusal() is Some <==> port.grace == 0,
{
    if bytes.len() <= port.grace {
        assert(bytes.take(bytes.len() as int) =~= bytes);
        assert(port.refused + bytes.skip(bytes.len() as int) =~= port.refused);
    }
}

} // verus!
