//! Motorola MC6850 Asynchronous Communications Interface Adapter (ACIA).
//!
//! | Offset | Read             | Write            |
//! |--------|------------------|------------------|
//! | 0      | Status Register  | Control Register |
//! | 1      | RX Data Register | TX Data Register |
//!
//! Control register: bits 1-0 are the counter divide, where `11` is a master reset; bits 6-5 are the
//! transmit control, where `10` enables the TX interrupt; bit 7 enables the RX interrupt.
//!
//! Status register: bit 0 is RDRF (receive data register full), bit 1 TDRE (transmit data register
//! empty), bit 5 OVRN (overrun) and bit 7 IRQ. The other bits are always 0.
//!
//! TX is immediate: a byte is sent when it is written. TDRE clears on a TX write and is restored on
//! the next `tick()`. What arrives is buffered on every `tick()`, which also moves one byte into the
//! RX data register if that is free.

use crate::device::{log_reset, IoDevice};
use crate::logging::{LogRecordView, LogSender};
use crate::transport;
use crate::transport::{PortView, TransportPort};
use std::collections::VecDeque;
use vstd::prelude::*;

verus! {

pub const CD_MASTER_RESET: u8 = 0x03;

/// Transmit control bits `10`.
pub const TC_TX_IRQ: u8 = 0x40;

pub const RIE_MASK: u8 = 0x80;

/// Motorola MC6850 Asynchronous Communications Interface Adapter (ACIA).
pub struct Mc6850 {
    pub name: &'static str,
    pub address: u16,
    pub transport: Option<TransportPort<u8>>,
    /// Bytes that have arrived but are not yet clocked into `rx_data`.
    pub rx_buffer: VecDeque<u8>,
    pub control: u8,
    pub rx_data: u8,
    pub rdrf: bool,
    pub tdre: bool,
    pub overrun: bool,
    pub tx_pending: bool,
    /// Sink for diagnostic messages (e.g. `reset()`).
    pub log_sender: LogSender,
}

/// An MC6850, seen through its transport, its buffer and its log.
#[verifier::ext_equal]
pub ghost struct Mc6850View {
    pub name: Seq<char>,
    pub address: u16,
    pub port: Option<PortView<u8>>,
    pub rx_buffer: Seq<u8>,
    pub control: u8,
    pub rx_data: u8,
    pub rdrf: bool,
    pub tdre: bool,
    pub overrun: bool,
    pub tx_pending: bool,
    pub log_capacity: usize,
    pub log: Seq<LogRecordView>,
}

impl View for Mc6850 {
    type V = Mc6850View;

    open spec fn view(&self) -> Mc6850View {
        Mc6850View {
            name: self.name@,
            address: self.address,
            port: transport::view_of(self.transport),
            rx_buffer: self.rx_buffer@,
            control: self.control,
            rx_data: self.rx_data,
            rdrf: self.rdrf,
            tdre: self.tdre,
            overrun: self.overrun,
            tx_pending: self.tx_pending,
            log_capacity: self.log_sender.capacity,
            log: self.log_sender@,
        }
    }
}

impl Mc6850View {
    /// An MC6850 that was just created.
    pub open spec fn fresh(name: Seq<char>) -> Self {
        Mc6850View {
            name,
            address: 0,
            port: None,
            rx_buffer: Seq::empty(),
            control: 0,
            rx_data: 0,
            rdrf: false,
            tdre: true,
            overrun: false,
            tx_pending: false,
            log_capacity: 0,
            log: Seq::empty(),
        }
    }

    /// Whether a full receive register interrupts: bit 7 of the control register.
    pub open spec fn rx_irq(self) -> bool {
        self.control >= 0x80
    }

    /// Whether an empty transmit register interrupts: bits 6-5 of the control register are `10`.
    pub open spec fn tx_irq(self) -> bool {
        self.control / 32 % 4 == 2
    }

    pub open spec fn irq(self) -> bool {
        self.rdrf && self.rx_irq() || self.tdre && self.tx_irq()
    }

    /// The status register.
    pub open spec fn status(self) -> u8 {
        ((if self.rdrf { 0x01int } else { 0 }) + (if self.tdre { 0x02int } else { 0 }) + (
        if self.overrun { 0x20int } else { 0 }) + (if self.irq() { 0x80int } else { 0 })) as u8
    }

    /// What a read or a peek at `offset` shows.
    pub open spec fn value_at(self, offset: int) -> u8 {
        if offset == 0 {
            self.status()
        } else if offset == 1 {
            self.rx_data
        } else {
            0
        }
    }

    /// The device after a read at `offset`: reading the data frees the receive register.
    pub open spec fn after_read(self, offset: int) -> Self {
        if offset == 1 {
            Mc6850View { rdrf: false, overrun: false, ..self }
        } else {
            self
        }
    }

    /// The device after a master reset.
    pub open spec fn master_reset(self) -> Self {
        Mc6850View {
            rx_data: 0,
            rdrf: false,
            tdre: true,
            overrun: false,
            tx_pending: false,
            ..self
        }
    }

    /// The device after a write at `offset`.
    pub open spec fn after_write(self, offset: int, value: u8) -> Self {
        if offset == 0 {
            let written = Mc6850View { control: value, ..self };
            if value % 4 == CD_MASTER_RESET {
                written.master_reset()
            } else {
                written
            }
        } else if offset == 1 {
            Mc6850View {
                port: match self.port {
                    Some(port) => Some(port.sent(seq![value])),
                    None => None,
                },
                tdre: false,
                tx_pending: true,
                ..self
            }
        } else {
            self
        }
    }

    /// The device after it has buffered everything that has arrived.
    pub open spec fn drained(self) -> Self {
        match self.port {
            Some(port) => Mc6850View {
                port: Some(port.drained()),
                rx_buffer: self.rx_buffer + port.inbound,
                ..self
            },
            None => self,
        }
    }

    /// The device after its transmit register was emptied.
    pub open spec fn transmitted(self) -> Self {
        if self.tx_pending {
            Mc6850View { tx_pending: false, tdre: true, ..self }
        } else {
            self
        }
    }

    /// The device after the next byte was moved into the receive register, if that was free.
    pub open spec fn received(self) -> Self {
        if !self.rdrf && self.rx_buffer.len() > 0 {
            Mc6850View {
                rx_data: self.rx_buffer[0],
                rdrf: true,
                rx_buffer: self.rx_buffer.skip(1),
                ..self
            }
        } else {
            self
        }
    }

    /// The device after a tick, whatever the number of cycles.
    pub open spec fn after_tick(self) -> Self {
        self.drained().transmitted().received()
    }

    /// The device after a reset: as new, but for its place on the bus, its transport and its log.
    pub open spec fn after_reset(self) -> Self {
        Mc6850View {
            address: self.address,
            port: self.port,
            log_capacity: self.log_capacity,
            log: crate::logging::after_log(
                self.log,
                self.log_capacity as nat,
                crate::device::reset_record(self.name, self.address),
            ),
            ..Mc6850View::fresh(self.name)
        }
    }
}

impl Mc6850 {
    /// Creates a new `Mc6850` with no transport and master-reset state.
    pub fn new(name: &'static str) -> (d: Self)
        ensures
            d@ == Mc6850View::fresh(name@),
    {
        Mc6850 {
            name,
            address: 0,
            transport: None,
            rx_buffer: VecDeque::new(),
            control: 0,
            rx_data: 0,
            rdrf: false,
            tdre: true,
            overrun: false,
            tx_pending: false,
            log_sender: LogSender::default(),
        }
    }

    /// Sets the address at which this device is registered on the bus.
    pub fn with_address(self, address: u16) -> (d: Self)
        ensures
            d@ == (Mc6850View { address, ..self@ }),
    {
        let mut d = self;
        d.address = address;
        d
    }

    /// Attaches a transport for byte-stream I/O.
    pub fn attach_transport(&mut self, transport: TransportPort<u8>)
        ensures
            final(self)@ == (Mc6850View { port: Some(transport@), ..old(self)@ }),
    {
        self.transport = Some(transport);
    }

    /// Installs a sink for diagnostic messages (e.g. `reset()`).
    pub fn set_log_sender(&mut self, sender: LogSender)
        ensures
            final(self)@ == (Mc6850View {
                log_capacity: sender.capacity,
                log: sender@,
                ..old(self)@
            }),
    {
        self.log_sender = sender;
    }

    fn status(&self) -> (s: u8)
        ensures
            s == self@.status(),
    {
        let mut s: u8 = 0;
        if self.rdrf {
            s = s + 0x01;
        }
        if self.tdre {
            s = s + 0x02;
        }
        if self.overrun {
            s = s + 0x20;
        }
        if self.irq_active() {
            s = s + 0x80;
        }
        s
    }

    fn rx_irq_enabled(&self) -> (enabled: bool)
        ensures
            enabled == self@.rx_irq(),
    {
        self.control >= RIE_MASK
    }

    fn tx_irq_enabled(&self) -> (enabled: bool)
        ensures
            enabled == self@.tx_irq(),
    {
        self.control / 32 % 4 == TC_TX_IRQ / 32
    }

    fn apply_master_reset(&mut self)
        ensures
            final(self)@ == old(self)@.master_reset(),
    {
        self.rx_data = 0;
        self.rdrf = false;
        self.tdre = true;
        self.overrun = false;
        self.tx_pending = false;
    }

    fn buffer_arrivals(&mut self)
        ensures
            final(self)@ == old(self)@.drained(),
    {
        let buffer = &mut self.rx_buffer;
        if let Some(port) = &mut self.transport {
            move_inbound(port, buffer);
        }
        assert(self@ =~= old(self)@.drained());
    }
}

/// Moves everything that has arrived at `port` to the end of `buffer`.
fn move_inbound(port: &mut TransportPort<u8>, buffer: &mut VecDeque<u8>)
    ensures
        final(port)@ == old(port)@.drained(),
        final(buffer)@ == old(buffer)@ + old(port)@.inbound,
{
    loop
        invariant
            buffer@ + port@.inbound == old(buffer)@ + old(port)@.inbound,
            port@.drained() == old(port)@.drained(),
        decreases port@.inbound.len(),
    {
        let ghost arrived = port@.inbound;
        let ghost held = buffer@;
        match port.try_recv() {
            Some(byte) => {
                buffer.push_back(byte);
                assert(buffer@ + port@.inbound =~= held + arrived);
            },
            None => {
                assert(port@ =~= old(port)@.drained());
                assert(buffer@ =~= buffer@ + port@.inbound);
                return ;
            },
        }
    }
}

impl IoDevice for Mc6850 {
    open spec fn wf(&self) -> bool {
        true
    }

    open spec fn mapped_at(&self, address: u16) -> bool {
        address >= self.address
    }

    open spec fn can_tick(&self, cycles: u32) -> bool {
        true
    }

    open spec fn written(before: Self, after: Self, address: u16, value: u8) -> bool {
        after@ == before@.after_write(address - before@.address, value)
    }

    fn read(&mut self, address: u16) -> (value: u8)
        ensures
            value == old(self)@.value_at(address - old(self)@.address),
            final(self)@ == old(self)@.after_read(address - old(self)@.address),
    {
        let offset: u16 = address - self.address;
        match offset {
            0 => self.status(),
            1 => {
                self.rdrf = false;
                self.overrun = false;
                self.rx_data
            },
            _ => 0,
        }
    }

    fn write(&mut self, address: u16, value: u8)
        ensures
            final(self)@ == old(self)@.after_write(address - old(self)@.address, value),
    {
        let offset: u16 = address - self.address;
        match offset {
            0 => {
                self.control = value;
                if value % 4 == CD_MASTER_RESET {
                    self.apply_master_reset();
                }
            },
            1 => {
                if let Some(port) = &mut self.transport {
                    let _ = port.send(value);
                }
                self.tdre = false;
                self.tx_pending = true;
            },
            _ => {},
        }
    }

    fn peek(&self, address: u16) -> (value: u8)
        ensures
            value == self@.value_at(address - self@.address),
    {
        let offset: u16 = address - self.address;
        match offset {
            0 => self.status(),
            1 => self.rx_data,
            _ => 0,
        }
    }

    fn patch(&mut self, address: u16, value: u8)
        ensures
            final(self)@ == old(self)@.after_write(address - old(self)@.address, value),
    {
        self.write(address, value);
    }

    fn tick(&mut self, cycles: u32)
        ensures
            final(self)@ == old(self)@.after_tick(),
    {
        self.buffer_arrivals();
        if self.tx_pending {
            self.tx_pending = false;
            self.tdre = true;
        }
        if !self.rdrf {
            if let Some(byte) = self.rx_buffer.pop_front() {
                self.rx_data = byte;
                self.rdrf = true;
            }
        }
        assert(self@ =~= old(self)@.after_tick());
    }

    fn reset(&mut self)
        ensures
            final(self)@ == old(self)@.after_reset(),
    {
        self.rx_buffer.clear();
        self.control = 0;
        self.apply_master_reset();
        log_reset(&mut self.log_sender, self.name, self.address);
        assert(self@ =~= old(self)@.after_reset());
    }

    fn irq_active(&self) -> (active: bool)
        ensures
            active == self@.irq(),
    {
        self.rdrf && self.rx_irq_enabled() || self.tdre && self.tx_irq_enabled()
    }

    fn name(&self) -> (name: &str)
        ensures
            name@ == self.name@,
    {
        self.name
    }

    fn identity_address(&self) -> (address: u16)
        ensures
            address == self.address,
    {
        self.address
    }

    fn shutdown(&mut self)
        ensures
            final(self)@ == (Mc6850View {
                port: match old(self)@.port {
                    Some(port) => Some(port.closed()),
                    None => None,
                },
                ..old(self)@
            }),
    {
        if let Some(port) = &mut self.transport {
            port.shutdown();
        }
    }
}

/// Nothing that arrives is lost or reordered: a tick moves bytes towards the CPU without changing
/// the sequence of those that the CPU has yet to read.
pub proof fn arrivals_are_kept_in_order(d: Mc6850View)
    ensures
        d.after_tick().unread() == d.unread(),
{
    assert(d.drained().unread() =~= d.unread());
    assert(d.after_tick().unread() =~= d.drained().unread());
}

/// Reading the data register takes the oldest unread byte, if the receive register is full.
pub proof fn read_takes_oldest(d: Mc6850View)
    requires
        d.rdrf,
    ensures
        d.unread().len() > 0,
        d.value_at(1) == d.unread()[0],
        d.after_read(1).unread() == d.unread().skip(1),
{
    assert(d.after_read(1).unread() =~= d.unread().skip(1));
}

impl Mc6850View {
    /// The bytes that the CPU has yet to read, oldest first.
    pub open spec fn unread(self) -> Seq<u8> {
        (if self.rdrf {
            seq![self.rx_data]
        } else {
            Seq::empty()
        }) + self.rx_buffer + (match self.port {
            Some(port) => port.inbound,
            None => Seq::empty(),
        })
    }
}

/// The transmit register is empty again after one tick.
pub proof fn transmit_register_empties(d: Mc6850View, value: u8)
    ensures
        !d.after_write(1, value).tdre,
        d.after_write(1, value).after_tick().tdre,
{
}

/// After a reset no interrupt is requested.
pub proof fn reset_withdraws_irq(d: Mc6850View)
    ensures
        !d.after_reset().irq(),
{
}

} // verus!
