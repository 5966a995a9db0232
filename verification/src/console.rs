//! A buffered console device with support for an interrupt-driven break key input.
//!
//! A single memory-mapped port is read to receive ASCII characters from a keyboard, and is written
//! to print ASCII characters. Input characters are buffered until they are read. A latch register
//! allows a single-character lookahead and a way to drain the input buffer. An optional break key
//! code (e.g. ASCII Ctrl+C) may be configured; when it is received, the input buffer is drained,
//! the break key code is latched and the CPU's IRQ signal is asserted.
//!
//! | Offset |      Name      |
//! |--------|----------------|
//! | 0      | Data Register  |
//! | 1      | Latch Register |
//!
//! Reading the data register returns the contents of the latch register if non-zero, else the next
//! input byte if there is one, else zero; it resets the latch and the interrupt. Writing it sends a
//! byte to the connected transport.
//!
//! Reading the latch register fetches the next byte of input if the latch is zero, and resets the
//! interrupt; the value stays in the latch. Writing it overwrites the latch and drains the input
//! buffer; the break key triggers an interrupt, any other value resets it.

use crate::device::{log_reset, IoDevice};
use crate::input_buffer::{InputBuffer, InputView};
use crate::logging::{LogRecordView, LogSender};
use crate::transport;
use crate::transport::{PortView, TransportPort};
use vstd::prelude::*;

verus! {

/// A buffered console device with support for an interrupt-driven break key input.
pub struct Console {
    pub name: &'static str,
    pub address: u16,
    pub transport: Option<TransportPort<u8>>,
    pub input: InputBuffer,
    /// Sink for diagnostic messages (e.g. `reset()`).
    pub log_sender: LogSender,
}

/// A console, seen through its transport, its input and its log.
#[verifier::ext_equal]
pub ghost struct ConsoleView {
    pub name: Seq<char>,
    pub address: u16,
    pub port: Option<PortView<u8>>,
    pub input: InputView,
    pub log_capacity: usize,
    pub log: Seq<LogRecordView>,
}

impl View for Console {
    type V = ConsoleView;

    open spec fn view(&self) -> ConsoleView {
        ConsoleView {
            name: self.name@,
            address: self.address,
            port: transport::view_of(self.transport),
            input: self.input@,
            log_capacity: self.log_sender.capacity,
            log: self.log_sender@,
        }
    }
}

impl ConsoleView {
    /// What a read at `offset` returns.
    pub open spec fn read_value(self, offset: int) -> u8 {
        if offset == 0 || offset == 1 {
            self.input.data()
        } else {
            0
        }
    }

    /// The console after a read at `offset`.
    pub open spec fn after_read(self, offset: int) -> Self {
        if offset == 0 {
            ConsoleView { input: self.input.after_read_data(), ..self }
        } else if offset == 1 {
            ConsoleView { input: self.input.after_read_latch(), ..self }
        } else {
            self
        }
    }

    /// The console after a write at `offset`.
    pub open spec fn after_write(self, offset: int, value: u8) -> Self {
        if offset == 0 {
            ConsoleView {
                port: match self.port {
                    Some(port) => Some(port.sent(seq![value])),
                    None => None,
                },
                ..self
            }
        } else if offset == 1 {
            ConsoleView { input: self.input.after_write_latch(value), ..self }
        } else {
            self
        }
    }

    /// What a peek at `offset` returns.
    pub open spec fn peek_value(self, offset: int) -> u8 {
        if offset == 0 {
            self.input.data()
        } else if offset == 1 {
            self.input.latch
        } else {
            0
        }
    }

    /// The console after it has taken everything that has arrived.
    pub open spec fn after_tick(self) -> Self {
        match self.port {
            Some(port) => ConsoleView {
                port: Some(port.drained()),
                input: self.input.pushed_all(port.inbound),
                ..self
            },
            None => self,
        }
    }

    /// The console after a reset.
    pub open spec fn after_reset(self) -> Self {
        ConsoleView {
            input: self.input.after_reset(),
            log: crate::logging::after_log(
                self.log,
                self.log_capacity as nat,
                crate::device::reset_record(self.name, self.address),
            ),
            ..self
        }
    }

    /// The console after its transport was shut down.
    pub open spec fn after_shutdown(self) -> Self {
        ConsoleView {
            port: match self.port {
                Some(port) => Some(port.closed()),
                None => None,
            },
            ..self
        }
    }
}

impl Console {
    /// Creates a console with no transport attached.
    pub fn new(name: &'static str) -> (c: Self)
        ensures
            c@ == (ConsoleView {
                name: name@,
                address: 0,
                port: None,
                input: InputView::fresh(),
                log_capacity: 0,
                log: Seq::empty(),
            }),
    {
        Console {
            name,
            address: 0,
            transport: None,
            input: InputBuffer::new(),
            log_sender: LogSender::default(),
        }
    }

    /// Sets the address at which this device is registered on the bus.
    pub fn with_address(self, address: u16) -> (c: Self)
        ensures
            c@ == (ConsoleView { address, ..self@ }),
    {
        let mut c = self;
        c.address = address;
        c
    }

    /// Attaches a transport for byte-stream I/O.
    pub fn attach_transport(&mut self, transport: TransportPort<u8>)
        ensures
            final(self)@ == (ConsoleView { port: Some(transport@), ..old(self)@ }),
    {
        self.transport = Some(transport);
    }

    /// Sets the break key to recognize when reading from the transport.
    pub fn set_break_key(&mut self, break_key: u8)
        ensures
            final(self)@ == (ConsoleView {
                input: InputView { break_key: Some(break_key), ..old(self)@.input },
                ..old(self)@
            }),
    {
        self.input.set_break_key(break_key);
    }

    /// Installs a sink for diagnostic messages (e.g. `reset()`).
    pub fn set_log_sender(&mut self, sender: LogSender)
        ensures
            final(self)@ == (ConsoleView {
                log_capacity: sender.capacity,
                log: sender@,
                ..old(self)@
            }),
    {
        self.log_sender = sender;
    }
}

impl IoDevice for Console {
    open spec fn wf(&self) -> bool {
        true
    }

    open spec fn mapped_at(&self, address: u16) -> bool {
        address >= self.address
    }

    open spec fn can_tick(&self, cycles: u32) -> bool {
        true
    }

    open spec fn written(before: Self, after: Self, address: u16, value: u8) -> bool {
        after@ == before@.after_write(address - before.address, value)
    }

    fn read(&mut self, address: u16) -> (value: u8)
        ensures
            value == old(self)@.read_value(address - old(self).address),
            final(self)@ == old(self)@.after_read(address - old(self).address),
    {
        let offset: u16 = address - self.address;
        match offset {
            0 => self.input.read_data(),
            1 => self.input.read_latch(),
            _ => 0,
        }
    }

    fn write(&mut self, address: u16, value: u8)
        ensures
            final(self)@ == old(self)@.after_write(address - old(self).address, value),
    {
        let offset: u16 = address - self.address;
        match offset {
            0 => {
                if let Some(port) = &mut self.transport {
                    let _ = port.send(value);
                }
            },
            1 => {
                self.input.write_latch(value);
            },
            _ => {},
        }
    }

    fn peek(&self, address: u16) -> (value: u8)
        ensures
            value == self@.peek_value(address - self.address),
    {
        let offset: u16 = address - self.address;
        match offset {
            0 => self.input.peek_data(),
            1 => self.input.peek_latch(),
            _ => 0,
        }
    }

    fn patch(&mut self, address: u16, value: u8)
        ensures
            final(self)@ == old(self)@.after_write(address - old(self).address, value),
    {
        self.write(address, value);
    }

    fn tick(&mut self, cycles: u32)
        ensures
            final(self)@ == old(self)@.after_tick(),
    {
        if let Some(port) = &mut self.transport {
            self.input.drain(port);
        }
    }

    fn reset(&mut self)
        ensures
            final(self)@ == old(self)@.after_reset(),
    {
        self.input.reset();
        log_reset(&mut self.log_sender, self.name, self.address);
    }

    fn irq_active(&self) -> (active: bool)
        ensures
            active == self@.input.interrupt_flag,
    {
        self.input.irq_active()
    }

    fn name(&self) -> (name: &str)
        ensures
            name@ == self.name@,
    {
        self.name
    }

    fn identity_address(&self) -> (address: u16)
        ensures
            address == self.address,
    {
        self.address
    }

    fn shutdown(&mut self)
        ensures
            final(self)@ == old(self)@.after_shutdown(),
    {
        if let Some(port) = &mut self.transport {
            port.shutdown();
        }
    }
}

/// The console's registers: offset 0 is read for input and written for output, offset 1 is the latch.
/// Input never goes out, and output never comes in.
pub proof fn registers(d: ConsoleView, value: u8)
    ensures
        d.read_value(0) == d.input.data(),
        d.after_read(0) == (ConsoleView { input: d.input.after_read_data(), ..d }),
        d.read_value(1) == d.input.data(),
        d.after_read(1) == (ConsoleView { input: d.input.after_read_latch(), ..d }),
        d.peek_value(0) == d.input.data(),
        d.peek_value(1) == d.input.latch,
        d.after_write(1, value) == (ConsoleView {
            input: d.input.after_write_latch(value),
            ..d
        }),
        d.after_write(0, value).input == d.input,
        d.port is Some && d.port.unwrap().fault is None ==> d.after_write(
            0,
            value,
        ).port.unwrap().outbound == d.port.unwrap().outbound.push(value),
{
    if d.port is Some && d.port.unwrap().fault is None {
        assert(d.after_write(0, value).port.unwrap().outbound
            =~= d.port.unwrap().outbound.push(value));
    }
}

/// A tick takes everything that has arrived, oldest first, and leaves what was sent alone.
pub proof fn tick_takes_input(d: ConsoleView)
    requires
        d.port is Some,
    ensures
        d.after_tick().input == d.input.pushed_all(d.port.unwrap().inbound),
        d.after_tick().port.unwrap().inbound.len() == 0,
        d.after_tick().port.unwrap().outbound == d.port.unwrap().outbound,
{
}

} // verus!
