//! A memory-mapped keyboard input device, the input-only counterpart to
//! [`Console`](crate::console::Console).
//!
//! | Offset |      Name      |
//! |--------|----------------|
//! | 0      | Data Register  |
//! | 1      | Latch Register |
//!
//! Both registers behave as the console's do, but for one difference: writing the data register has
//! no effect. This device has no outbound byte stream to send to.

use crate::device::{log_reset, IoDevice};
use crate::input_buffer::{InputBuffer, InputView};
use crate::logging::{LogRecordView, LogSender};
use crate::transport;
use crate::transport::{PortView, TransportPort};
use vstd::prelude::*;

verus! {

/// A memory-mapped, input-only keyboard device.
pub struct Keyboard {
    pub name: &'static str,
    pub address: u16,
    pub transport: Option<TransportPort<u8>>,
    pub input: InputBuffer,
    /// Sink for diagnostic messages (e.g. `reset()`).
    pub log_sender: LogSender,
}

/// A keyboard, seen through its transport, its input and its log.
#[verifier::ext_equal]
pub ghost struct KeyboardView {
    pub name: Seq<char>,
    pub address: u16,
    pub port: Option<PortView<u8>>,
    pub input: InputView,
    pub log_capacity: usize,
    pub log: Seq<LogRecordView>,
}

impl View for Keyboard {
    type V = KeyboardView;

    open spec fn view(&self) -> KeyboardView {
        KeyboardView {
            name: self.name@,
            address: self.address,
            port: transport::view_of(self.transport),
            input: self.input@,
            log_capacity: self.log_sender.capacity,
            log: self.log_sender@,
        }
    }
}

impl KeyboardView {
    /// What a read at `offset` returns.
    pub open spec fn read_value(self, offset: int) -> u8 {
        if offset == 0 || offset == 1 {
            self.input.data()
        } else {
            0
        }
    }

    /// The keyboard after a read at `offset`.
    pub open spec fn after_read(self, offset: int) -> Self {
        if offset == 0 {
            KeyboardView { input: self.input.after_read_data(), ..self }
        } else if offset == 1 {
            KeyboardView { input: self.input.after_read_latch(), ..self }
        } else {
            self
        }
    }

    /// The keyboard after a write at `offset`.
    pub open spec fn after_write(self, offset: int, value: u8) -> Self {
        if offset == 1 {
            KeyboardView { input: self.input.after_write_latch(value), ..self }
        } else {
            self
        }
    }

    /// What a peek at `offset` returns.
    pub open spec fn peek_value(self, offset: int) -> u8 {
        if offset == 0 {
            self.input.data()
        } else if offset == 1 {
            self.input.latch
        } else {
            0
        }
    }

    /// The keyboard after it has taken everything that has arrived.
    pub open spec fn after_tick(self) -> Self {
        match self.port {
            Some(port) => KeyboardView {
                port: Some(port.drained()),
                input: self.input.pushed_all(port.inbound),
                ..self
            },
            None => self,
        }
    }

    /// The keyboard after a reset.
    pub open spec fn after_reset(self) -> Self {
        KeyboardView {
            input: self.input.after_reset(),
            log: crate::logging::after_log(
                self.log,
                self.log_capacity as nat,
                crate::device::reset_record(self.name, self.address),
            ),
            ..self
        }
    }

    /// The keyboard after its transport was shut down.
    pub open spec fn after_shutdown(self) -> Self {
        KeyboardView {
            port: match self.port {
                Some(port) => Some(port.closed()),
                None => None,
            },
            ..self
        }
    }
}

impl Keyboard {
    /// Creates a keyboard with no transport attached.
    pub fn new(name: &'static str) -> (c: Self)
        ensures
            c@ == (KeyboardView {
                name: name@,
                address: 0,
                port: None,
                input: InputView::fresh(),
                log_capacity: 0,
                log: Seq::empty(),
            }),
    {
        Keyboard {
            name,
            address: 0,
            transport: None,
            input: InputBuffer::new(),
            log_sender: LogSender::default(),
        }
    }

    /// Sets the address at which this device is registered on the bus.
    pub fn with_address(self, address: u16) -> (c: Self)
        ensures
            c@ == (KeyboardView { address, ..self@ }),
    {
        let mut c = self;
        c.address = address;
        c
    }

    /// Attaches a transport for byte-stream input.
    pub fn attach_transport(&mut self, transport: TransportPort<u8>)
        ensures
            final(self)@ == (KeyboardView { port: Some(transport@), ..old(self)@ }),
    {
        self.transport = Some(transport);
    }

    /// Sets the break key to recognize when reading from the transport.
    pub fn set_break_key(&mut self, break_key: u8)
        ensures
            final(self)@ == (KeyboardView {
                input: InputView { break_key: Some(break_key), ..old(self)@.input },
                ..old(self)@
            }),
    {
        self.input.set_break_key(break_key);
    }

    /// Installs a sink for diagnostic messages (e.g. `reset()`).
    pub fn set_log_sender(&mut self, sender: LogSender)
        ensures
            final(self)@ == (KeyboardView {
                log_capacity: sender.capacity,
                log: sender@,
                ..old(self)@
            }),
    {
        self.log_sender = sender;
    }
}

impl IoDevice for Keyboard {
    open spec fn wf(&self) -> bool {
        true
    }

    open spec fn mapped_at(&self, address: u16) -> bool {
        address >= self.address
    }

    open spec fn can_tick(&self, cycles: u32) -> bool {
        true
    }

    open spec fn written(before: Self, after: Self, address: u16, value: u8) -> bool {
        after@ == before@.after_write(address - before.address, value)
    }

    fn read(&mut self, address: u16) -> (value: u8)
        ensures
            value == old(self)@.read_value(address - old(self).address),
            final(self)@ == old(self)@.after_read(address - old(self).address),
    {
        let offset: u16 = address - self.address;
        match offset {
            0 => self.input.read_data(),
            1 => self.input.read_latch(),
            _ => 0,
        }
    }

    fn write(&mut self, address: u16, value: u8)
        ensures
            final(self)@ == old(self)@.after_write(address - old(self).address, value),
    {
        let offset: u16 = address - self.address;
        match offset {
            0 => {},
            1 => {
                self.input.write_latch(value);
            },
            _ => {},
        }
    }

    fn peek(&self, address: u16) -> (value: u8)
        ensures
            value == self@.peek_value(address - self.address),
    {
        let offset: u16 = address - self.address;
        match offset {
            0 => self.input.peek_data(),
            1 => self.input.peek_latch(),
            _ => 0,
        }
    }

    fn patch(&mut self, address: u16, value: u8)
        ensures
            final(self)@ == old(self)@.after_write(address - old(self).address, value),
    {
        self.write(address, value);
    }

    fn tick(&mut self, cycles: u32)
        ensures
            final(self)@ == old(self)@.after_tick(),
    {
        if let Some(port) = &mut self.transport {
            self.input.drain(port);
        }
    }

    fn reset(&mut self)
        ensures
            final(self)@ == old(self)@.after_reset(),
    {
        self.input.reset();
        log_reset(&mut self.log_sender, self.name, self.address);
    }

    fn irq_active(&self) -> (active: bool)
        ensures
            active == self@.input.interrupt_flag,
    {
        self.input.irq_active()
    }

    fn name(&self) -> (name: &str)
        ensures
            name@ == self.name@,
    {
        self.name
    }

    fn identity_address(&self) -> (address: u16)
        ensures
            address == self.address,
    {
        self.address
    }

    fn shutdown(&mut self)
        ensures
            final(self)@ == old(self)@.after_shutdown(),
    {
        if let Some(port) = &mut self.transport {
            port.shutdown();
        }
    }
}

/// The keyboard's registers: offset 0 is read for input, offset 1 is the latch; a write at offset 0
/// does nothing.
pub proof fn registers(d: KeyboardView, value: u8)
    ensures
        d.read_value(0) == d.input.data(),
        d.after_read(0) == (KeyboardView { input: d.input.after_read_data(), ..d }),
        d.read_value(1) == d.input.data(),
        d.after_read(1) == (KeyboardView { input: d.input.after_read_latch(), ..d }),
        d.peek_value(0) == d.input.data(),
        d.peek_value(1) == d.input.latch,
        d.after_write(0, value) == d,
        d.after_write(1, value) == (KeyboardView {
            input: d.input.after_write_latch(value),
            ..d
        }),
{
}

/// A tick takes everything that has arrived, oldest first.
pub proof fn tick_takes_input(d: KeyboardView)
    requires
        d.port is Some,
    ensures
        d.after_tick().input == d.input.pushed_all(d.port.unwrap().inbound),
        d.after_tick().port.unwrap().inbound.len() == 0,
{
}

} // verus!
