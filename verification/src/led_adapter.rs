//! An RGB LED matrix display adapter.
//!
//! The parallel bus interface of an RGB LED matrix display unit that is managed by a
//! microcontroller. The display unit buffers the image and refreshes the display; this adapter
//! provides the registers through which the 6502 conveys parameters and commands to it.
//!
//! | Offset | Mnemonic  | Description                                          |
//! |--------|-----------|------------------------------------------------------|
//! |   0x0  | X         | X coordinate, below the display's width              |
//! |   0x1  | Y         | Y coordinate, below the display's height             |
//! |   0x2  | WIDTH     | Width, below the display's width                     |
//! |   0x3  | HEIGHT    | Height, below the display's height                   |
//! |   0x4  | COLOR     | Color palette index                                  |
//! |   0x5  | IFR       | Interrupt flags: `IRQ READY BLIT FILL 0 0 0 0`       |
//! |   0x6  | IER       | Interrupt enables: `1 READY BLIT FILL 0 0 0 0`       |
//! |   0x7  | CMD/DATA  | Command and data register                            |
//!
//! A flag other than IRQ is cleared by writing a one in its position to the IFR. Writing the IER
//! with bit 7 set sets the enables that are ones, and with bit 7 clear clears them. The IRQ signal
//! is asserted while any flag is set that is enabled.
//!
//! A write of CMD/DATA clears READY. BLIT and BLIT_ALL also clear the BLIT flag, and announce data
//! bytes that are no commands; FILL and FILL_ALL also clear the FILL flag.
//!
//! Each register write is sent to the display over the transport as `offset` `value`. A display
//! that connects is sent all registers. Each byte that it sends raises the flags that are set in
//! it.

use crate::address::AddressRange;
use crate::device::IoDevice;
use crate::logging::{LogCategory, LogLevel, LogRecord, LogRecordView, LogSender};
use crate::text::append_hex4;
use crate::transport;
use crate::transport::{PortView, TransportEvent, TransportPort};
use vstd::prelude::*;

verus! {

pub const IFR_IRQ: u8 = 0b1000_0000;

pub const IFR_READY: u8 = 0b0100_0000;

pub const IFR_BLIT: u8 = 0b0010_0000;

pub const IFR_FILL: u8 = 0b0001_0000;

pub const IFR_MASK: u8 = 0b0111_0000;

pub const WIDTH_IN_PIXELS: u32 = 64;

pub const HEIGHT_IN_PIXELS: u32 = 64;

pub const COMMAND_BLIT: u8 = 4;

pub const COMMAND_BLIT_ALL: u8 = 5;

pub const COMMAND_FILL: u8 = 6;

pub const COMMAND_FILL_ALL: u8 = 7;

/// An RGB LED matrix display adapter.
pub struct LedMatrix {
    pub name: &'static str,
    pub address_range: AddressRange,
    pub transport: Option<TransportPort<TransportEvent>>,
    pub x: u8,
    pub y: u8,
    pub width: u8,
    pub height: u8,
    pub color: u8,
    pub ifr: u8,
    pub ier: u8,
    pub cmd_data: u8,
    /// The display that is connected.
    pub connection_tag: Option<u8>,
    pub blit_bytes_remaining: u32,
    pub log_sender: LogSender,
}

/// An adapter, seen through its transport and its log.
#[verifier::ext_equal]
pub ghost struct LedAdapterView {
    pub name: Seq<char>,
    pub address_range: AddressRange,
    pub port: Option<PortView<TransportEvent>>,
    pub x: u8,
    pub y: u8,
    pub width: u8,
    pub height: u8,
    pub color: u8,
    pub ifr: u8,
    pub ier: u8,
    pub cmd_data: u8,
    pub connection_tag: Option<u8>,
    pub blit_bytes_remaining: u32,
    pub log_capacity: usize,
    pub log: Seq<LogRecordView>,
}

impl View for LedMatrix {
    type V = LedAdapterView;

    open spec fn view(&self) -> LedAdapterView {
        LedAdapterView {
            name: self.name@,
            address_range: self.address_range,
            port: transport::view_of(self.transport),
            x: self.x,
            y: self.y,
            width: self.width,
            height: self.height,
            color: self.color,
            ifr: self.ifr,
            ier: self.ier,
            cmd_data: self.cmd_data,
            connection_tag: self.connection_tag,
            blit_bytes_remaining: self.blit_bytes_remaining,
            log_capacity: self.log_sender.capacity,
            log: self.log_sender@,
        }
    }
}

/// Interrupt flags with the IRQ flag set if any flag is.
pub open spec fn with_irq(flags: u8) -> u8 {
    if flags != 0 {
        flags | IFR_IRQ
    } else {
        flags
    }
}

/// Interrupt flags after those that are ones in `value` were cleared.
pub open spec fn flags_cleared(ifr: u8, value: u8) -> u8 {
    with_irq(ifr & (!(value & IFR_MASK) & IFR_MASK))
}

/// Interrupt flags after those that are ones in `value` were raised.
pub open spec fn flags_raised(ifr: u8, value: u8) -> u8 {
    with_irq(ifr | (value & IFR_MASK))
}

/// Interrupt enables after a write of `value`: bit 7 tells whether the ones are set or cleared.
pub open spec fn enables_written(ier: u8, value: u8) -> u8 {
    if value & IFR_IRQ != 0 {
        ier | (value & IFR_MASK)
    } else {
        ier & !(value & IFR_MASK)
    }
}

impl LedAdapterView {
    /// The adapter after a register was sent to the display.
    pub open spec fn register_sent(self, offset: u8, value: u8) -> Self {
        LedAdapterView {
            port: match self.port {
                Some(port) => Some(port.sent(seq![offset, value])),
                None => None,
            },
            ..self
        }
    }

    /// Every register, as the display is sent them when it connects.
    pub open spec fn register_dump(self) -> Seq<u8> {
        seq![
            0u8,
            self.x,
            1u8,
            self.y,
            2u8,
            self.width,
            3u8,
            self.height,
            4u8,
            self.color,
            5u8,
            self.ifr,
            6u8,
            self.ier,
            7u8,
            self.cmd_data,
        ]
    }

    /// What a read or a peek at `offset` shows.
    pub open spec fn value_at(self, offset: int) -> u8 {
        if offset == 0 {
            self.x
        } else if offset == 1 {
            self.y
        } else if offset == 2 {
            self.width
        } else if offset == 3 {
            self.height
        } else if offset == 4 {
            self.color
        } else if offset == 5 {
            self.ifr
        } else if offset == 6 {
            self.ier | IFR_IRQ
        } else if offset == 7 {
            self.cmd_data
        } else {
            0xFF
        }
    }

    /// Whether the adapter interrupts: a flag is raised that is enabled.
    pub open spec fn irq(self) -> bool {
        self.ifr & self.ier != 0
    }

    /// The data bytes that are awaited after `value` was written to CMD/DATA.
    pub open spec fn bytes_awaited(self, value: u8) -> u32 {
        if self.blit_bytes_remaining > 0 {
            (self.blit_bytes_remaining - 1) as u32
        } else if value == COMMAND_BLIT {
            (self.width * self.height) as u32
        } else if value == COMMAND_BLIT_ALL {
            (WIDTH_IN_PIXELS * HEIGHT_IN_PIXELS) as u32
        } else {
            0
        }
    }

    /// The flags that a write of `value` to CMD/DATA clears.
    pub open spec fn command_clears(self, value: u8) -> u8 {
        if self.blit_bytes_remaining > 0 {
            IFR_READY
        } else if value == COMMAND_BLIT || value == COMMAND_BLIT_ALL {
            IFR_READY | IFR_BLIT
        } else if value == COMMAND_FILL || value == COMMAND_FILL_ALL {
            IFR_READY | IFR_FILL
        } else {
            IFR_READY
        }
    }

    /// The adapter after a write at `offset`.
    pub open spec fn after_write(self, offset: int, value: u8) -> Self {
        let cut = (value % 64) as u8;
        if offset == 0 {
            LedAdapterView { x: cut, ..self }.register_sent(0, cut)
        } else if offset == 1 {
            LedAdapterView { y: cut, ..self }.register_sent(1, cut)
        } else if offset == 2 {
            LedAdapterView { width: cut, ..self }.register_sent(2, cut)
        } else if offset == 3 {
            LedAdapterView { height: cut, ..self }.register_sent(3, cut)
        } else if offset == 4 {
            LedAdapterView { color: value, ..self }.register_sent(4, value)
        } else if offset == 5 {
            let ifr = flags_cleared(self.ifr, value);
            LedAdapterView { ifr, ..self }.register_sent(5, ifr)
        } else if offset == 6 {
            let ier = enables_written(self.ier, value);
            LedAdapterView { ier, ..self }.register_sent(6, ier)
        } else if offset == 7 {
            LedAdapterView {
                cmd_data: value,
                blit_bytes_remaining: self.bytes_awaited(value),
                ifr: flags_cleared(self.ifr, self.command_clears(value)),
                ..self
            }.register_sent(7, value)
        } else {
            self
        }
    }

    /// The adapter after an event of its transport. Only the display that connected last is heard.
    pub open spec fn after_event(self, event: TransportEvent) -> Self {
        match event {
            TransportEvent::Connected(tag) => LedAdapterView {
                connection_tag: Some(tag),
                port: match self.port {
                    Some(port) => Some(port.sent(self.register_dump())),
                    None => None,
                },
                ..self
            },
            TransportEvent::Disconnected(tag) => if self.connection_tag == Some(tag) {
                LedAdapterView { connection_tag: None, ..self }
            } else {
                self
            },
            TransportEvent::Data(tag, value) => if self.connection_tag == Some(tag) {
                LedAdapterView { ifr: flags_raised(self.ifr, value), ..self }
            } else {
                self
            },
        }
    }

    /// The adapter after everything that has arrived was handled in order.
    pub open spec fn polled(self) -> Self
        decreases self.port.unwrap().inbound.len(),
    {
        if self.port is Some && self.port.unwrap().inbound.len() > 0 {
            let port = self.port.unwrap();
            LedAdapterView { port: Some(port.taken()), ..self }.after_event(
                port.inbound[0],
            ).polled()
        } else {
            self
        }
    }

    /// The adapter after a reset.
    pub open spec fn after_reset(self) -> Self {
        LedAdapterView {
            blit_bytes_remaining: 0,
            log: crate::logging::after_log(
                self.log,
                self.log_capacity as nat,
                LogRecordView {
                    level: LogLevel::Info,
                    category: LogCategory::Device,
                    message: self.name + " @0x"@ + crate::text::hex4(
                        self.address_range.start as nat,
                    ) + " reset"@,
                },
            ),
            ..self
        }
    }
}

impl LedMatrix {
    /// Creates an adapter with no transport attached.
    pub fn new(name: &'static str, address_range: AddressRange) -> (d: Self)
        ensures
            d@ == (LedAdapterView {
                name: name@,
                address_range,
                port: None,
                x: 0,
                y: 0,
                width: 0,
                height: 0,
                color: 0,
                ifr: 0,
                ier: 0,
                cmd_data: 0,
                connection_tag: None,
                blit_bytes_remaining: 0,
                log_capacity: 0,
                log: Seq::empty(),
            }),
    {
        LedMatrix {
            name,
            address_range,
            transport: None,
            x: 0,
            y: 0,
            width: 0,
            height: 0,
            color: 0,
            ifr: 0,
            ier: 0,
            cmd_data: 0,
            connection_tag: None,
            blit_bytes_remaining: 0,
            log_sender: LogSender::default(),
        }
    }

    /// Attaches a transport for byte-stream I/O.
    pub fn attach_transport(&mut self, transport: TransportPort<TransportEvent>)
        ensures
            final(self)@ == (LedAdapterView { port: Some(transport@), ..old(self)@ }),
    {
        self.transport = Some(transport);
    }

    /// Installs a sink for diagnostic messages (e.g. `reset()`).
    pub fn set_log_sender(&mut self, sender: LogSender)
        ensures
            final(self)@ == (LedAdapterView {
                log_capacity: sender.capacity,
                log: sender@,
                ..old(self)@
            }),
    {
        self.log_sender = sender;
    }

    /// Clears the interrupt flags that are ones in `value`.
    pub fn write_ifr(&mut self, value: u8)
        ensures
            final(self)@ == (LedAdapterView {
                ifr: flags_cleared(old(self)@.ifr, value),
                ..old(self)@
            }),
    {
        self.ifr = self.ifr & (!(value & IFR_MASK) & IFR_MASK);
        if self.ifr != 0 {
            self.ifr = self.ifr | IFR_IRQ;
        }
    }

    /// Sets or clears the interrupt enables that are ones in `value`.
    pub fn write_ier(&mut self, value: u8)
        ensures
            final(self)@ == (LedAdapterView {
                ier: enables_written(old(self)@.ier, value),
                ..old(self)@
            }),
    {
        let mask: u8 = value & IFR_MASK;
        if value & IFR_IRQ != 0 {
            self.ier = self.ier | mask;
        } else {
            self.ier = self.ier & !mask;
        }
    }

    /// Handles everything that has arrived from the display.
    pub fn poll_transport(&mut self)
        ensures
            final(self)@ == old(self)@.polled(),
    {
        if self.transport.is_none() {
            return ;
        }
        loop
            invariant
                self@.port is Some,
                self@.polled() == old(self)@.polled(),
            decreases self@.port.unwrap().inbound.len(),
        {
            let ghost before = self@;
            let next = match &mut self.transport {
                Some(port) => port.try_recv(),
                None => None,
            };
            let event = match next {
                Some(event) => event,
                None => {
                    return ;
                },
            };
            let ghost taken = LedAdapterView {
                port: Some(before.port.unwrap().taken()),
                ..before
            };
            assert(self@ =~= taken);
            match event {
                TransportEvent::Connected(tag) => {
                    self.send_registers();
                    self.connection_tag = Some(tag);
                },
                TransportEvent::Disconnected(tag) => {
                    if self.is_connected_to(tag) {
                        self.connection_tag = None;
                    }
                },
                TransportEvent::Data(tag, value) => {
                    if self.is_connected_to(tag) {
                        self.ifr = self.ifr | (value & IFR_MASK);
                        if self.ifr != 0 {
                            self.ifr = self.ifr | IFR_IRQ;
                        }
                    }
                },
            }
            assert(self@ =~= taken.after_event(event));
        }
    }

    fn is_connected_to(&self, tag: u8) -> (connected: bool)
        ensures
            connected == (self@.connection_tag == Some(tag)),
    {
        match self.connection_tag {
            Some(connection_tag) => connection_tag == tag,
            None => false,
        }
    }

    fn send_registers(&mut self)
        ensures
            final(self)@ == (LedAdapterView {
                port: match old(self)@.port {
                    Some(port) => Some(port.sent(old(self)@.register_dump())),
                    None => None,
                },
                ..old(self)@
            }),
    {
        let dump = [
            0,
            self.x,
            1,
            self.y,
            2,
            self.width,
            3,
            self.height,
            4,
            self.color,
            5,
            self.ifr,
            6,
            self.ier,
            7,
            self.cmd_data,
        ];
        assert(dump@ =~= self@.register_dump());
        if let Some(port) = &mut self.transport {
            port.send_bytes(&dump);
        }
    }

    /// Sends one register to the display.
    pub fn send_register(&mut self, offset: u8, value: u8)
        ensures
            final(self)@ == old(self)@.register_sent(offset, value),
    {
        let message = [offset, value];
        assert(message@ =~= seq![offset, value]);
        if let Some(port) = &mut self.transport {
            port.send_bytes(&message);
        }
    }

    fn write_cmd_data(&mut self, value: u8)
        ensures
            final(self)@ == old(self)@.after_write(7, value),
    {
        self.cmd_data = value;
        let clears: u8 = if self.blit_bytes_remaining > 0 {
            self.blit_bytes_remaining = self.blit_bytes_remaining - 1;
            IFR_READY
        } else {
            match value {
                COMMAND_BLIT => {
                    assert(0 <= self.width * self.height <= 255 * 255) by (nonlinear_arith)
                        requires
                            self.width <= 255,
                            self.height <= 255,
                    ;
                    self.blit_bytes_remaining = self.width as u32 * self.height as u32;
                    IFR_READY | IFR_BLIT
                },
                COMMAND_BLIT_ALL => {
                    self.blit_bytes_remaining = WIDTH_IN_PIXELS * HEIGHT_IN_PIXELS;
                    IFR_READY | IFR_BLIT
                },
                COMMAND_FILL | COMMAND_FILL_ALL => IFR_READY | IFR_FILL,
                _ => IFR_READY,
            }
        };
        self.write_ifr(clears);
        self.send_register(7, value);
    }
}

impl IoDevice for LedMatrix {
    open spec fn wf(&self) -> bool {
        true
    }

    open spec fn mapped_at(&self, address: u16) -> bool {
        address >= self.address_range.start
    }

    open spec fn can_tick(&self, cycles: u32) -> bool {
        true
    }

    open spec fn written(before: Self, after: Self, address: u16, value: u8) -> bool {
        after@ == before@.after_write((address - before@.address_range.start) % 256, value)
    }

    fn read(&mut self, address: u16) -> (value: u8)
        ensures
            value == old(self)@.value_at(address - old(self)@.address_range.start),
            final(self)@ == old(self)@,
    {
        self.peek(address)
    }

    fn write(&mut self, address: u16, value: u8)
        ensures
            final(self)@ == old(self)@.after_write(
                (address - old(self)@.address_range.start) % 256,
                value,
            ),
    {
        let offset: u16 = (address - self.address_range.start) % 256;
        let cut: u8 = value % 64;
        match offset {
            0 => {
                self.x = cut;
                self.send_register(0, cut);
            },
            1 => {
                self.y = cut;
                self.send_register(1, cut);
            },
            2 => {
                self.width = cut;
                self.send_register(2, cut);
            },
            3 => {
                self.height = cut;
                self.send_register(3, cut);
            },
            4 => {
                self.color = value;
                self.send_register(4, value);
            },
            5 => {
                self.write_ifr(value);
                self.send_register(5, self.ifr);
            },
            6 => {
                self.write_ier(value);
                self.send_register(6, self.ier);
            },
            7 => {
                self.write_cmd_data(value);
            },
            _ => {},
        }
    }

    fn peek(&self, address: u16) -> (value: u8)
        ensures
            value == self@.value_at(address - self@.address_range.start),
    {
        let offset: u16 = address - self.address_range.start;
        match offset {
            0 => self.x,
            1 => self.y,
            2 => self.width,
            3 => self.height,
            4 => self.color,
            5 => self.ifr,
            6 => self.ier | IFR_IRQ,
            7 => self.cmd_data,
            _ => 0xFF,
        }
    }

    fn patch(&mut self, address: u16, value: u8)
        ensures
            final(self)@ == old(self)@.after_write(
                (address - old(self)@.address_range.start) % 256,
                value,
            ),
    {
        self.write(address, value);
    }

    fn claims(&self, addr: u16) -> (claimed: bool)
        ensures
            claimed == self.address_range.holds(addr),
    {
        self.address_range.contains(addr)
    }

    fn tick(&mut self, cycles: u32)
        ensures
            final(self)@ == old(self)@.polled(),
    {
        self.poll_transport();
    }

    fn reset(&mut self)
        ensures
            final(self)@ == old(self)@.after_reset(),
    {
        self.blit_bytes_remaining = 0;
        let mut message = String::from_str(self.name);
        message.append(" @0x");
        append_hex4(&mut message, self.address_range.start as u32);
        message.append(" reset");
        self.log_sender.log(
            LogRecord { level: LogLevel::Info, category: LogCategory::Device, message },
        );
    }

    fn irq_active(&self) -> (active: bool)
        ensures
            active == self@.irq(),
    {
        self.ifr & self.ier != 0
    }

    fn name(&self) -> (name: &str)
        ensures
            name@ == self.name@,
    {
        self.name
    }

    fn identity_address(&self) -> (address: u16)
        ensures
            address == self.address_range.start,
    {
        self.address_range.start
    }

    fn shutdown(&mut self)
        ensures
            final(self)@ == (LedAdapterView {
                port: match old(self)@.port {
                    Some(port) => Some(port.closed()),
                    None => None,
                },
                ..old(self)@
            }),
    {
        if let Some(port) = &mut self.transport {
            port.shutdown();
        }
    }
}

/// Clearing flags clears those and no others, and the IRQ flag is set exactly if a flag is left.
pub proof fn clearing_flags(ifr: u8, value: u8)
    by (bit_vector)
    ensures
        flags_cleared(ifr, value) & IFR_MASK == (ifr & IFR_MASK) & !value,
        flags_cleared(ifr, value) & IFR_IRQ != 0 <==> flags_cleared(ifr, value) & IFR_MASK != 0,
        flags_cleared(ifr, value) & 0b0000_1111 == 0,
{
}

/// Writing the enables leaves every enable alone that is not a one, and can set no other bit.
pub proof fn writing_enables(ier: u8, value: u8)
    by (bit_vector)
    ensures
        enables_written(ier, value) & !value == ier & !value,
        value & IFR_IRQ != 0 ==> enables_written(ier, value) & (value & IFR_MASK) == value & IFR_MASK,
        value & IFR_IRQ == 0 ==> enables_written(ier, value) & (value & IFR_MASK) == 0,
        enables_written(ier, value) & !IFR_MASK == ier & !IFR_MASK,
{
}

/// The parameter registers read back what was written, cut to the display's size but for the color;
/// so does the command and data register. The display is told each of them.
pub proof fn parameters_read_back(d: LedAdapterView, offset: int, value: u8)
    requires
        0 <= offset <= 4 || offset == 7,
    ensures
        d.after_write(offset, value).value_at(offset) == if offset < 4 {
            value % 64
        } else {
            value
        },
        d.port is Some && d.port.unwrap().fault is None ==> d.after_write(
            offset,
            value,
        ).port.unwrap().outbound == d.port.unwrap().outbound + seq![
            offset as u8,
            d.after_write(offset, value).value_at(offset),
        ],
{
}

/// A client that is not the connected display is not heard, and neither its data nor its leaving
/// changes anything.
pub proof fn strangers_are_not_heard(d: LedAdapterView, tag: u8, value: u8)
    requires
        d.connection_tag != Some(tag),
    ensures
        d.after_event(TransportEvent::Data(tag, value)) == d,
        d.after_event(TransportEvent::Disconnected(tag)) == d,
{
}

/// After a blit command the announced number of bytes are data: none of them is taken for a command,
/// and none clears another flag than READY.
pub proof fn blit_data_is_no_command(d: LedAdapterView, value: u8)
    requires
        d.blit_bytes_remaining > 0,
    ensures
        d.after_write(7, value).blit_bytes_remaining == d.blit_bytes_remaining - 1,
        d.after_write(7, value).ifr == flags_cleared(d.ifr, IFR_READY),
{
}

/// Raising flags raises those and no others, and the IRQ flag is set exactly if a flag is.
pub proof fn raising_flags(ifr: u8, value: u8)
    by (bit_vector)
    requires
        ifr & 0x0F == 0,
        ifr & 0x80 != 0 <==> ifr & 0x70 != 0,
    ensures
        flags_raised(ifr, value) & 0x70 == (ifr | value) & 0x70,
        flags_raised(ifr, value) & 0x80 != 0 <==> (ifr | value) & 0x70 != 0,
        flags_raised(ifr, value) & 0x0F == 0,
{
}

/// The registers: x, y, width, height, color, flags, enables (with bit 7 always set), and command.
pub proof fn registers_in_order(d: LedAdapterView)
    ensures
        d.value_at(0) == d.x,
        d.value_at(1) == d.y,
        d.value_at(2) == d.width,
        d.value_at(3) == d.height,
        d.value_at(4) == d.color,
        d.value_at(5) == d.ifr,
        d.value_at(6) & 0x80 != 0,
        d.value_at(6) & 0x7F == d.ier & 0x7F,
        d.value_at(7) == d.cmd_data,
        d.value_at(8) == 0xFF,
{
    let ier = d.ier;
    assert((ier | 0x80) & 0x80 != 0 && (ier | 0x80) & 0x7F == ier & 0x7F) by (bit_vector);
}

/// Each parameter register takes its own value, cut to 0..63 but for the color, and no other
/// register changes.
pub proof fn parameter_writes(d: LedAdapterView, offset: int, value: u8, other: int)
    requires
        0 <= offset <= 4,
        0 <= other <= 7,
    ensures
        other != offset ==> d.after_write(offset, value).value_at(other) == d.value_at(other),
        offset < 4 ==> d.after_write(offset, value).value_at(offset) < 64,
        offset < 4 && value < 64 ==> d.after_write(offset, value).value_at(offset) == value,
        offset < 4 && value >= 64 ==> d.after_write(offset, value).value_at(offset)
            == d.after_write(offset, (value - 64) as u8).value_at(offset),
        offset == 4 ==> d.after_write(offset, value).value_at(offset) == value,
        d.after_write(offset, value).blit_bytes_remaining == d.blit_bytes_remaining,
{
}

/// A blit command (4) announces one byte for each pixel of the window, and one of the whole display
/// (5) 64 by 64 bytes; both clear the READY and BLIT flags. A fill (6, 7) announces none and clears
/// the READY and FILL flags. Any other command clears the READY flag alone.
pub proof fn commands(d: LedAdapterView, value: u8)
    requires
        d.blit_bytes_remaining == 0,
    ensures
        ({
            let after = d.after_write(7, value);
            &&& after.cmd_data == value
            &&& value == 4 ==> after.blit_bytes_remaining == d.width * d.height
            &&& value == 5 ==> after.blit_bytes_remaining == 4096
            &&& value != 4 && value != 5 ==> after.blit_bytes_remaining == 0
            &&& value == 4 || value == 5 ==> after.ifr & 0x70 == d.ifr & 0x10
            &&& value == 6 || value == 7 ==> after.ifr & 0x70 == d.ifr & 0x20
            &&& value < 4 || value > 7 ==> after.ifr & 0x70 == d.ifr & 0x30
            &&& after.x == d.x && after.y == d.y && after.width == d.width && after.height
                == d.height && after.color == d.color && after.ier == d.ier
        }),
{
    let ifr = d.ifr;
    assert(0 <= d.width * d.height <= 255 * 255) by (nonlinear_arith)
        requires
            0 <= d.width <= 255,
            0 <= d.height <= 255,
    ;
    clearing_flags(ifr, IFR_READY);
    clearing_flags(ifr, IFR_READY | IFR_BLIT);
    clearing_flags(ifr, IFR_READY | IFR_FILL);
    assert((ifr & 0x70) & !(0x40u8 | 0x20) == ifr & 0x10 && (ifr & 0x70) & !(0x40u8 | 0x10) == ifr
        & 0x20 && (ifr & 0x70) & !0x40u8 == ifr & 0x30) by (bit_vector);
}

/// A display that connects is the one that is heard from then on, and is told all eight registers,
/// each by its number and its value.
pub proof fn connection_tells_registers(d: LedAdapterView, tag: u8, i: int)
    requires
        d.port is Some,
        d.port.unwrap().fault is None,
        0 <= i < 8,
    ensures
        ({
            let after = d.after_event(TransportEvent::Connected(tag));
            let sent = after.port.unwrap().outbound;
            let before = d.port.unwrap().outbound;
            &&& after.connection_tag == Some(tag)
            &&& sent.len() == before.len() + 16
            &&& sent.take(before.len() as int) == before
            &&& sent[before.len() + 2 * i] == i
            &&& i != 6 ==> sent[before.len() + 2 * i + 1] == d.value_at(i)
            &&& i == 6 ==> sent[before.len() + 2 * i + 1] == d.ier
        }),
{
    let sent = d.after_event(TransportEvent::Connected(tag)).port.unwrap().outbound;
    assert(sent.take(d.port.unwrap().outbound.len() as int) =~= d.port.unwrap().outbound);
}

/// The connected display raises the flags that are ones in what it sends, and is forgotten when it
/// disconnects.
pub proof fn display_is_heard(d: LedAdapterView, tag: u8, value: u8)
    requires
        d.connection_tag == Some(tag),
    ensures
        d.after_event(TransportEvent::Data(tag, value)).ifr == flags_raised(d.ifr, value),
        d.after_event(TransportEvent::Data(tag, value)).connection_tag == Some(tag),
        d.after_event(TransportEvent::Disconnected(tag)).connection_tag is None,
        d.after_event(TransportEvent::Disconnected(tag)).ifr == d.ifr,
{
}

/// Flags and enables are cleared and set by their registers, and the display is told the result.
pub proof fn flag_and_enable_writes(d: LedAdapterView, value: u8)
    ensures
        d.after_write(5, value).ifr == flags_cleared(d.ifr, value),
        d.after_write(5, value).ier == d.ier,
        d.after_write(6, value).ier == enables_written(d.ier, value),
        d.after_write(6, value).ifr == d.ifr,
        d.port is Some && d.port.unwrap().fault is None ==> {
            &&& d.after_write(5, value).port.unwrap().outbound == d.port.unwrap().outbound + seq![
                5u8,
                d.after_write(5, value).ifr,
            ]
            &&& d.after_write(6, value).port.unwrap().outbound == d.port.unwrap().outbound + seq![
                6u8,
                d.after_write(6, value).ier,
            ]
        },
{
}

/// The adapter interrupts exactly if one of READY, BLIT and FILL is both raised and enabled.
pub proof fn enabled_flags_interrupt(d: LedAdapterView)
    requires
        d.ier & 0x8F == 0,
    ensures
        d.irq() <==> (d.ifr & 0x40 != 0 && d.ier & 0x40 != 0) || (d.ifr & 0x20 != 0 && d.ier & 0x20
            != 0) || (d.ifr & 0x10 != 0 && d.ier & 0x10 != 0),
{
    let ifr = d.ifr;
    let ier = d.ier;
    assert(ifr & ier != 0 <==> (ifr & 0x40 != 0 && ier & 0x40 != 0) || (ifr & 0x20 != 0 && ier & 0x20
        != 0) || (ifr & 0x10 != 0 && ier & 0x10 != 0)) by (bit_vector)
        requires
            ier & 0x8F == 0,
    ;
}

} // verus!
