//! Rockwell R6551 Asynchronous Communications Interface Adapter (ACIA).
//!
//! | Offset | Read              | Write                            |
//! |--------|-------------------|----------------------------------|
//! | 0      | RX Data Register  | TX Data Register                 |
//! | 1      | Status Register   | Programmed Reset (any value)     |
//! | 2      | Command Register  | Command Register                 |
//! | 3      | Control Register  | Control Register                 |
//!
//! Status register: bit 7 is IRQ, bit 4 TDRE (transmit data register empty), bit 3 RDRF (receive
//! data register full), bit 2 OVRN (overrun).
//!
//! Command register: bit 0 is DTR, without which nothing is received; bit 1 disables the RX
//! interrupt; bits 3-2 are the transmit interrupt control, where `01` enables the TX interrupt.
//!
//! Control register: bit 4 selects the internal receiver clock, whose baud rate bits 3-0 select.
//!
//! TX is immediate: bytes are sent to the transport on write. RX is timer-driven: `tick()` polls the
//! transport once per byte period at the configured baud rate, or on every call when using the
//! external clock (default).
//!
//! TDRE clears when a byte is written to the TX register and is restored after one byte period worth
//! of cycles, or on the next `tick()` with the external clock. The WDC 65C51 has a silicon bug that
//! leaves TDRE permanently set; [`R6551::with_tdre_bug`] selects that behaviour.

use crate::baud;
use crate::device;
use crate::device::{DeviceId, ErrorSender, IoDevice};
use crate::error_reporter;
use crate::error_reporter::{report, ErrorReporter, ReporterView};
use crate::transport;
use crate::transport::{PortView, TransportPort};
use vstd::prelude::*;

verus! {

pub const DEFAULT_CLOCK_HZ: u64 = 1_000_000;

pub const RX_IRQ_ENABLE: u8 = 0x2;

pub const TX_IRQ_ENABLE: u8 = 0x4;

/// Rockwell R6551 ACIA (Asynchronous Communications Interface Adapter).
pub struct R6551 {
    pub name: &'static str,
    pub address: u16,
    pub transport: Option<TransportPort<u8>>,
    pub error_reporter: Option<ErrorReporter>,
    pub rx_data: u8,
    pub rdrf: bool,
    pub tdre: bool,
    pub overrun: bool,
    pub command: u8,
    pub control: u8,
    pub cycle_accum: u32,
    /// Cycles between two polls of the transport; zero stands for the external clock.
    pub cycles_per_byte: u32,
    pub tdre_bug_compatible: bool,
    pub tx_cycles_remaining: u32,
    pub clock_hz: u64,
    pub overrun_enabled: bool,
}

/// An R6551, seen through its transport and its reporter.
#[verifier::ext_equal]
pub ghost struct R6551View {
    pub name: Seq<char>,
    pub address: u16,
    pub port: Option<PortView<u8>>,
    pub reporter: Option<ReporterView>,
    pub rx_data: u8,
    pub rdrf: bool,
    pub tdre: bool,
    pub overrun: bool,
    pub command: u8,
    pub control: u8,
    pub cycle_accum: u32,
    pub cycles_per_byte: u32,
    pub tdre_bug_compatible: bool,
    pub tx_cycles_remaining: u32,
    pub clock_hz: u64,
    pub overrun_enabled: bool,
}

impl View for R6551 {
    type V = R6551View;

    open spec fn view(&self) -> R6551View {
        R6551View {
            name: self.name@,
            address: self.address,
            port: transport::view_of(self.transport),
            reporter: error_reporter::view_of(self.error_reporter),
            rx_data: self.rx_data,
            rdrf: self.rdrf,
            tdre: self.tdre,
            overrun: self.overrun,
            command: self.command,
            control: self.control,
            cycle_accum: self.cycle_accum,
            cycles_per_byte: self.cycles_per_byte,
            tdre_bug_compatible: self.tdre_bug_compatible,
            tx_cycles_remaining: self.tx_cycles_remaining,
            clock_hz: self.clock_hz,
            overrun_enabled: self.overrun_enabled,
        }
    }
}

impl R6551View {
    /// An R6551 that was just created.
    pub open spec fn fresh(name: Seq<char>) -> Self {
        R6551View {
            name,
            address: 0,
            port: None,
            reporter: None,
            rx_data: 0,
            rdrf: false,
            tdre: true,
            overrun: false,
            command: 0,
            control: 0,
            cycle_accum: 0,
            cycles_per_byte: 0,
            tdre_bug_compatible: false,
            tx_cycles_remaining: 0,
            clock_hz: DEFAULT_CLOCK_HZ,
            overrun_enabled: false,
        }
    }

    /// The bug leaves TDRE set, less than one byte period is ever outstanding, and ten times the
    /// clock frequency can be represented.
    pub open spec fn wf(self) -> bool {
        &&& self.tdre_bug_compatible ==> self.tdre
        &&& self.cycles_per_byte > 0 ==> self.cycle_accum < self.cycles_per_byte
        &&& self.clock_hz * 10 <= u64::MAX
    }

    /// Whether the receiver is enabled: the DTR bit of the command register.
    pub open spec fn rx_on(self) -> bool {
        self.command % 2 == 1
    }

    /// Whether a full receive register interrupts.
    pub open spec fn rx_irq(self) -> bool {
        self.rx_on() && self.command / 2 % 2 == 0
    }

    /// Whether an empty transmit register interrupts.
    pub open spec fn tx_irq(self) -> bool {
        self.command / 4 % 4 == 1
    }

    pub open spec fn irq(self) -> bool {
        self.rdrf && self.rx_irq() || self.tdre && self.tx_irq()
    }

    /// The status register.
    pub open spec fn status(self) -> u8 {
        ((if self.irq() { 0x80int } else { 0 }) + (if self.tdre { 0x10int } else { 0 }) + (
        if self.rdrf { 0x08int } else { 0 }) + (if self.overrun { 0x04int } else { 0 })) as u8
    }

    /// What a read or a peek at `offset` shows.
    pub open spec fn value_at(self, offset: int) -> u8 {
        if offset == 0 {
            self.rx_data
        } else if offset == 1 {
            self.status()
        } else if offset == 2 {
            self.command
        } else if offset == 3 {
            self.control
        } else {
            0
        }
    }

    /// The device after a read at `offset`: reading the data frees the receive register.
    pub open spec fn after_read(self, offset: int) -> Self {
        if offset == 0 {
            R6551View { rdrf: false, overrun: false, ..self }
        } else {
            self
        }
    }

    /// The device after it has sent `value`, reporting the error of a transport that refuses it.
    pub open spec fn sent(self, value: u8) -> Self {
        match self.port {
            Some(port) => R6551View {
                port: Some(port.sent(seq![value])),
                reporter: match port.refusal() {
                    Some(error) => error_reporter::after_report(self.reporter, error),
                    None => self.reporter,
                },
                ..self
            },
            None => self,
        }
    }

    /// The device after a write at `offset`.
    pub open spec fn after_write(self, offset: int, value: u8) -> Self {
        if offset == 0 {
            if self.tdre_bug_compatible {
                self.sent(value)
            } else {
                R6551View {
                    tdre: false,
                    tx_cycles_remaining: if self.cycles_per_byte > 0 {
                        self.cycles_per_byte
                    } else {
                        1
                    },
                    ..self.sent(value)
                }
            }
        } else if offset == 1 {
            R6551View { overrun: false, ..self }
        } else if offset == 2 {
            R6551View { command: value, ..self }
        } else if offset == 3 {
            R6551View {
                control: value,
                cycles_per_byte: baud::byte_period(value, self.clock_hz) as u32,
                cycle_accum: 0,
                ..self
            }
        } else {
            self
        }
    }

    /// The device after it has polled its transport for one byte. A byte that meets a full receive
    /// register overruns it where that is allowed, and stays with the transport where it is not.
    pub open spec fn polled(self, allow_overrun: bool) -> Self {
        if self.rx_on() && (!self.rdrf || allow_overrun) && self.port is Some
            && self.port.unwrap().inbound.len() > 0 {
            R6551View {
                port: Some(self.port.unwrap().taken()),
                overrun: self.overrun || self.rdrf,
                rx_data: self.port.unwrap().inbound[0],
                rdrf: true,
                ..self
            }
        } else {
            self
        }
    }

    /// The device after it has polled its transport `n` times.
    pub open spec fn polled_times(self, n: nat, allow_overrun: bool) -> Self
        decreases n,
    {
        if n == 0 {
            self
        } else {
            self.polled(allow_overrun).polled_times((n - 1) as nat, allow_overrun)
        }
    }

    /// The transmitter after `cycles` clock cycles.
    pub open spec fn transmitted(self, cycles: u32) -> Self {
        if self.tdre || self.tdre_bug_compatible {
            self
        } else if cycles >= self.tx_cycles_remaining {
            R6551View { tx_cycles_remaining: 0, tdre: true, ..self }
        } else {
            R6551View {
                tx_cycles_remaining: (self.tx_cycles_remaining - cycles) as u32,
                ..self
            }
        }
    }

    /// The receiver after `cycles` clock cycles: one poll with the external clock, and one for every
    /// byte period that was completed with the internal clock.
    pub open spec fn received(self, cycles: u32) -> Self {
        if self.cycles_per_byte == 0 {
            self.polled(false)
        } else {
            let elapsed = (self.cycle_accum + cycles) as nat;
            let period = self.cycles_per_byte as nat;
            R6551View { cycle_accum: (elapsed % period) as u32, ..self }.polled_times(
                elapsed / period,
                self.overrun_enabled,
            )
        }
    }

    /// The device after `cycles` clock cycles.
    pub open spec fn after_tick(self, cycles: u32) -> Self {
        self.transmitted(cycles).received(cycles)
    }

    /// The device after a reset: as new, but for its place on the bus, its transport, its reporter
    /// and its configuration.
    pub open spec fn after_reset(self) -> Self {
        R6551View {
            address: self.address,
            port: self.port,
            reporter: self.reporter,
            clock_hz: self.clock_hz,
            tdre_bug_compatible: self.tdre_bug_compatible,
            overrun_enabled: self.overrun_enabled,
            ..R6551View::fresh(self.name)
        }
    }

    /// The bytes that the CPU has yet to read, oldest first.
    pub open spec fn unread(self) -> Seq<u8> {
        (if self.rdrf {
            seq![self.rx_data]
        } else {
            Seq::empty()
        }) + (match self.port {
            Some(port) => port.inbound,
            None => Seq::empty(),
        })
    }
}

impl R6551 {
    /// Creates a new `R6551` in correct (non-bug-compatible) mode with TDRE set.
    ///
    /// The default CPU clock is 1 MHz. Use [`R6551::with_clock_hz`] to match the actual CPU clock
    /// speed so that baud rate timing is accurate.
    pub fn new(name: &'static str) -> (d: Self)
        ensures
            d@ == R6551View::fresh(name@),
            d.wf(),
    {
        R6551 {
            name,
            address: 0,
            transport: None,
            error_reporter: None,
            rx_data: 0,
            rdrf: false,
            tdre: true,
            overrun: false,
            command: 0,
            control: 0,
            cycle_accum: 0,
            cycles_per_byte: 0,
            tdre_bug_compatible: false,
            tx_cycles_remaining: 0,
            clock_hz: DEFAULT_CLOCK_HZ,
            overrun_enabled: false,
        }
    }

    /// Sets the CPU clock frequency used to compute baud rate timing.
    ///
    /// Only used when the control register selects internal clock mode. In external clock mode the
    /// transport is polled on every `tick()` regardless of this value.
    pub fn with_clock_hz(self, clock_hz: u64) -> (d: Self)
        ensures
            d@ == (R6551View { clock_hz, ..self@ }),
            self.wf() && clock_hz * 10 <= u64::MAX ==> d.wf(),
    {
        let mut d = self;
        d.clock_hz = clock_hz;
        d
    }

    /// Enables or disables WDC 65C51 bug-compatible mode: TDRE is permanently set and never cleared
    /// after a TX write, matching the behavior of the real hardware.
    pub fn with_tdre_bug(self, enabled: bool) -> (d: Self)
        ensures
            d@ == (R6551View {
                tdre_bug_compatible: enabled,
                tdre: self@.tdre || enabled,
                ..self@
            }),
            self.wf() ==> d.wf(),
    {
        let mut d = self;
        d.tdre_bug_compatible = enabled;
        d.tdre = d.tdre || enabled;
        d
    }

    /// Enables or disables receive overrun in internal clock mode.
    ///
    /// When enabled, a byte arriving from the transport while RDRF is already set overwrites the
    /// data register and sets the overrun flag. Has no effect in external-clock mode, where bytes
    /// are held in the transport until RDRF is cleared.
    pub fn with_overrun(self, enabled: bool) -> (d: Self)
        ensures
            d@ == (R6551View { overrun_enabled: enabled, ..self@ }),
            self.wf() ==> d.wf(),
    {
        let mut d = self;
        d.overrun_enabled = enabled;
        d
    }

    /// Sets the address at which this device is registered on the bus.
    pub fn with_address(self, address: u16) -> (d: Self)
        ensures
            d@ == (R6551View { address, ..self@ }),
            self.wf() ==> d.wf(),
    {
        let mut d = self;
        d.address = address;
        d
    }

    /// Attaches a transport for byte-stream I/O.
    pub fn attach_transport(&mut self, transport: TransportPort<u8>)
        ensures
            final(self)@ == (R6551View { port: Some(transport@), ..old(self)@ }),
            old(self).wf() ==> final(self).wf(),
    {
        self.transport = Some(transport);
    }

    /// Sets the error sender for transport event reporting.
    pub fn set_error_sender(&mut self, sender: ErrorSender, id: DeviceId)
        ensures
            final(self)@ == (R6551View { reporter: Some(ReporterView::fresh(sender, id)), ..old(self)@ }),
            old(self).wf() ==> final(self).wf(),
    {
        self.error_reporter = Some(ErrorReporter::new(sender, id));
    }

    fn status(&self) -> (s: u8)
        ensures
            s == self@.status(),
    {
        let mut s: u8 = 0;
        if self.irq_state() {
            s = s + 0x80;
        }
        if self.tdre {
            s = s + 0x10;
        }
        if self.rdrf {
            s = s + 0x08;
        }
        if self.overrun {
            s = s + 0x04;
        }
        s
    }

    fn irq_state(&self) -> (active: bool)
        ensures
            active == self@.irq(),
    {
        self.rdrf && self.rx_irq_enabled() || self.tdre && self.tx_irq_enabled()
    }

    fn rx_is_enabled(&self) -> (enabled: bool)
        ensures
            enabled == self@.rx_on(),
    {
        self.command % 2 == 1
    }

    fn rx_irq_enabled(&self) -> (enabled: bool)
        ensures
            enabled == self@.rx_irq(),
    {
        self.rx_is_enabled() && self.command / 2 % 2 == 0
    }

    fn tx_irq_enabled(&self) -> (enabled: bool)
        ensures
            enabled == self@.tx_irq(),
    {
        self.command / 4 % 4 == 1
    }

    fn poll_transport(&mut self, allow_overrun: bool)
        ensures
            final(self)@ == old(self)@.polled(allow_overrun),
    {
        if !self.rx_is_enabled() || (self.rdrf && !allow_overrun) {
            return ;
        }
        let arrived = match &mut self.transport {
            Some(port) => port.try_recv(),
            None => None,
        };
        if let Some(byte) = arrived {
            if self.rdrf {
                self.overrun = true;
            }
            self.rx_data = byte;
            self.rdrf = true;
        }
    }

    /// Returns cycles-per-byte for the given control register value and CPU clock, or 0 for external
    /// clock. Counts ten bits per byte (1 start + 8 data + 1 stop).
    pub fn compute_cycles_per_byte(control: u8, clock_hz: u64) -> (cycles: u32)
        requires
            clock_hz * 10 <= u64::MAX,
        ensures
            cycles == baud::byte_period(control, clock_hz),
    {
        baud::cycles_per_byte(control, clock_hz)
    }

    fn transmit(&mut self, value: u8)
        ensures
            final(self)@ == old(self)@.sent(value),
    {
        if let Some(port) = &mut self.transport {
            if let Err(error) = port.send(value) {
                report(error, &mut self.error_reporter);
            }
        }
    }

    fn tick_transmitter(&mut self, cycles: u32)
        ensures
            final(self)@ == old(self)@.transmitted(cycles),
    {
        if !self.tdre && !self.tdre_bug_compatible {
            if cycles >= self.tx_cycles_remaining {
                self.tx_cycles_remaining = 0;
                self.tdre = true;
            } else {
                self.tx_cycles_remaining = self.tx_cycles_remaining - cycles;
            }
        }
    }

    fn tick_receiver(&mut self, cycles: u32)
        requires
            old(self).can_tick(cycles),
        ensures
            final(self)@ == old(self)@.received(cycles),
    {
        if self.cycles_per_byte == 0 {
            self.poll_transport(false);
            return ;
        }
        let ghost start = self@;
        let ghost period = self.cycles_per_byte as nat;
        let ghost allow = self.overrun_enabled;
        self.cycle_accum = self.cycle_accum + cycles;
        while self.cycle_accum >= self.cycles_per_byte
            invariant
                period == self.cycles_per_byte > 0,
                allow == self.overrun_enabled,
                with_accum(self@, self.cycle_accum as nat % period).polled_times(
                    self.cycle_accum as nat / period,
                    allow,
                ) == start.received(cycles),
            decreases self.cycle_accum,
        {
            proof {
                baud::lemma_one_period(self.cycle_accum as nat, period);
            }
            let ghost before = self@;
            self.cycle_accum = self.cycle_accum - self.cycles_per_byte;
            self.poll_transport(self.overrun_enabled);
            assert(with_accum(self@, self.cycle_accum as nat % period) =~= with_accum(
                before,
                before.cycle_accum as nat % period,
            ).polled(allow));
        }
        proof {
            vstd::arithmetic::div_mod::lemma_small_mod(self.cycle_accum as nat, period);
            vstd::arithmetic::div_mod::lemma_basic_div(self.cycle_accum as int, period as int);
            assert(with_accum(self@, self.cycle_accum as nat) =~= self@);
        }
    }

    /// The line with which a host logs a reset of this device: its name and its address.
    pub fn reset_line(&self) -> (line: String)
        ensures
            line@ == device::reset_line_text(
                self@.name,
                crate::text::digits(self@.address as nat, 10),
            ),
    {
        let mut line = String::from_str(self.name);
        line.append(" @");
        crate::text::append_digits(&mut line, self.address as u64, 10);
        line.append(" reset");
        line
    }
}

/// A device with `accum` cycles outstanding.
spec fn with_accum(d: R6551View, accum: nat) -> R6551View {
    R6551View { cycle_accum: accum as u32, ..d }
}

/// Polling does not touch what the timing and the configuration of the device are.
proof fn lemma_polls_keep(d: R6551View, n: nat, allow_overrun: bool)
    ensures
        d.polled_times(n, allow_overrun) == (R6551View {
            port: d.polled_times(n, allow_overrun).port,
            overrun: d.polled_times(n, allow_overrun).overrun,
            rx_data: d.polled_times(n, allow_overrun).rx_data,
            rdrf: d.polled_times(n, allow_overrun).rdrf,
            ..d
        }),
    decreases n,
{
    if n > 0 {
        lemma_polls_keep(d.polled(allow_overrun), (n - 1) as nat, allow_overrun);
    }
}

impl IoDevice for R6551 {
    open spec fn wf(&self) -> bool {
        self@.wf()
    }

    open spec fn mapped_at(&self, address: u16) -> bool {
        address >= self.address
    }

    open spec fn can_tick(&self, cycles: u32) -> bool {
        self.cycles_per_byte > 0 ==> self.cycle_accum + cycles <= u32::MAX
    }

    open spec fn written(before: Self, after: Self, address: u16, value: u8) -> bool {
        after@ == before@.after_write(address - before@.address, value)
    }

    fn read(&mut self, address: u16) -> (value: u8)
        ensures
            value == old(self)@.value_at(address - old(self)@.address),
            final(self)@ == old(self)@.after_read(address - old(self)@.address),
    {
        let offset: u16 = address - self.address;
        match offset {
            0 => {
                self.rdrf = false;
                self.overrun = false;
                self.rx_data
            },
            1 => self.status(),
            2 => self.command,
            3 => self.control,
            _ => 0,
        }
    }

    fn write(&mut self, address: u16, value: u8)
        ensures
            final(self)@ == old(self)@.after_write(address - old(self)@.address, value),
    {
        let offset: u16 = address - self.address;
        match offset {
            0 => {
                self.transmit(value);
                if !self.tdre_bug_compatible {
                    self.tdre = false;
                    self.tx_cycles_remaining = if self.cycles_per_byte > 0 {
                        self.cycles_per_byte
                    } else {
                        1
                    };
                }
            },
            1 => {
                self.overrun = false;
            },
            2 => {
                self.command = value;
            },
            3 => {
                self.control = value;
                self.cycles_per_byte = Self::compute_cycles_per_byte(value, self.clock_hz);
                self.cycle_accum = 0;
            },
            _ => {},
        }
    }

    fn peek(&self, address: u16) -> (value: u8)
        ensures
            value == self@.value_at(address - self@.address),
    {
        let offset: u16 = address - self.address;
        match offset {
            0 => self.rx_data,
            1 => self.status(),
            2 => self.command,
            3 => self.control,
            _ => 0,
        }
    }

    fn patch(&mut self, address: u16, value: u8)
        ensures
            final(self)@ == old(self)@.after_write(address - old(self)@.address, value),
    {
        self.write(address, value);
    }

    fn tick(&mut self, cycles: u32)
        ensures
            final(self)@ == old(self)@.after_tick(cycles),
    {
        self.tick_transmitter(cycles);
        let ghost start = self@;
        self.tick_receiver(cycles);
        proof {
            if start.cycles_per_byte > 0 {
                let elapsed = (start.cycle_accum + cycles) as nat;
                let period = start.cycles_per_byte as nat;
                lemma_polls_keep(
                    R6551View { cycle_accum: (elapsed % period) as u32, ..start },
                    elapsed / period,
                    start.overrun_enabled,
                );
                vstd::arithmetic::div_mod::lemma_mod_bound(elapsed as int, period as int);
            }
        }
    }

    fn reset(&mut self)
        ensures
            final(self)@ == old(self)@.after_reset(),
    {
        self.rx_data = 0;
        self.rdrf = false;
        self.tdre = true;
        self.overrun = false;
        self.command = 0;
        self.control = 0;
        self.cycle_accum = 0;
        self.cycles_per_byte = 0;
        self.tx_cycles_remaining = 0;
    }

    fn irq_active(&self) -> (active: bool)
        ensures
            active == self@.irq(),
    {
        self.irq_state()
    }

    fn name(&self) -> (name: &str)
        ensures
            name@ == self.name@,
    {
        self.name
    }

    fn identity_address(&self) -> (address: u16)
        ensures
            address == self.address,
    {
        self.address
    }
}

/// Where overrun is impossible, nothing that arrives is lost or reordered: polling moves bytes
/// towards the CPU without changing the sequence of those that it has yet to read.
pub proof fn polls_keep_order(d: R6551View, n: nat)
    ensures
        d.polled_times(n, false).unread() == d.unread(),
        d.polled_times(n, false).overrun == d.overrun,
    decreases n,
{
    if n > 0 {
        assert(d.polled(false).unread() =~= d.unread());
        polls_keep_order(d.polled(false), (n - 1) as nat);
    }
}

/// With the external clock, or without overrun, a tick loses nothing and sets no overrun flag.
pub proof fn ticks_lose_nothing(d: R6551View, cycles: u32)
    requires
        d.cycles_per_byte == 0 || !d.overrun_enabled,
    ensures
        d.after_tick(cycles).unread() == d.unread(),
        d.after_tick(cycles).overrun == d.overrun,
{
    let t = d.transmitted(cycles);
    assert(t.unread() == d.unread());
    if d.cycles_per_byte == 0 {
        assert(t.polled_times(1, false) == t.polled(false)) by {
            reveal_with_fuel(R6551View::polled_times, 2);
        }
        polls_keep_order(t, 1);
    } else {
        let elapsed = (t.cycle_accum + cycles) as nat;
        let period = t.cycles_per_byte as nat;
        let at = R6551View { cycle_accum: (elapsed % period) as u32, ..t };
        assert(at.unread() == t.unread());
        polls_keep_order(at, elapsed / period);
    }
}

/// Reading the data register takes the oldest unread byte, if the receive register is full.
pub proof fn read_takes_oldest(d: R6551View)
    requires
        d.rdrf,
    ensures
        d.unread().len() > 0,
        d.value_at(0) == d.unread()[0],
        d.after_read(0).unread() == d.unread().skip(1),
{
    assert(d.after_read(0).unread() =~= d.unread().skip(1));
}

/// A byte that meets a full receive register where overrun is allowed overwrites the byte that was
/// there and sets the overrun flag.
pub proof fn overrun_overwrites(d: R6551View)
    requires
        d.rx_on(),
        d.rdrf,
        d.port is Some,
        d.port.unwrap().inbound.len() > 0,
    ensures
        d.polled(true).overrun,
        d.polled(true).value_at(0) == d.port.unwrap().inbound[0],
{
}

/// Nothing is received while DTR is not asserted.
pub proof fn no_receipt_without_dtr(d: R6551View, n: nat, allow_overrun: bool)
    requires
        !d.rx_on(),
    ensures
        d.polled_times(n, allow_overrun) == d,
    decreases n,
{
    if n > 0 {
        no_receipt_without_dtr(d, (n - 1) as nat, allow_overrun);
    }
}

/// TDRE clears on a TX write and is back exactly when a byte period has passed, or after one cycle
/// with the external clock.
pub proof fn tdre_returns_after_byte_period(d: R6551View, value: u8, cycles: u32)
    requires
        !d.tdre_bug_compatible,
    ensures
        !d.after_write(0, value).tdre,
        d.after_write(0, value).transmitted(cycles).tdre <==> cycles >= (if d.cycles_per_byte > 0 {
            d.cycles_per_byte
        } else {
            1
        }),
{
}

/// With the internal clock it does not matter how the passing cycles are divided into ticks.
pub proof fn ticks_add_up(d: R6551View, a: u32, b: u32)
    requires
        d.cycles_per_byte > 0,
        d.cycle_accum + a + b <= u32::MAX,
    ensures
        d.after_tick(a).after_tick(b) == d.after_tick((a + b) as u32),
{
    let period = d.cycles_per_byte as nat;
    let accum = d.cycle_accum as nat;
    let allow = d.overrun_enabled;
    let t = d.transmitted(a);
    let n1 = (accum + a) as nat / period;
    let rest1 = (accum + a) as nat % period;
    let at1 = R6551View { cycle_accum: rest1 as u32, ..t };
    let mid = at1.polled_times(n1, allow);
    assert(mid == d.after_tick(a));
    lemma_polls_keep(at1, n1, allow);
    vstd::arithmetic::div_mod::lemma_mod_bound((accum + a) as int, period as int);
    vstd::arithmetic::div_mod::lemma_mod_decreases((accum + a) as nat, period);
    let n2 = (rest1 + b) as nat / period;
    let rest2 = (rest1 + b) as nat % period;
    assert((accum + a + b) as nat / period == n1 + n2 && (accum + a + b) as nat % period == rest2)
        by {
        vstd::arithmetic::div_mod::lemma_fundamental_div_mod((accum + a) as int, period as int);
        vstd::arithmetic::div_mod::lemma_fundamental_div_mod((rest1 + b) as int, period as int);
        vstd::arithmetic::div_mod::lemma_mod_bound((rest1 + b) as int, period as int);
        assert(accum + a + b == period * (n1 + n2) + rest2) by (nonlinear_arith)
            requires
                accum + a == period * n1 + rest1,
                rest1 + b == period * n2 + rest2,
        ;
        assert(accum + a + b == (n1 + n2) * period + rest2) by (nonlinear_arith)
            requires
                accum + a + b == period * (n1 + n2) + rest2,
        ;
        vstd::arithmetic::div_mod::lemma_fundamental_div_mod_converse(
            (accum + a + b) as int,
            period as int,
            (n1 + n2) as int,
            rest2 as int,
        );
    }
    let mid2 = R6551View { cycle_accum: rest2 as u32, ..mid.transmitted(b) };
    assert(d.after_tick(a).after_tick(b) == mid2.polled_times(n2, allow));
    let whole = d.transmitted((a + b) as u32);
    let at = R6551View { cycle_accum: rest2 as u32, ..whole };
    assert(d.after_tick((a + b) as u32) == at.polled_times((n1 + n2) as nat, allow));
    lemma_polls_compose(at, n1, n2, allow);
    lemma_polls_ignore_timing(at1, at, n1, allow);
    lemma_polls_keep(at, n1, allow);
    assert(at.polled_times(n1, allow) =~= mid2);
}

proof fn lemma_polls_compose(d: R6551View, m: nat, n: nat, allow_overrun: bool)
    ensures
        d.polled_times(m + n, allow_overrun) == d.polled_times(m, allow_overrun).polled_times(
            n,
            allow_overrun,
        ),
    decreases m,
{
    if m > 0 {
        lemma_polls_compose(d.polled(allow_overrun), (m - 1) as nat, n, allow_overrun);
        assert((m + n - 1) as nat == (m - 1) as nat + n);
    }
}

/// What polling does to the receiver does not depend on the timing of the device.
proof fn lemma_polls_ignore_timing(d: R6551View, e: R6551View, n: nat, allow_overrun: bool)
    requires
        d.port == e.port,
        d.overrun == e.overrun,
        d.rx_data == e.rx_data,
        d.rdrf == e.rdrf,
        d.command == e.command,
    ensures
        d.polled_times(n, allow_overrun).port == e.polled_times(n, allow_overrun).port,
        d.polled_times(n, allow_overrun).overrun == e.polled_times(n, allow_overrun).overrun,
        d.polled_times(n, allow_overrun).rx_data == e.polled_times(n, allow_overrun).rx_data,
        d.polled_times(n, allow_overrun).rdrf == e.polled_times(n, allow_overrun).rdrf,
    decreases n,
{
    if n > 0 {
        lemma_polls_ignore_timing(
            d.polled(allow_overrun),
            e.polled(allow_overrun),
            (n - 1) as nat,
            allow_overrun,
        );
    }
}

/// After a reset no interrupt is requested, and the configuration is what it was.
pub proof fn reset_keeps_configuration(d: R6551View)
    ensures
        !d.after_reset().irq(),
        d.after_reset().clock_hz == d.clock_hz,
        d.after_reset().tdre_bug_compatible == d.tdre_bug_compatible,
        d.after_reset().overrun_enabled == d.overrun_enabled,
{
}

/// The command and control registers read back what was written.
pub proof fn registers_read_back(d: R6551View, offset: int, value: u8)
    requires
        offset == 2 || offset == 3,
    ensures
        d.after_write(offset, value).value_at(offset) == value,
{
}

} // verus!
