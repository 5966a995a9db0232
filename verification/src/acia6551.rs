//! WDC 65C51 ACIA (Asynchronous Communications Interface Adapter).
//!
//! | Offset | Read              | Write                            |
//! |--------|-------------------|----------------------------------|
//! | 0      | RX Data Register  | TX Data Register                 |
//! | 1      | Status Register   | Programmed Reset (any value)     |
//! | 2      | Command Register  | Command Register                 |
//! | 3      | Control Register  | Control Register                 |
//!
//! Status register: bit 7 is IRQ, bit 4 TDRE (transmit data register empty), bit 3 RDRF (receive
//! data register full), bit 2 OVRN (overrun).
//!
//! Command register: bit 1 disables the RX interrupt; bits 3-2 are the transmit interrupt control,
//! where `01` enables the TX interrupt.
//!
//! Control register: bit 4 selects the internal receiver clock, whose baud rate bits 3-0 select.
//!
//! TX is immediate: bytes are sent to the transport on write; TDRE is always set. RX is timer-driven:
//! `tick()` polls the transport once per byte period at the configured baud rate, on a CPU clock of
//! 1 MHz, or on every call when using the external clock (default).

use crate::baud;
use crate::device::{DeviceId, ErrorSender, IoDevice};
use crate::error_reporter;
use crate::error_reporter::{report, ErrorReporter, ReporterView};
use crate::transport;
use crate::transport::{PortView, TransportPort};
use vstd::prelude::*;

verus! {

const CLOCK_HZ: u64 = 1_000_000;

/// WDC 65C51 ACIA (Asynchronous Communications Interface Adapter).
pub struct Acia6551 {
    pub transport: Option<TransportPort<u8>>,
    pub error_reporter: Option<ErrorReporter>,
    /// Most recently received byte.
    pub rx_data: u8,
    /// Receive Data Register Full: set when a byte has been received and not yet read.
    pub rdrf: bool,
    /// Transmit Data Register Empty: always true since TX is immediate.
    pub tdre: bool,
    /// Overrun error: set when a new byte arrives while RDRF is already set.
    pub overrun: bool,
    pub command: u8,
    pub control: u8,
    /// Accumulated cycles since the last transport poll.
    pub cycle_accum: u32,
    /// Cycles between transport polls; 0 = poll every tick (external clock mode).
    pub cycles_per_byte: u32,
}

/// An ACIA, seen through its transport and its reporter.
#[verifier::ext_equal]
pub ghost struct AciaView {
    pub port: Option<PortView<u8>>,
    pub reporter: Option<ReporterView>,
    pub rx_data: u8,
    pub rdrf: bool,
    pub tdre: bool,
    pub overrun: bool,
    pub command: u8,
    pub control: u8,
    pub cycle_accum: u32,
    pub cycles_per_byte: u32,
}

impl View for Acia6551 {
    type V = AciaView;

    open spec fn view(&self) -> AciaView {
        AciaView {
            port: transport::view_of(self.transport),
            reporter: error_reporter::view_of(self.error_reporter),
            rx_data: self.rx_data,
            rdrf: self.rdrf,
            tdre: self.tdre,
            overrun: self.overrun,
            command: self.command,
            control: self.control,
            cycle_accum: self.cycle_accum,
            cycles_per_byte: self.cycles_per_byte,
        }
    }
}

impl AciaView {
    /// An ACIA that was just created.
    pub open spec fn fresh() -> Self {
        AciaView {
            port: None,
            reporter: None,
            rx_data: 0,
            rdrf: false,
            tdre: true,
            overrun: false,
            command: 0,
            control: 0,
            cycle_accum: 0,
            cycles_per_byte: 0,
        }
    }

    /// TDRE is set, and less than one byte period is ever outstanding.
    pub open spec fn wf(self) -> bool {
        &&& self.tdre
        &&& self.cycles_per_byte > 0 ==> self.cycle_accum < self.cycles_per_byte
    }

    /// Whether a full receive register interrupts.
    pub open spec fn rx_irq(self) -> bool {
        self.command / 2 % 2 == 0
    }

    /// Whether an empty transmit register interrupts.
    pub open spec fn tx_irq(self) -> bool {
        self.command / 4 % 4 == 1
    }

    pub open spec fn irq(self) -> bool {
        self.rdrf && self.rx_irq() || self.tdre && self.tx_irq()
    }

    /// The status register.
    pub open spec fn status(self) -> u8 {
        ((if self.irq() { 0x80int } else { 0 }) + (if self.tdre { 0x10int } else { 0 }) + (
        if self.rdrf { 0x08int } else { 0 }) + (if self.overrun { 0x04int } else { 0 })) as u8
    }

    /// What a read or a peek at `offset` shows.
    pub open spec fn value_at(self, offset: u16) -> u8 {
        if offset == 0 {
            self.rx_data
        } else if offset == 1 {
            self.status()
        } else if offset == 2 {
            self.command
        } else if offset == 3 {
            self.control
        } else {
            0
        }
    }

    /// The device after a read at `offset`: reading the data clears RDRF and overrun.
    pub open spec fn after_read(self, offset: u16) -> Self {
        if offset == 0 {
            AciaView { rdrf: false, overrun: false, ..self }
        } else {
            self
        }
    }

    /// The device after it has sent `value`, reporting the error of a transport that refuses it.
    pub open spec fn sent(self, value: u8) -> Self {
        match self.port {
            Some(port) => AciaView {
                port: Some(port.sent(seq![value])),
                reporter: match port.refusal() {
                    Some(error) => error_reporter::after_report(self.reporter, error),
                    None => self.reporter,
                },
                ..self
            },
            None => self,
        }
    }

    /// The device after a write at `offset`.
    pub open spec fn after_write(self, offset: u16, value: u8) -> Self {
        if offset == 0 {
            self.sent(value)
        } else if offset == 1 {
            AciaView { overrun: false, ..self }
        } else if offset == 2 {
            AciaView { command: value, ..self }
        } else if offset == 3 {
            AciaView {
                control: value,
                cycles_per_byte: baud::byte_period(value, 1_000_000) as u32,
                cycle_accum: 0,
                ..self
            }
        } else {
            self
        }
    }

    /// The device after it has polled its transport for one byte, which overruns the receive
    /// register where that is full.
    pub open spec fn polled(self) -> Self {
        if self.port is Some && self.port.unwrap().inbound.len() > 0 {
            AciaView {
                port: Some(self.port.unwrap().taken()),
                overrun: self.overrun || self.rdrf,
                rx_data: self.port.unwrap().inbound[0],
                rdrf: true,
                ..self
            }
        } else {
            self
        }
    }

    /// The device after it has polled its transport `n` times.
    pub open spec fn polled_times(self, n: nat) -> Self
        decreases n,
    {
        if n == 0 {
            self
        } else {
            self.polled().polled_times((n - 1) as nat)
        }
    }

    /// The device after `cycles` clock cycles: one poll with the external clock, and one for every
    /// byte period that was completed with the internal clock.
    pub open spec fn after_tick(self, cycles: u32) -> Self {
        if self.cycles_per_byte == 0 {
            self.polled()
        } else {
            let elapsed = (self.cycle_accum + cycles) as nat;
            let period = self.cycles_per_byte as nat;
            AciaView { cycle_accum: (elapsed % period) as u32, ..self }.polled_times(
                elapsed / period,
            )
        }
    }
}

impl Acia6551 {
    /// Creates a new `Acia6551` with no transport, external clock mode, and TDRE set.
    pub fn new() -> (d: Self)
        ensures
            d@ == AciaView::fresh(),
            d.wf(),
    {
        Acia6551 {
            transport: None,
            error_reporter: None,
            rx_data: 0,
            rdrf: false,
            tdre: true,
            overrun: false,
            command: 0,
            control: 0,
            cycle_accum: 0,
            cycles_per_byte: 0,
        }
    }

    /// Attaches a transport for byte-stream I/O.
    pub fn attach_transport(&mut self, transport: TransportPort<u8>)
        ensures
            final(self)@ == (AciaView { port: Some(transport@), ..old(self)@ }),
            old(self).wf() ==> final(self).wf(),
    {
        self.transport = Some(transport);
    }

    /// Sets the error sender for transport event reporting.
    pub fn set_error_sender(&mut self, sender: ErrorSender, id: DeviceId)
        ensures
            final(self)@ == (AciaView { reporter: Some(ReporterView::fresh(sender, id)), ..old(self)@ }),
            old(self).wf() ==> final(self).wf(),
    {
        self.error_reporter = Some(ErrorReporter::new(sender, id));
    }

    fn report_error(&mut self, error: transport::TransportError)
        ensures
            final(self)@ == (AciaView {
                reporter: error_reporter::after_report(old(self)@.reporter, error),
                ..old(self)@
            }),
    {
        report(error, &mut self.error_reporter);
    }

    fn status(&self) -> (s: u8)
        ensures
            s == self@.status(),
    {
        let mut s: u8 = 0;
        if self.irq_state() {
            s = s + 0x80;
        }
        if self.tdre {
            s = s + 0x10;
        }
        if self.rdrf {
            s = s + 0x08;
        }
        if self.overrun {
            s = s + 0x04;
        }
        s
    }

    fn irq_state(&self) -> (active: bool)
        ensures
            active == self@.irq(),
    {
        self.rdrf && self.rx_irq_enabled() || self.tdre && self.tx_irq_enabled()
    }

    fn rx_irq_enabled(&self) -> (enabled: bool)
        ensures
            enabled == self@.rx_irq(),
    {
        self.command / 2 % 2 == 0
    }

    fn tx_irq_enabled(&self) -> (enabled: bool)
        ensures
            enabled == self@.tx_irq(),
    {
        self.command / 4 % 4 == 1
    }

    fn poll_transport(&mut self)
        ensures
            final(self)@ == old(self)@.polled(),
    {
        let arrived = match &mut self.transport {
            Some(port) => port.try_recv(),
            None => None,
        };
        if let Some(byte) = arrived {
            if self.rdrf {
                self.overrun = true;
            }
            self.rx_data = byte;
            self.rdrf = true;
        }
    }

    /// Returns cycles-per-byte for the given control register value, or 0 for external clock.
    /// Assumes a 1 MHz CPU clock, and 10 bits per byte (start + 8 data + stop).
    pub fn compute_cycles_per_byte(control: u8) -> (cycles: u32)
        ensures
            cycles == baud::byte_period(control, 1_000_000),
    {
        baud::cycles_per_byte(control, CLOCK_HZ)
    }

    fn transmit(&mut self, value: u8)
        ensures
            final(self)@ == old(self)@.sent(value),
    {
        let sent = match &mut self.transport {
            Some(port) => port.send(value),
            None => Ok(()),
        };
        if let Err(error) = sent {
            self.report_error(error);
        }
    }
}

impl Default for Acia6551 {
    fn default() -> (d: Self)
        ensures
            d@ == AciaView::fresh(),
            d.wf(),
    {
        Acia6551::new()
    }
}

/// A device with `accum` cycles outstanding.
spec fn with_accum(d: AciaView, accum: nat) -> AciaView {
    AciaView { cycle_accum: accum as u32, ..d }
}

impl IoDevice for Acia6551 {
    open spec fn wf(&self) -> bool {
        self@.wf()
    }

    open spec fn mapped_at(&self, address: u16) -> bool {
        true
    }

    open spec fn can_tick(&self, cycles: u32) -> bool {
        self.cycles_per_byte > 0 ==> self.cycle_accum + cycles <= u32::MAX
    }

    open spec fn written(before: Self, after: Self, address: u16, value: u8) -> bool {
        after@ == before@.after_write(address, value)
    }

    fn read(&mut self, address: u16) -> (value: u8)
        ensures
            value == old(self)@.value_at(address),
            final(self)@ == old(self)@.after_read(address),
    {
        match address {
            0 => {
                self.rdrf = false;
                self.overrun = false;
                self.rx_data
            },
            1 => self.status(),
            2 => self.command,
            3 => self.control,
            _ => 0,
        }
    }

    fn write(&mut self, address: u16, value: u8)
        ensures
            final(self)@ == old(self)@.after_write(address, value),
    {
        match address {
            0 => {
                self.transmit(value);
            },
            1 => {
                self.overrun = false;
            },
            2 => {
                self.command = value;
            },
            3 => {
                self.control = value;
                self.cycles_per_byte = Self::compute_cycles_per_byte(value);
                self.cycle_accum = 0;
            },
            _ => {},
        }
    }

    fn peek(&self, address: u16) -> (value: u8)
        ensures
            value == self@.value_at(address),
    {
        match address {
            0 => self.rx_data,
            1 => self.status(),
            2 => self.command,
            3 => self.control,
            _ => 0,
        }
    }

    fn patch(&mut self, address: u16, value: u8)
        ensures
            final(self)@ == old(self)@.after_write(address, value),
    {
        self.write(address, value);
    }

    fn tick(&mut self, cycles: u32)
        ensures
            final(self)@ == old(self)@.after_tick(cycles),
    {
        if self.cycles_per_byte == 0 {
            self.poll_transport();
            return ;
        }
        let ghost start = self@;
        let ghost period = self.cycles_per_byte as nat;
        self.cycle_accum = self.cycle_accum + cycles;
        while self.cycle_accum >= self.cycles_per_byte
            invariant
                period == self.cycles_per_byte > 0,
                self.tdre,
                with_accum(self@, self.cycle_accum as nat % period).polled_times(
                    self.cycle_accum as nat / period,
                ) == start.after_tick(cycles),
            decreases self.cycle_accum,
        {
            proof {
                baud::lemma_one_period(self.cycle_accum as nat, period);
            }
            let ghost before = self@;
            self.cycle_accum = self.cycle_accum - self.cycles_per_byte;
            self.poll_transport();
            assert(with_accum(self@, self.cycle_accum as nat % period) =~= with_accum(
                before,
                before.cycle_accum as nat % period,
            ).polled());
        }
        proof {
            vstd::arithmetic::div_mod::lemma_small_mod(self.cycle_accum as nat, period);
            vstd::arithmetic::div_mod::lemma_basic_div(self.cycle_accum as int, period as int);
            assert(with_accum(self@, self.cycle_accum as nat) =~= self@);
        }
    }

    fn irq_active(&self) -> (active: bool)
        ensures
            active == self@.irq(),
    {
        self.irq_state()
    }

    fn name(&self) -> (name: &str)
        ensures
            name@ == "acia6551"@,
    {
        "acia6551"
    }

    fn identity_address(&self) -> (address: u16)
        ensures
            address == 0,
    {
        0
    }
}

/// A byte that meets a full receive register overwrites the byte that was there and sets the
/// overrun flag, which a programmed reset or a read of the data clears.
pub proof fn overrun_overwrites(d: AciaView, value: u8)
    requires
        d.rdrf,
        d.port is Some,
        d.port.unwrap().inbound.len() > 0,
    ensures
        d.polled().overrun,
        d.polled().value_at(0) == d.port.unwrap().inbound[0],
        !d.polled().after_write(1, value).overrun,
        !d.polled().after_read(0).overrun,
{
}

/// With the internal clock the transport is polled exactly when a byte period has passed.
pub proof fn polls_once_per_byte_period(d: AciaView, cycles: u32)
    requires
        d.wf(),
        d.cycles_per_byte > 0,
    ensures
        d.cycle_accum + cycles < d.cycles_per_byte ==> d.after_tick(cycles) == (AciaView {
            cycle_accum: (d.cycle_accum + cycles) as u32,
            ..d
        }),
        d.cycle_accum + cycles == d.cycles_per_byte ==> d.after_tick(cycles) == (AciaView {
            cycle_accum: 0,
            ..d
        }).polled(),
{
    let elapsed = (d.cycle_accum + cycles) as nat;
    let period = d.cycles_per_byte as nat;
    if elapsed < period {
        vstd::arithmetic::div_mod::lemma_small_mod(elapsed, period);
        vstd::arithmetic::div_mod::lemma_basic_div(elapsed as int, period as int);
    } else if elapsed == period {
        vstd::arithmetic::div_mod::lemma_div_by_self(period as int);
        vstd::arithmetic::div_mod::lemma_mod_self_0(period as int);
        reveal_with_fuel(AciaView::polled_times, 2);
    }
}

/// The command and control registers read back what was written.
pub proof fn registers_read_back(d: AciaView, offset: u16, value: u8)
    requires
        offset == 2 || offset == 3,
    ensures
        d.after_write(offset, value).value_at(offset) == value,
{
}

/// TDRE is always set, whatever is done with the device.
pub proof fn tdre_stays_set(d: AciaView, offset: u16, value: u8, cycles: u32)
    requires
        d.wf(),
        d.cycle_accum + cycles <= u32::MAX,
    ensures
        d.after_read(offset).tdre,
        d.after_write(offset, value).tdre,
        d.after_tick(cycles).tdre,
{
    if d.cycles_per_byte > 0 {
        let elapsed = (d.cycle_accum + cycles) as nat;
        let period = d.cycles_per_byte as nat;
        lemma_polls_keep_tdre(
            AciaView { cycle_accum: (elapsed % period) as u32, ..d },
            elapsed / period,
        );
    }
}

proof fn lemma_polls_keep_tdre(d: AciaView, n: nat)
    ensures
        d.polled_times(n).tdre == d.tdre,
    decreases n,
{
    if n > 0 {
        lemma_polls_keep_tdre(d.polled(), (n - 1) as nat);
    }
}

} // verus!
