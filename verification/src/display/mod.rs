//! A memory-mapped character/color-cell display device.
//!
//! The bus-addressable memory map (offsets relative to the device's base address, `cells = columns
//! * rows`):
//!
//! | Region           | Offset        | Size    | Access | Notes                                |
//! |------------------|---------------|---------|--------|--------------------------------------|
//! | Character RAM    | `0`           | `cells` | R/W    | Glyph index per cell                 |
//! | Color RAM        | `cells`       | `cells` | R/W    | Palette index per cell               |
//! | Control register | `2*cells`     | 1       | R/W    | See [`CONTROL_SWAP_REQUEST`] etc.    |
//! | Status/data reg. | `2*cells + 1` | 1       | R/W    | Read: status. Write: palette data    |
//!
//! The status register has bit 0 for vsync and bit 1 for an accepted palette update, both cleared
//! by a read.
//!
//! Writing [`CONTROL_PALETTE_ARM`] to the control register (re)starts a 4-byte write sequence to
//! the data register: `index`, `red`, `green`, `blue`. With the 4th byte the palette slot `index`
//! (modulo the palette length) is updated. Data writes are ignored unless armed, and a control
//! write with the arm bit clear leaves the sequence as it is.
//!
//! The device interrupts only if an optional keyboard data/latch sub-range is configured and a
//! configured break key is received on it.

pub mod compositing;
pub mod font;
pub mod font_data;
pub mod laws;
pub mod protocol;

use self::compositing::{composite, resolve_palette_index, Rgb24};
use self::font::Font;
use self::protocol::{encode_frame, encode_header};
use crate::address::AddressRange;
use crate::bytes::{copy_of, zeros};
use crate::device::{log_reset, IoDevice};
use crate::frame_sink;
use crate::frame_sink::{FrameSink, SinkView};
use crate::input_buffer::{InputBuffer, InputView};
use crate::logging::{LogRecordView, LogSender};
use crate::transport;
use crate::transport::{PortView, TransportPort};
use tokio::sync::mpsc::Sender;
use vstd::prelude::*;

verus! {

/// A composited frame ready for display, and the cell dimensions it was composited from.
pub struct DisplayFrame {
    /// RGBA bytes, row-major, top row first, 4 bytes per pixel.
    pub pixels: Vec<u8>,
    /// Grid width in cells this frame was composited from.
    pub columns: u32,
    /// Grid height in cells this frame was composited from.
    pub rows: u32,
}

/// A frame, seen through its pixels.
#[verifier::ext_equal]
pub ghost struct DisplayFrameView {
    pub pixels: Seq<u8>,
    pub columns: u32,
    pub rows: u32,
}

impl View for DisplayFrame {
    type V = DisplayFrameView;

    open spec fn view(&self) -> DisplayFrameView {
        DisplayFrameView { pixels: self.pixels@, columns: self.columns, rows: self.rows }
    }
}

impl Clone for DisplayFrame {
    fn clone(&self) -> (frame: Self)
        ensures
            frame@ == self@,
    {
        DisplayFrame { pixels: self.pixels.clone(), columns: self.columns, rows: self.rows }
    }
}

/// Default grid width in cells.
pub const DEFAULT_COLUMNS: u32 = 40;

/// Default grid height in cells.
pub const DEFAULT_ROWS: u32 = 25;

/// Default vsync cadence in Hz.
pub const DEFAULT_FRAME_RATE_HZ: u32 = 60;

/// Reference clock used to derive cadences when the CPU runs unthrottled.
pub const NOMINAL_CLOCK_HZ: u64 = 1_843_200;

/// Control register bit 0: write 1 to request a swap. Always reads 0.
pub const CONTROL_SWAP_REQUEST: u8 = 0b0000_0001;

/// Control register bit 1: swap-on-vsync enable.
pub const CONTROL_SWAP_ON_VSYNC: u8 = 0b0000_0010;

/// Control register bit 7: swap pending (read-only).
pub const CONTROL_SWAP_PENDING: u8 = 0b1000_0000;

/// Control register bit 3: write 1 to (re)start the palette-update sequence. Always reads 0.
pub const CONTROL_PALETTE_ARM: u8 = 0b0000_1000;

/// Status register bit 0: vsync flag. Read-to-clear.
pub const STATUS_VSYNC: u8 = 0b0000_0001;

/// Status register bit 1: a palette update was applied. Read-to-clear.
pub const STATUS_PALETTE_ACCEPTED: u8 = 0b0000_0010;

/// How far a palette-update sequence has come.
#[derive(Debug, Clone, Copy, PartialEq, Eq, Structural)]
pub enum PaletteUpdateState {
    Idle,
    ExpectIndex,
    ExpectRed(u8),
    ExpectGreen(u8, u8),
    ExpectBlue(u8, u8, u8),
}

/// The optional keyboard sub-range and its buffered input.
pub struct KeyboardInput {
    pub range: AddressRange,
    pub input: InputBuffer,
}

/// A keyboard sub-range, seen through its input.
#[verifier::ext_equal]
pub ghost struct KeyboardInputView {
    pub range: AddressRange,
    pub input: InputView,
}

/// Which transport the keyboard's input arrives on.
#[derive(Debug, Clone, Copy, PartialEq, Eq, Structural)]
pub enum KeyboardRelay {
    /// The transport of the external protocol.
    External,
    /// The keyboard's own transport.
    Keyboard,
}

/// A memory-mapped character/color-cell display device.
pub struct CharDisplay {
    pub name: &'static str,
    pub address_range: AddressRange,
    pub columns: u32,
    pub rows: u32,
    pub double_buffered: bool,
    /// CPU-addressable buffers. The CPU always reads and writes these, whatever the swap state.
    pub char_ram: Vec<u8>,
    pub color_ram: Vec<u8>,
    /// Scanout buffers, populated by a swap; empty in single-buffered mode.
    pub scanout_char_ram: Vec<u8>,
    pub scanout_color_ram: Vec<u8>,
    pub swap_on_vsync: bool,
    pub swap_pending: bool,
    pub status: u8,
    pub palette_update: PaletteUpdateState,
    /// CPU cycles per frame.
    pub cycles_per_frame: u64,
    pub cycle_accumulator: u64,
    pub frame_rate_hz: u32,
    pub font: Font,
    pub palette: Vec<Rgb24>,
    /// Push channel for composited frames.
    pub frame_sink: Option<FrameSink<DisplayFrame>>,
    /// Transport for the external display protocol.
    pub external_transport: Option<TransportPort<u8>>,
    pub keyboard: Option<KeyboardInput>,
    /// Where keyboard input is taken from on every tick, whether or not a keyboard is configured:
    /// an input stream that nobody takes would stall the transport that carries it.
    pub keyboard_relay: Option<KeyboardRelay>,
    pub keyboard_transport: Option<TransportPort<u8>>,
    pub log_sender: LogSender,
}

/// A display, seen through its memories, channels and transports.
#[verifier::ext_equal]
pub ghost struct CharDisplayView {
    pub name: Seq<char>,
    pub address_range: AddressRange,
    pub columns: u32,
    pub rows: u32,
    pub double_buffered: bool,
    pub char_ram: Seq<u8>,
    pub color_ram: Seq<u8>,
    pub scanout_char_ram: Seq<u8>,
    pub scanout_color_ram: Seq<u8>,
    pub swap_on_vsync: bool,
    pub swap_pending: bool,
    pub status: u8,
    pub palette_update: PaletteUpdateState,
    pub cycles_per_frame: u64,
    pub cycle_accumulator: u64,
    pub frame_rate_hz: u32,
    pub font: Seq<u8>,
    pub palette: Seq<Rgb24>,
    pub frames: Option<SinkView<DisplayFrame, DisplayFrameView>>,
    pub external: Option<PortView<u8>>,
    pub keyboard: Option<KeyboardInputView>,
    pub keyboard_relay: Option<KeyboardRelay>,
    pub keyboard_port: Option<PortView<u8>>,
    pub log_capacity: usize,
    pub log: Seq<LogRecordView>,
}

/// An optional keyboard sub-range, by view.
pub open spec fn keyboard_view(keyboard: Option<KeyboardInput>) -> Option<KeyboardInputView> {
    match keyboard {
        Some(k) => Some(KeyboardInputView { range: k.range, input: k.input@ }),
        None => None,
    }
}

impl View for CharDisplay {
    type V = CharDisplayView;

    open spec fn view(&self) -> CharDisplayView {
        CharDisplayView {
            name: self.name@,
            address_range: self.address_range,
            columns: self.columns,
            rows: self.rows,
            double_buffered: self.double_buffered,
            char_ram: self.char_ram@,
            color_ram: self.color_ram@,
            scanout_char_ram: self.scanout_char_ram@,
            scanout_color_ram: self.scanout_color_ram@,
            swap_on_vsync: self.swap_on_vsync,
            swap_pending: self.swap_pending,
            status: self.status,
            palette_update: self.palette_update,
            cycles_per_frame: self.cycles_per_frame,
            cycle_accumulator: self.cycle_accumulator,
            frame_rate_hz: self.frame_rate_hz,
            font: self.font@,
            palette: self.palette@,
            frames: frame_sink::view_of(self.frame_sink),
            external: transport::view_of(self.external_transport),
            keyboard: keyboard_view(self.keyboard),
            keyboard_relay: self.keyboard_relay,
            keyboard_port: transport::view_of(self.keyboard_transport),
            log_capacity: self.log_sender.capacity,
            log: self.log_sender@,
        }
    }
}

impl CharDisplayView {
    /// What holds of every display.
    pub open spec fn wf(self) -> bool {
        let cells = self.columns * self.rows;
        &&& self.address_range.size() == 2 * cells + 2
        &&& self.char_ram.len() == cells
        &&& self.color_ram.len() == cells
        &&& self.double_buffered ==> self.scanout_char_ram.len() == cells
        &&& self.double_buffered ==> self.scanout_color_ram.len() == cells
        &&& self.palette.len() > 0
        &&& self.cycle_accumulator < self.cycles_per_frame
        &&& !self.double_buffered ==> !self.swap_pending
    }

    /// The display as it is built.
    pub open spec fn fresh(
        name: Seq<char>,
        address_range: AddressRange,
        columns: u32,
        rows: u32,
        double_buffered: bool,
        clock_hz: Option<u64>,
        frame_rate_hz: u32,
        font: Seq<u8>,
        palette: Seq<Rgb24>,
    ) -> Self {
        let blank = Seq::new((columns * rows) as nat, |i: int| 0u8);
        let scanout = if double_buffered {
            blank
        } else {
            Seq::empty()
        };
        CharDisplayView {
            name,
            address_range,
            columns,
            rows,
            double_buffered,
            char_ram: blank,
            color_ram: blank,
            scanout_char_ram: scanout,
            scanout_color_ram: scanout,
            swap_on_vsync: false,
            swap_pending: false,
            status: 0,
            palette_update: PaletteUpdateState::Idle,
            cycles_per_frame: cycles_per_frame(clock_hz, frame_rate_hz),
            cycle_accumulator: 0,
            frame_rate_hz,
            font,
            palette,
            frames: None,
            external: None,
            keyboard: None,
            keyboard_relay: None,
            keyboard_port: None,
            log_capacity: 0,
            log: Seq::empty(),
        }
    }

    /// Whether `address` belongs to the keyboard sub-range.
    pub open spec fn is_keyboard_address(self, address: u16) -> bool {
        self.keyboard matches Some(k) && k.range.holds(address)
    }

    /// The characters and colors that are scanned out.
    pub open spec fn scanout(self) -> (Seq<u8>, Seq<u8>) {
        if self.double_buffered {
            (self.scanout_char_ram, self.scanout_color_ram)
        } else {
            (self.char_ram, self.color_ram)
        }
    }

    /// What the control register shows.
    pub open spec fn control(self) -> u8 {
        ((if self.swap_on_vsync { CONTROL_SWAP_ON_VSYNC as int } else { 0 }) + (if self.swap_pending {
            CONTROL_SWAP_PENDING as int
        } else {
            0
        })) as u8
    }

    /// What a peek at `address` shows.
    pub open spec fn peek_value(self, address: u16) -> u8 {
        if self.is_keyboard_address(address) {
            let k = self.keyboard.unwrap();
            if address - k.range.start == 0 {
                k.input.data()
            } else if address - k.range.start == 1 {
                k.input.latch
            } else {
                0
            }
        } else {
            let cells = self.char_ram.len();
            let offset = address - self.address_range.start;
            if offset < cells {
                self.char_ram[offset]
            } else if offset < 2 * cells {
                self.color_ram[offset - cells]
            } else if offset == 2 * cells {
                self.control()
            } else if offset == 2 * cells + 1 {
                self.status
            } else {
                0
            }
        }
    }

    /// What a read at `address` returns: what a peek shows, but for the keyboard's latch register,
    /// which a read fills first.
    pub open spec fn read_value(self, address: u16) -> u8 {
        if self.is_keyboard_address(address) && address - self.keyboard.unwrap().range.start == 1 {
            self.keyboard.unwrap().input.data()
        } else {
            self.peek_value(address)
        }
    }

    /// The display with other keyboard input.
    pub open spec fn with_input(self, input: InputView) -> Self {
        CharDisplayView {
            keyboard: Some(KeyboardInputView { input, ..self.keyboard.unwrap() }),
            ..self
        }
    }

    /// The display after a read at `address`.
    pub open spec fn after_read(self, address: u16) -> Self {
        if self.is_keyboard_address(address) {
            let k = self.keyboard.unwrap();
            if address - k.range.start == 0 {
                self.with_input(k.input.after_read_data())
            } else if address - k.range.start == 1 {
                self.with_input(k.input.after_read_latch())
            } else {
                self
            }
        } else if address - self.address_range.start == 2 * self.char_ram.len() + 1 {
            CharDisplayView {
                status: self.status & !(STATUS_VSYNC | STATUS_PALETTE_ACCEPTED),
                ..self
            }
        } else {
            self
        }
    }

    /// The display after its scanout buffers took over the CPU-addressable ones.
    pub open spec fn swapped(self) -> Self {
        CharDisplayView {
            scanout_char_ram: self.char_ram,
            scanout_color_ram: self.color_ram,
            ..self
        }
    }

    /// The display after a swap request: nothing in single-buffered mode, else a swap now or with
    /// the next vsync.
    pub open spec fn swap_requested(self) -> Self {
        if !self.double_buffered {
            self
        } else if self.swap_on_vsync {
            CharDisplayView { swap_pending: true, ..self }
        } else {
            self.swapped()
        }
    }

    /// The display after a write to the control register.
    pub open spec fn control_written(self, value: u8) -> Self {
        let enabled = CharDisplayView {
            swap_on_vsync: value & CONTROL_SWAP_ON_VSYNC != 0,
            ..self
        };
        let requested = if value & CONTROL_SWAP_REQUEST != 0 {
            enabled.swap_requested()
        } else {
            enabled
        };
        if value & CONTROL_PALETTE_ARM != 0 {
            CharDisplayView { palette_update: PaletteUpdateState::ExpectIndex, ..requested }
        } else {
            requested
        }
    }

    /// The display after a write to the data register.
    pub open spec fn palette_data_written(self, value: u8) -> Self {
        match self.palette_update {
            PaletteUpdateState::Idle => self,
            PaletteUpdateState::ExpectIndex => CharDisplayView {
                palette_update: PaletteUpdateState::ExpectRed(value),
                ..self
            },
            PaletteUpdateState::ExpectRed(index) => CharDisplayView {
                palette_update: PaletteUpdateState::ExpectGreen(index, value),
                ..self
            },
            PaletteUpdateState::ExpectGreen(index, red) => CharDisplayView {
                palette_update: PaletteUpdateState::ExpectBlue(index, red, value),
                ..self
            },
            PaletteUpdateState::ExpectBlue(index, red, green) => CharDisplayView {
                palette_update: PaletteUpdateState::Idle,
                palette: self.palette.update(
                    compositing::palette_slot(index, self.palette.len() as int),
                    Rgb24 { r: red, g: green, b: value },
                ),
                status: self.status | STATUS_PALETTE_ACCEPTED,
                ..self
            },
        }
    }

    /// The display after a write at `address`.
    pub open spec fn after_write(self, address: u16, value: u8) -> Self {
        if self.is_keyboard_address(address) {
            let k = self.keyboard.unwrap();
            if address - k.range.start == 1 {
                self.with_input(k.input.after_write_latch(value))
            } else {
                self
            }
        } else {
            let cells = self.char_ram.len();
            let offset = address - self.address_range.start;
            if offset < cells {
                CharDisplayView { char_ram: self.char_ram.update(offset, value), ..self }
            } else if offset < 2 * cells {
                CharDisplayView {
                    color_ram: self.color_ram.update(offset - cells, value),
                    ..self
                }
            } else if offset == 2 * cells {
                self.control_written(value)
            } else if offset == 2 * cells + 1 {
                self.palette_data_written(value)
            } else {
                self
            }
        }
    }

    /// The frame that is scanned out.
    pub open spec fn frame(self) -> DisplayFrameView {
        DisplayFrameView {
            pixels: compositing::display_frame(
                self.scanout().0,
                self.scanout().1,
                self.columns as int,
                self.rows as int,
                self.palette,
                self.font,
            ),
            columns: self.columns,
            rows: self.rows,
        }
    }

    /// The display after a vsync: the flag is set, a pending swap is made, and what is scanned out
    /// goes to the frame sink and the external transport.
    pub open spec fn after_vsync(self) -> Self {
        let flagged = CharDisplayView { status: self.status | STATUS_VSYNC, ..self };
        let shown = if self.swap_pending {
            CharDisplayView { swap_pending: false, ..flagged.swapped() }
        } else {
            flagged
        };
        CharDisplayView {
            frames: frame_sink::after_offer(shown.frames, shown.frame()),
            external: match shown.external {
                Some(port) => Some(
                    port.sent(
                        protocol::frame_bytes(shown.scanout().0, shown.scanout().1, shown.palette),
                    ),
                ),
                None => None,
            },
            ..shown
        }
    }

    /// The display after `n` vsyncs.
    pub open spec fn after_vsyncs(self, n: nat) -> Self
        decreases n,
    {
        if n == 0 {
            self
        } else {
            self.after_vsyncs((n - 1) as nat).after_vsync()
        }
    }

    /// The display after a transport for the external protocol was attached: it is sent the header,
    /// and keyboard input arrives on it.
    pub open spec fn external_attached(self, port: PortView<u8>) -> Self {
        CharDisplayView {
            external: Some(
                port.sent(
                    protocol::header_bytes(
                        self.columns,
                        self.rows,
                        self.frame_rate_hz,
                        (self.palette.len() % 65536) as u16,
                        self.font,
                    ),
                ),
            ),
            keyboard_relay: Some(KeyboardRelay::External),
            ..self
        }
    }

    /// The display after it has taken the keyboard input that has arrived.
    pub open spec fn input_taken(self) -> Self {
        match self.keyboard_relay {
            Some(KeyboardRelay::External) => match self.external {
                Some(port) => CharDisplayView {
                    external: Some(port.drained()),
                    ..self.input_pushed(port.inbound)
                },
                None => self,
            },
            Some(KeyboardRelay::Keyboard) => match self.keyboard_port {
                Some(port) => CharDisplayView {
                    keyboard_port: Some(port.drained()),
                    ..self.input_pushed(port.inbound)
                },
                None => self,
            },
            None => self,
        }
    }

    /// The display after `bytes` were typed. Without a keyboard they are lost.
    pub open spec fn input_pushed(self, bytes: Seq<u8>) -> Self {
        match self.keyboard {
            Some(k) => self.with_input(k.input.pushed_all(bytes)),
            None => self,
        }
    }

    /// The display after `cycles` clock cycles: a vsync for every whole frame.
    pub open spec fn after_tick(self, cycles: int) -> Self {
        let total = self.cycle_accumulator + cycles;
        let frames = total / (self.cycles_per_frame as int);
        CharDisplayView {
            cycle_accumulator: (total % (self.cycles_per_frame as int)) as u64,
            ..self.input_taken().after_vsyncs(frames as nat)
        }
    }

    /// The display after a reset. What it shows is left as it was.
    pub open spec fn after_reset(self) -> Self {
        CharDisplayView {
            swap_on_vsync: false,
            swap_pending: false,
            status: 0,
            palette_update: PaletteUpdateState::Idle,
            cycle_accumulator: 0,
            keyboard: match self.keyboard {
                Some(k) => Some(KeyboardInputView { input: k.input.after_reset(), ..k }),
                None => None,
            },
            log: crate::logging::after_log(
                self.log,
                self.log_capacity as nat,
                crate::device::reset_record(self.name, self.address_range.start),
            ),
            ..self
        }
    }

    /// The display after its shutdown: the frame channel is closed, and so are the transports.
    pub open spec fn after_shutdown(self) -> Self {
        CharDisplayView {
            frames: None,
            external: match self.external {
                Some(port) => Some(port.closed()),
                None => None,
            },
            keyboard_port: match self.keyboard_port {
                Some(port) => Some(port.closed()),
                None => None,
            },
            ..self
        }
    }
}

/// CPU cycles per frame at the given rates, never less than one.
pub open spec fn cycles_per_frame(clock_hz: Option<u64>, frame_rate_hz: u32) -> u64 {
    let clock = match clock_hz {
        Some(hz) => hz,
        None => NOMINAL_CLOCK_HZ,
    };
    let rate = if frame_rate_hz == 0 {
        1
    } else {
        frame_rate_hz as u64
    };
    if clock / rate == 0 {
        1
    } else {
        clock / rate
    }
}

/// Computes the CPU cycles per frame at the given rates.
pub fn frame_cycles(clock_hz: Option<u64>, frame_rate_hz: u32) -> (cycles: u64)
    ensures
        cycles == cycles_per_frame(clock_hz, frame_rate_hz),
        cycles > 0,
{
    let clock: u64 = match clock_hz {
        Some(hz) => hz,
        None => NOMINAL_CLOCK_HZ,
    };
    let rate: u64 = if frame_rate_hz == 0 {
        1
    } else {
        frame_rate_hz as u64
    };
    let cycles: u64 = clock / rate;
    if cycles == 0 {
        1
    } else {
        cycles
    }
}

impl CharDisplay {
    /// Creates a device. `address_range` must span exactly `2 * columns * rows + 2` bytes, and
    /// `palette` must not be empty. `clock_hz` is the CPU's clock speed, or `None` if it runs
    /// unthrottled.
    pub fn new(
        name: &'static str,
        address_range: AddressRange,
        columns: u32,
        rows: u32,
        double_buffered: bool,
        clock_hz: Option<u64>,
        frame_rate_hz: u32,
        font: Font,
        palette: Vec<Rgb24>,
    ) -> (d: Self)
        requires
            palette@.len() > 0,
            address_range.size() == 2 * (columns * rows) + 2,
        ensures
            d.wf(),
            d@ == CharDisplayView::fresh(
                name@,
                address_range,
                columns,
                rows,
                double_buffered,
                clock_hz,
                frame_rate_hz,
                font@,
                palette@,
            ),
    {
        assert(columns * rows >= 0) by (nonlinear_arith);
        let cells: usize = (columns as u64 * rows as u64) as usize;
        CharDisplay {
            name,
            address_range,
            columns,
            rows,
            double_buffered,
            char_ram: zeros(cells),
            color_ram: zeros(cells),
            scanout_char_ram: if double_buffered {
                zeros(cells)
            } else {
                Vec::new()
            },
            scanout_color_ram: if double_buffered {
                zeros(cells)
            } else {
                Vec::new()
            },
            swap_on_vsync: false,
            swap_pending: false,
            status: 0,
            palette_update: PaletteUpdateState::Idle,
            cycles_per_frame: frame_cycles(clock_hz, frame_rate_hz),
            cycle_accumulator: 0,
            frame_rate_hz,
            font,
            palette,
            frame_sink: None,
            external_transport: None,
            keyboard: None,
            keyboard_relay: None,
            keyboard_transport: None,
            log_sender: LogSender::default(),
        }
    }
}

impl IoDevice for CharDisplay {
    open spec fn wf(&self) -> bool {
        self@.wf()
    }

    open spec fn mapped_at(&self, address: u16) -> bool {
        self@.is_keyboard_address(address) || address >= self.address_range.start
    }

    /// The cycle counter must not overflow.
    open spec fn can_tick(&self, cycles: u32) -> bool {
        self.cycle_accumulator + cycles <= u64::MAX
    }

    open spec fn written(before: Self, after: Self, address: u16, value: u8) -> bool {
        after@ == before@.after_write(address, value)
    }

    fn read(&mut self, address: u16) -> (value: u8)
        ensures
            value == old(self)@.read_value(address),
            final(self)@ == old(self)@.after_read(address),
    {
        if let Some(keyboard) = &mut self.keyboard {
            if keyboard.range.contains(address) {
                let register: u16 = address - keyboard.range.start;
                return match register {
                    0 => keyboard.input.read_data(),
                    1 => keyboard.input.read_latch(),
                    _ => 0,
                };
            }
        }
        let offset: usize = (address - self.address_range.start) as usize;
        let cells: usize = self.char_ram.len();
        if offset == 2 * cells + 1 {
            let value = self.status;
            self.status = self.status & !(STATUS_VSYNC | STATUS_PALETTE_ACCEPTED);
            value
        } else {
            self.peek_register(offset)
        }
    }

    fn write(&mut self, address: u16, value: u8)
        ensures
            final(self)@ == old(self)@.after_write(address, value),
    {
        if let Some(keyboard) = &mut self.keyboard {
            if keyboard.range.contains(address) {
                if address - keyboard.range.start == 1 {
                    keyboard.input.write_latch(value);
                }
                return ;
            }
        }
        let offset: usize = (address - self.address_range.start) as usize;
        let cells: usize = self.char_ram.len();
        if offset < cells {
            self.char_ram[offset] = value;
        } else if offset < 2 * cells {
            self.color_ram[offset - cells] = value;
        } else if offset == 2 * cells {
            self.write_control(value);
        } else if offset == 2 * cells + 1 {
            self.write_palette_data(value);
        }
    }

    fn peek(&self, address: u16) -> (value: u8)
        ensures
            value == self@.peek_value(address),
    {
        if let Some(keyboard) = &self.keyboard {
            if keyboard.range.contains(address) {
                let register: u16 = address - keyboard.range.start;
                return match register {
                    0 => keyboard.input.peek_data(),
                    1 => keyboard.input.peek_latch(),
                    _ => 0,
                };
            }
        }
        self.peek_register((address - self.address_range.start) as usize)
    }

    fn patch(&mut self, address: u16, value: u8)
        ensures
            final(self)@ == old(self)@.after_write(address, value),
    {
        self.write(address, value);
    }

    fn claims(&self, addr: u16) -> (claimed: bool)
        ensures
            claimed == (self.address_range.holds(addr) || self@.is_keyboard_address(addr)),
    {
        if self.address_range.contains(addr) {
            return true;
        }
        match &self.keyboard {
            Some(keyboard) => keyboard.range.contains(addr),
            None => false,
        }
    }

    fn tick(&mut self, cycles: u32)
        ensures
            final(self)@ == old(self)@.after_tick(cycles as int),
    {
        self.take_input();
        let ghost taken = self@;
        let ghost total = self.cycle_accumulator + cycles;
        let ghost per_frame = self.cycles_per_frame as int;
        let ghost mut frames: nat = 0;
        self.cycle_accumulator = self.cycle_accumulator + cycles as u64;
        while self.cycle_accumulator >= self.cycles_per_frame
            invariant
                per_frame == taken.cycles_per_frame > 0,
                self.cycles_per_frame == per_frame,
                total == frames * per_frame + self.cycle_accumulator,
                (CharDisplayView { cycle_accumulator: 0, ..self@ }).wf(),
                self@ == (CharDisplayView {
                    cycle_accumulator: self.cycle_accumulator,
                    ..taken.after_vsyncs(frames)
                }),
            decreases self.cycle_accumulator,
        {
            let ghost before = taken.after_vsyncs(frames);
            self.cycle_accumulator = self.cycle_accumulator - self.cycles_per_frame;
            self.on_vsync();
            proof {
                frames = frames + 1;
                assert((frames - 1) as nat + 1 == frames);
                assert((frames - 1) * per_frame + per_frame == frames * per_frame) by (nonlinear_arith);
                assert(taken.after_vsyncs(frames) == before.after_vsync());
                assert(self@ =~= (CharDisplayView {
                    cycle_accumulator: self.cycle_accumulator,
                    ..taken.after_vsyncs(frames)
                }));
            }
        }
        proof {
            vstd::arithmetic::div_mod::lemma_fundamental_div_mod_converse(
                total,
                per_frame,
                frames as int,
                self.cycle_accumulator as int,
            );
        }
    }

    fn reset(&mut self)
        ensures
            final(self)@ == old(self)@.after_reset(),
    {
        self.swap_on_vsync = false;
        self.swap_pending = false;
        self.status = 0;
        self.palette_update = PaletteUpdateState::Idle;
        self.cycle_accumulator = 0;
        if let Some(keyboard) = &mut self.keyboard {
            keyboard.input.reset();
        }
        log_reset(&mut self.log_sender, self.name, self.address_range.start);
    }

    fn irq_active(&self) -> (active: bool)
        ensures
            active == (self@.keyboard matches Some(k) && k.input.interrupt_flag),
    {
        match &self.keyboard {
            Some(keyboard) => keyboard.input.irq_active(),
            None => false,
        }
    }

    fn name(&self) -> (name: &str)
        ensures
            name@ == self.name@,
    {
        self.name
    }

    fn identity_address(&self) -> (address: u16)
        ensures
            address == self.address_range.start,
    {
        self.address_range.start
    }

    fn shutdown(&mut self)
        ensures
            final(self)@ == old(self)@.after_shutdown(),
    {
        self.frame_sink = None;
        if let Some(port) = &mut self.external_transport {
            port.shutdown();
        }
        if let Some(port) = &mut self.keyboard_transport {
            port.shutdown();
        }
    }
}

impl CharDisplay {
    /// Grid width in cells.
    pub fn columns(&self) -> (n: u32)
        ensures
            n == self@.columns,
    {
        self.columns
    }

    /// Grid height in cells.
    pub fn rows(&self) -> (n: u32)
        ensures
            n == self@.rows,
    {
        self.rows
    }

    /// Total number of cells (`columns * rows`).
    pub fn cells(&self) -> (n: usize)
        requires
            self.wf(),
        ensures
            n == self@.columns * self@.rows,
    {
        self.char_ram.len()
    }

    /// The glyph font fixed at configuration time.
    pub fn font(&self) -> (font: &Font)
        ensures
            font@ == self@.font,
    {
        &self.font
    }

    /// The current color palette.
    pub fn palette(&self) -> (palette: &[Rgb24])
        ensures
            palette@ == self@.palette,
    {
        self.palette.as_slice()
    }

    /// Attaches a push channel for composited frames. From then on every vsync offers the frame
    /// that is scanned out, without ever blocking.
    pub fn attach_frame_sink(&mut self, sink: Sender<DisplayFrame>)
        requires
            old(self).wf(),
        ensures
            final(self).wf(),
            final(self)@ == (CharDisplayView { frames: Some(SinkView::fresh(sink)), ..old(self)@ }),
    {
        self.frame_sink = Some(FrameSink::new(sink));
    }

    /// Attaches a transport for the external display protocol and sends the one-time header over
    /// it. Keyboard input arrives on the same transport.
    pub fn attach_external_transport(&mut self, transport: TransportPort<u8>)
        requires
            old(self).wf(),
        ensures
            final(self).wf(),
            final(self)@ == old(self)@.external_attached(transport@),
    {
        let mut port = transport;
        let palette_len: u16 = (self.palette.len() % 65536) as u16;
        let header = encode_header(
            self.columns,
            self.rows,
            self.frame_rate_hz,
            palette_len,
            &self.font,
        );
        port.send_bytes(header.as_slice());
        self.external_transport = Some(port);
        self.keyboard_relay = Some(KeyboardRelay::External);
    }

    /// Claims an additional, disjoint 2-byte address range (data and latch registers) for keyboard
    /// input.
    pub fn with_keyboard_range(self, range: AddressRange) -> (d: Self)
        requires
            self.wf(),
        ensures
            d.wf(),
            d@ == (CharDisplayView {
                keyboard: Some(KeyboardInputView { range, input: InputView::fresh() }),
                ..self@
            }),
    {
        let mut d = self;
        d.keyboard = Some(KeyboardInput { range, input: InputBuffer::new() });
        d
    }

    /// Sets the break key to recognize on the keyboard sub-range. A no-op if there is none.
    pub fn set_break_key(&mut self, break_key: u8)
        requires
            old(self).wf(),
        ensures
            final(self).wf(),
            final(self)@ == (match old(self)@.keyboard {
                Some(k) => old(self)@.with_input(
                    InputView { break_key: Some(break_key), ..k.input },
                ),
                None => old(self)@,
            }),
    {
        if let Some(keyboard) = &mut self.keyboard {
            keyboard.input.set_break_key(break_key);
        }
    }

    /// Attaches a transport for the keyboard sub-range alone.
    pub fn attach_keyboard_transport(&mut self, transport: TransportPort<u8>)
        requires
            old(self).wf(),
        ensures
            final(self).wf(),
            final(self)@ == (CharDisplayView {
                keyboard_port: Some(transport@),
                keyboard_relay: Some(KeyboardRelay::Keyboard),
                ..old(self)@
            }),
    {
        self.keyboard_transport = Some(transport);
        self.keyboard_relay = Some(KeyboardRelay::Keyboard);
    }

    /// Installs a sink for diagnostic messages (e.g. `reset()`).
    pub fn set_log_sender(&mut self, sender: LogSender)
        requires
            old(self).wf(),
        ensures
            final(self).wf(),
            final(self)@ == (CharDisplayView {
                log_capacity: sender.capacity,
                log: sender@,
                ..old(self)@
            }),
    {
        self.log_sender = sender;
    }

    /// Returns the (character, color) buffer pair currently intended for scanout: the scanout
    /// buffers in double-buffered mode, or the CPU-addressable buffers in single-buffered mode.
    pub fn frame_source(&self) -> (source: (&[u8], &[u8]))
        ensures
            source.0@ == self@.scanout().0,
            source.1@ == self@.scanout().1,
    {
        if self.double_buffered {
            (self.scanout_char_ram.as_slice(), self.scanout_color_ram.as_slice())
        } else {
            (self.char_ram.as_slice(), self.color_ram.as_slice())
        }
    }

    fn control_register(&self) -> (value: u8)
        ensures
            value == self@.control(),
    {
        let enable: u8 = if self.swap_on_vsync {
            CONTROL_SWAP_ON_VSYNC
        } else {
            0
        };
        let pending: u8 = if self.swap_pending {
            CONTROL_SWAP_PENDING
        } else {
            0
        };
        enable + pending
    }

    fn peek_register(&self, offset: usize) -> (value: u8)
        requires
            self.wf(),
            self.address_range.start + offset <= u16::MAX,
        ensures
            ({
                let cells = self.char_ram@.len();
                value == if offset < cells {
                    self.char_ram@[offset as int]
                } else if offset < 2 * cells {
                    self.color_ram@[offset - cells]
                } else if offset == 2 * cells {
                    self@.control()
                } else if offset == 2 * cells + 1 {
                    self.status
                } else {
                    0
                }
            }),
    {
        let cells: usize = self.char_ram.len();
        if offset < cells {
            self.char_ram[offset]
        } else if offset < 2 * cells {
            self.color_ram[offset - cells]
        } else if offset == 2 * cells {
            self.control_register()
        } else if offset == 2 * cells + 1 {
            self.status
        } else {
            0
        }
    }

    fn write_control(&mut self, value: u8)
        requires
            old(self).wf(),
        ensures
            final(self).wf(),
            final(self)@ == old(self)@.control_written(value),
    {
        self.swap_on_vsync = value & CONTROL_SWAP_ON_VSYNC != 0;
        if value & CONTROL_SWAP_REQUEST != 0 {
            self.request_swap();
        }
        if value & CONTROL_PALETTE_ARM != 0 {
            self.palette_update = PaletteUpdateState::ExpectIndex;
        }
    }

    fn write_palette_data(&mut self, value: u8)
        requires
            old(self).wf(),
        ensures
            final(self).wf(),
            final(self)@ == old(self)@.palette_data_written(value),
    {
        match self.palette_update {
            PaletteUpdateState::Idle => {},
            PaletteUpdateState::ExpectIndex => {
                self.palette_update = PaletteUpdateState::ExpectRed(value);
            },
            PaletteUpdateState::ExpectRed(index) => {
                self.palette_update = PaletteUpdateState::ExpectGreen(index, value);
            },
            PaletteUpdateState::ExpectGreen(index, red) => {
                self.palette_update = PaletteUpdateState::ExpectBlue(index, red, value);
            },
            PaletteUpdateState::ExpectBlue(index, red, green) => {
                let slot: usize = resolve_palette_index(index, self.palette.len());
                self.palette[slot] = Rgb24::new(red, green, value);
                self.status = self.status | STATUS_PALETTE_ACCEPTED;
                self.palette_update = PaletteUpdateState::Idle;
            },
        }
    }

    fn request_swap(&mut self)
        requires
            old(self).wf(),
        ensures
            final(self).wf(),
            final(self)@ == old(self)@.swap_requested(),
    {
        if !self.double_buffered {
            return ;
        }
        if self.swap_on_vsync {
            self.swap_pending = true;
        } else {
            self.perform_swap();
        }
    }

    fn perform_swap(&mut self)
        ensures
            final(self)@ == old(self)@.swapped(),
    {
        self.scanout_char_ram = copy_of(self.char_ram.as_slice());
        self.scanout_color_ram = copy_of(self.color_ram.as_slice());
    }

    fn on_vsync(&mut self)
        requires
            (CharDisplayView { cycle_accumulator: 0, ..old(self)@ }).wf(),
        ensures
            (CharDisplayView { cycle_accumulator: 0, ..final(self)@ }).wf(),
            final(self)@ == old(self)@.after_vsync(),
    {
        self.status = self.status | STATUS_VSYNC;
        if self.swap_pending {
            self.perform_swap();
            self.swap_pending = false;
        }
        assert(self.columns * self.rows * 256 <= usize::MAX) by (nonlinear_arith)
            requires
                self.columns * self.rows <= 32768,
        ;
        if self.frame_sink.is_some() {
            let (char_ram, color_ram) = self.frame_source();
            let pixels = composite(
                char_ram,
                color_ram,
                self.columns,
                self.rows,
                self.palette.as_slice(),
                &self.font,
            );
            let frame = DisplayFrame { pixels, columns: self.columns, rows: self.rows };
            if let Some(sink) = &mut self.frame_sink {
                sink.offer(frame);
            }
        }
        if self.external_transport.is_some() {
            let (char_ram, color_ram) = self.frame_source();
            let frame = encode_frame(char_ram, color_ram, self.palette.as_slice());
            if let Some(port) = &mut self.external_transport {
                port.send_bytes(frame.as_slice());
            }
        }
    }

    fn take_input(&mut self)
        requires
            old(self).wf(),
        ensures
            final(self).wf(),
            final(self)@ == old(self)@.input_taken(),
    {
        match self.keyboard_relay {
            Some(KeyboardRelay::External) => {
                if let Some(port) = &mut self.external_transport {
                    match &mut self.keyboard {
                        Some(keyboard) => {
                            keyboard.input.drain(port);
                        },
                        None => {
                            port.discard_inbound();
                        },
                    }
                }
            },
            Some(KeyboardRelay::Keyboard) => {
                if let Some(port) = &mut self.keyboard_transport {
                    match &mut self.keyboard {
                        Some(keyboard) => {
                            keyboard.input.drain(port);
                        },
                        None => {
                            port.discard_inbound();
                        },
                    }
                }
            },
            None => {},
        }
    }
}

} // verus!
