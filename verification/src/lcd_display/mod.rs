//! A memory-mapped HD44780-compatible character LCD display device.
//!
//! The device does not map its display memory into the bus address space. It has a real HD44780's
//! two-register interface, with DDRAM, CGRAM, and the address counter reached through these alone:
//!
//! | Register    | Offset | Access | Notes                                                      |
//! |-------------|--------|--------|------------------------------------------------------------|
//! | Instruction | `0`    | R/W    | W: issue an instruction. R: busy flag and address counter  |
//! | Data        | `1`    | R/W    | DDRAM or CGRAM at the current address                      |
//!
//! Every register write that can change what is shown composites a frame and offers it to the frame
//! sink, if one is attached.

pub mod cgrom;
pub mod cgrom_data;
pub mod compositing;
pub mod geometry;
pub mod laws;
pub mod picture;
pub mod protocol;

pub use self::geometry::Geometry;

use self::cgrom::CgRom;
use self::compositing::{composite, ddram_cursor_position, CursorState, LcdState};
use crate::address::AddressRange;
use crate::device::{log_reset, make_identity, IoDevice};
use crate::display::compositing::Rgb24;
use crate::display::NOMINAL_CLOCK_HZ;
use crate::frame_sink;
use crate::frame_sink::{FrameSink, SinkView};
use crate::logging::{LogCategory, LogLevel, LogRecord, LogRecordView, LogSender};
use crate::text::append_hex2;
use tokio::sync::mpsc::Sender;
use vstd::prelude::*;

verus! {

/// A composited frame ready for display, and the cell dimensions it was composited from.
pub struct LcdDisplayFrame {
    /// RGBA bytes, row-major, top row first, 4 bytes per pixel.
    pub pixels: Vec<u8>,
    /// Grid width in cells this frame was composited from.
    pub columns: u8,
    /// Grid height in cells this frame was composited from.
    pub rows: u8,
}

/// A frame, seen through its pixels.
#[verifier::ext_equal]
pub ghost struct LcdDisplayFrameView {
    pub pixels: Seq<u8>,
    pub columns: u8,
    pub rows: u8,
}

impl View for LcdDisplayFrame {
    type V = LcdDisplayFrameView;

    open spec fn view(&self) -> LcdDisplayFrameView {
        LcdDisplayFrameView { pixels: self.pixels@, columns: self.columns, rows: self.rows }
    }
}

impl Clone for LcdDisplayFrame {
    fn clone(&self) -> (frame: Self)
        ensures
            frame@ == self@,
    {
        LcdDisplayFrame { pixels: self.pixels.clone(), columns: self.columns, rows: self.rows }
    }
}

/// Busy duration of every instruction but the long ones, and of data register accesses.
pub const SHORT_INSTRUCTION_US: u64 = 37;

/// Busy duration of `Clear Display` and `Return Home`.
pub const LONG_INSTRUCTION_US: u64 = 1_520;

/// Per-register nibble-pairing state, tracked for the instruction and data registers separately so
/// that accesses to one do not disturb a pairing in progress on the other.
#[derive(Debug, Clone, Copy, PartialEq, Eq, Structural)]
pub enum NibbleState {
    /// 8-bit mode, or 4-bit mode awaiting the first (high) nibble.
    Idle,
    /// 4-bit mode: the high nibble (already in position) was received, the low one is awaited.
    HighReceived(u8),
}

impl NibbleState {
    /// The state after a raw register write.
    pub open spec fn after(self, raw: u8, eight_bit: bool) -> Self {
        if eight_bit {
            NibbleState::Idle
        } else {
            match self {
                NibbleState::Idle => NibbleState::HighReceived((raw / 16 * 16) as u8),
                NibbleState::HighReceived(_) => NibbleState::Idle,
            }
        }
    }

    /// The byte that a raw register write completes: at once in 8-bit mode, with the second nibble
    /// in 4-bit mode.
    pub open spec fn assembled(self, raw: u8, eight_bit: bool) -> Option<u8> {
        if eight_bit {
            Some(raw)
        } else {
            match self {
                NibbleState::Idle => None,
                NibbleState::HighReceived(high) => Some((high + raw / 16) as u8),
            }
        }
    }

    /// What holds of every state: a nibble that was received is in the high position.
    pub open spec fn wf(self) -> bool {
        self matches NibbleState::HighReceived(high) ==> high % 16 == 0
    }

    /// Feeds one raw register write, and returns the byte that it completes.
    pub fn feed(&mut self, raw: u8, eight_bit: bool) -> (byte: Option<u8>)
        requires
            old(self).wf(),
        ensures
            final(self).wf(),
            *final(self) == old(self).after(raw, eight_bit),
            byte == old(self).assembled(raw, eight_bit),
    {
        if eight_bit {
            *self = NibbleState::Idle;
            return Some(raw);
        }
        match *self {
            NibbleState::Idle => {
                *self = NibbleState::HighReceived(raw / 16 * 16);
                None
            },
            NibbleState::HighReceived(high) => {
                *self = NibbleState::Idle;
                Some(high + raw / 16)
            },
        }
    }
}

/// In 4-bit mode a byte is the high nibbles of two writes.
pub proof fn nibbles_pair_up(first: u8, second: u8)
    ensures
        NibbleState::Idle.assembled(first, false) is None,
        NibbleState::Idle.after(first, false).assembled(second, false) == Some(
            (first / 16 * 16 + second / 16) as u8,
        ),
        NibbleState::Idle.after(first, false).after(second, false) == NibbleState::Idle,
{
}

/// The address counter, bundled with which RAM it currently targets so that a step is never taken
/// with the wrong RAM's modulus.
#[derive(Debug, Clone, Copy, PartialEq, Eq, Structural)]
pub enum AddressCounterTarget {
    /// Index into the 80-byte DDRAM store.
    Ddram(u8),
    /// Index into the 64-byte CGRAM store.
    Cgram(u8),
}

impl AddressCounterTarget {
    /// What holds of every counter.
    pub open spec fn wf(self) -> bool {
        match self {
            AddressCounterTarget::Ddram(address) => address < 80,
            AddressCounterTarget::Cgram(address) => address < 64,
        }
    }

    /// The counter one step on or back, wrapping within the RAM that it targets.
    pub open spec fn advanced(self, forward: bool) -> Self {
        let step = if forward {
            1int
        } else {
            -1
        };
        match self {
            AddressCounterTarget::Ddram(address) => AddressCounterTarget::Ddram(
                ((address + step) % 80) as u8,
            ),
            AddressCounterTarget::Cgram(address) => AddressCounterTarget::Cgram(
                ((address + step) % 64) as u8,
            ),
        }
    }

    /// The address, whichever RAM it targets.
    pub open spec fn address(self) -> u8 {
        match self {
            AddressCounterTarget::Ddram(address) => address,
            AddressCounterTarget::Cgram(address) => address,
        }
    }

    /// Advances the counter by one position.
    pub fn advance(&mut self, forward: bool)
        requires
            old(self).wf(),
        ensures
            final(self).wf(),
            *final(self) == old(self).advanced(forward),
    {
        *self = match *self {
            AddressCounterTarget::Ddram(address) => AddressCounterTarget::Ddram(
                if forward {
                    (address + 1) % 80
                } else {
                    (address + 79) % 80
                },
            ),
            AddressCounterTarget::Cgram(address) => AddressCounterTarget::Cgram(
                if forward {
                    (address + 1) % 64
                } else {
                    (address + 63) % 64
                },
            ),
        };
    }

    /// The address, whichever RAM it targets.
    pub fn value(&self) -> (address: u8)
        ensures
            address == self.address(),
    {
        match *self {
            AddressCounterTarget::Ddram(address) => address,
            AddressCounterTarget::Cgram(address) => address,
        }
    }
}

/// A step forward and a step back cancel out.
pub proof fn address_counter_steps_cancel(counter: AddressCounterTarget, forward: bool)
    requires
        counter.wf(),
    ensures
        counter.advanced(forward).wf(),
        counter.advanced(forward).advanced(!forward) == counter,
{
}

/// A memory-mapped HD44780-compatible character LCD display device.
pub struct LcdDisplay {
    pub name: &'static str,
    pub address_range: AddressRange,
    pub geometry: &'static Geometry,
    pub dual_line: bool,
    pub cgrom: CgRom,
    pub background: Rgb24,
    pub foreground: Rgb24,
    pub instruction_nibble: NibbleState,
    pub data_nibble: NibbleState,
    /// DL, from Function Set; 8-bit at reset.
    pub interface_width_8bit: bool,
    /// F, from Function Set.
    pub font_5x10: bool,
    /// ID: true to increment.
    pub entry_id: bool,
    /// S: DDRAM writes shift the display.
    pub entry_shift: bool,
    pub display_on: bool,
    pub cursor_on: bool,
    pub cursor_blink: bool,
    pub ac: AddressCounterTarget,
    pub ddram: [u8; 80],
    pub cgram: [u8; 64],
    /// One shift offset per 40-byte DDRAM line; single-line geometries use only the first, modulo
    /// 80.
    pub line_shift: [u8; 2],
    pub clock_hz: u64,
    pub busy_cycles_remaining: u64,
    /// Push channel for composited frames.
    pub frame_sink: Option<FrameSink<LcdDisplayFrame>>,
    pub log_sender: LogSender,
}

/// An LCD, seen through its memories and channels.
#[verifier::ext_equal]
pub ghost struct LcdView {
    pub name: Seq<char>,
    pub address_range: AddressRange,
    pub geometry: Geometry,
    pub table: Seq<u8>,
    pub background: Rgb24,
    pub foreground: Rgb24,
    pub instruction_nibble: NibbleState,
    pub data_nibble: NibbleState,
    pub interface_width_8bit: bool,
    pub font_5x10: bool,
    pub entry_id: bool,
    pub entry_shift: bool,
    pub display_on: bool,
    pub cursor_on: bool,
    pub cursor_blink: bool,
    pub ac: AddressCounterTarget,
    pub ddram: Seq<u8>,
    pub cgram: Seq<u8>,
    pub line_shift: [u8; 2],
    pub clock_hz: u64,
    pub busy_cycles_remaining: u64,
    pub frames: Option<SinkView<LcdDisplayFrame, LcdDisplayFrameView>>,
    pub log_capacity: usize,
    pub log: Seq<LogRecordView>,
}

impl View for LcdDisplay {
    type V = LcdView;

    open spec fn view(&self) -> LcdView {
        LcdView {
            name: self.name@,
            address_range: self.address_range,
            geometry: *self.geometry,
            table: self.cgrom@,
            background: self.background,
            foreground: self.foreground,
            instruction_nibble: self.instruction_nibble,
            data_nibble: self.data_nibble,
            interface_width_8bit: self.interface_width_8bit,
            font_5x10: self.font_5x10,
            entry_id: self.entry_id,
            entry_shift: self.entry_shift,
            display_on: self.display_on,
            cursor_on: self.cursor_on,
            cursor_blink: self.cursor_blink,
            ac: self.ac,
            ddram: self.ddram@,
            cgram: self.cgram@,
            line_shift: self.line_shift,
            clock_hz: self.clock_hz,
            busy_cycles_remaining: self.busy_cycles_remaining,
            frames: frame_sink::view_of(self.frame_sink),
            log_capacity: self.log_sender.capacity,
            log: self.log_sender@,
        }
    }
}

/// The physical DDRAM index of a raw HD44780 address. On dual-line geometries bit 6 selects the
/// 40-byte line and the low 6 bits the position within it; on single-line ones DDRAM is contiguous.
pub open spec fn folded(dual_line: bool, raw: u8) -> int {
    if dual_line {
        raw as int / 64 % 2 * 40 + raw as int % 64 % 40
    } else {
        raw as int % 80
    }
}

/// A shift offset one step on or back.
pub open spec fn shifted_by_one(offset: u8, forward: bool, modulus: int) -> u8 {
    ((offset + (if forward { 1int } else { -1 })) % modulus) as u8
}

/// What is logged of an access that was discarded while the device was busy.
pub open spec fn discard_record(identity: Seq<char>, what: Seq<char>) -> LogRecordView {
    LogRecordView {
        level: LogLevel::Warn,
        category: LogCategory::Device,
        message: identity + what,
    }
}

impl LcdView {
    /// What holds of every LCD.
    pub open spec fn wf(self) -> bool {
        &&& self.geometry.fits()
        &&& self.instruction_nibble.wf()
        &&& self.data_nibble.wf()
        &&& self.ac.wf()
        &&& self.ddram.len() == 80
        &&& self.cgram.len() == 64
        &&& self.line_shift[0] < 80
        &&& self.geometry.dual_line() ==> self.line_shift[0] < 40 && self.line_shift[1] < 40
    }

    /// Whether the device is executing an instruction.
    pub open spec fn busy(self) -> bool {
        self.busy_cycles_remaining > 0
    }

    /// The device after it became busy for a duration in microseconds: at least one cycle.
    pub open spec fn busy_for(self, duration_us: u64) -> Self {
        let cycles = self.clock_hz * duration_us / 1_000_000;
        LcdView {
            busy_cycles_remaining: if cycles < 1 {
                1
            } else {
                cycles as u64
            },
            ..self
        }
    }

    /// The device after every DDRAM line's offset moved by one position.
    pub open spec fn display_shifted(self, forward: bool) -> Self {
        LcdView {
            line_shift: if self.geometry.dual_line() {
                [
                    shifted_by_one(self.line_shift[0], forward, 40),
                    shifted_by_one(self.line_shift[1], forward, 40),
                ]
            } else {
                [shifted_by_one(self.line_shift[0], forward, 80), self.line_shift[1]]
            },
            ..self
        }
    }

    /// The device after the effect of an instruction other than `0x00`.
    pub open spec fn instructed(self, byte: u8) -> Self {
        if byte <= 0x01 {
            // Clear Display
            LcdView {
                ddram: Seq::new(80, |i: int| 0x20u8),
                ac: AddressCounterTarget::Ddram(0),
                entry_id: true,
                ..self
            }
        } else if byte <= 0x03 {
            // Return Home
            LcdView { ac: AddressCounterTarget::Ddram(0), line_shift: [0, 0], ..self }
        } else if byte <= 0x07 {
            // Entry Mode Set: 0000 01 ID S
            LcdView { entry_id: byte / 2 % 2 == 1, entry_shift: byte % 2 == 1, ..self }
        } else if byte <= 0x0F {
            // Display On/Off Control: 0000 1 D C B
            LcdView {
                display_on: byte / 4 % 2 == 1,
                cursor_on: byte / 2 % 2 == 1,
                cursor_blink: byte % 2 == 1,
                ..self
            }
        } else if byte <= 0x1F {
            // Cursor or Display Shift: 0001 SC RL --
            let right = byte / 4 % 2 == 1;
            if byte / 8 % 2 == 1 {
                self.display_shifted(right)
            } else {
                LcdView { ac: self.ac.advanced(right), ..self }
            }
        } else if byte <= 0x3F {
            // Function Set: 001 DL N F --
            LcdView {
                interface_width_8bit: byte / 16 % 2 == 1,
                font_5x10: byte / 4 % 2 == 1,
                ..self
            }
        } else if byte <= 0x7F {
            // Set CGRAM Address: 01 AAAAAA
            LcdView { ac: AddressCounterTarget::Cgram((byte % 64) as u8), ..self }
        } else {
            // Set DDRAM Address: 1 AAAAAAA
            LcdView {
                ac: AddressCounterTarget::Ddram(
                    folded(self.geometry.dual_line(), (byte % 128) as u8) as u8,
                ),
                ..self
            }
        }
    }

    /// The device after it has executed an instruction. `0x00` is none: it has no effect and takes
    /// no time.
    pub open spec fn executed(self, byte: u8) -> Self {
        if byte == 0 {
            self
        } else {
            self.instructed(byte).busy_for(
                if byte <= 0x03 {
                    LONG_INSTRUCTION_US
                } else {
                    SHORT_INSTRUCTION_US
                },
            )
        }
    }

    /// What the RAM that the address counter targets holds there.
    pub open spec fn data(self) -> u8 {
        match self.ac {
            AddressCounterTarget::Ddram(address) => self.ddram[address as int],
            AddressCounterTarget::Cgram(address) => self.cgram[address as int],
        }
    }

    /// The device after a data write: the byte is stored, the address counter moves on, and the
    /// display shifts along with DDRAM writes if so set.
    pub open spec fn data_written(self, byte: u8) -> Self {
        let stored = match self.ac {
            AddressCounterTarget::Ddram(address) => LcdView {
                ddram: self.ddram.update(address as int, byte),
                ..self
            },
            AddressCounterTarget::Cgram(address) => LcdView {
                cgram: self.cgram.update(address as int, byte),
                ..self
            },
        };
        let moved = LcdView { ac: self.ac.advanced(self.entry_id), ..stored };
        let shifted = if self.ac is Ddram && self.entry_shift {
            moved.display_shifted(self.entry_id)
        } else {
            moved
        };
        shifted.busy_for(SHORT_INSTRUCTION_US)
    }

    /// The cursor as it is drawn.
    pub open spec fn cursor(self) -> CursorState {
        CursorState {
            position: match self.ac {
                AddressCounterTarget::Ddram(address) => compositing::position_of(
                    address as int,
                    self.geometry,
                    self.line_shift,
                ),
                AddressCounterTarget::Cgram(_) => None,
            },
            visible: self.cursor_on,
            blinking: self.cursor_blink,
        }
    }

    /// What a frame is composited from.
    pub open spec fn state(self) -> LcdState {
        LcdState {
            ddram: self.ddram,
            cgram: self.cgram,
            geometry: self.geometry,
            line_shift: self.line_shift,
            cursor: self.cursor(),
            display_on: self.display_on,
            font_5x10: self.font_5x10,
            table: self.table,
            background: self.background,
            foreground: self.foreground,
        }
    }

    /// The device after a frame was offered to its sink.
    pub open spec fn frame_pushed(self) -> Self {
        LcdView {
            frames: frame_sink::after_offer(
                self.frames,
                LcdDisplayFrameView {
                    pixels: self.state().frame(),
                    columns: self.geometry.columns,
                    rows: self.geometry.rows,
                },
            ),
            ..self
        }
    }

    /// The device after it has logged a discarded access.
    pub open spec fn discarded(self, what: Seq<char>) -> Self {
        LcdView {
            log: crate::logging::after_log(
                self.log,
                self.log_capacity as nat,
                discard_record(
                    crate::device::identity_text(self.name, self.address_range.start),
                    what,
                ),
            ),
            ..self
        }
    }

    /// The device after a raw write to the instruction register.
    pub open spec fn instruction_register_written(self, raw: u8) -> Self {
        let fed = LcdView {
            instruction_nibble: self.instruction_nibble.after(raw, self.interface_width_8bit),
            ..self
        };
        match self.instruction_nibble.assembled(raw, self.interface_width_8bit) {
            Some(byte) => if self.busy() {
                fed.discarded(
                    " discarded instruction 0x"@ + crate::text::hex2(byte) + " write while busy"@,
                )
            } else {
                fed.executed(byte).frame_pushed()
            },
            None => fed,
        }
    }

    /// The device after a raw write to the data register.
    pub open spec fn data_register_written(self, raw: u8) -> Self {
        let fed = LcdView {
            data_nibble: self.data_nibble.after(raw, self.interface_width_8bit),
            ..self
        };
        match self.data_nibble.assembled(raw, self.interface_width_8bit) {
            Some(byte) => if self.busy() {
                fed.discarded(
                    " discarded data 0x"@ + crate::text::hex2(byte) + " write while busy"@,
                )
            } else {
                fed.data_written(byte).frame_pushed()
            },
            None => fed,
        }
    }

    /// What the instruction register shows: the busy flag in bit 7, and the address counter.
    pub open spec fn instruction_value(self) -> u8 {
        (self.ac.address() + (if self.busy() { 0x80int } else { 0 })) as u8
    }

    /// What a read at `offset` returns. While busy, data cannot be read.
    pub open spec fn read_value(self, offset: int) -> u8 {
        if offset == 0 {
            self.instruction_value()
        } else if offset == 1 {
            if self.busy() {
                0
            } else {
                self.data()
            }
        } else {
            0
        }
    }

    /// The device after a read at `offset`. Unlike a write, a read never shifts the display.
    pub open spec fn after_read(self, offset: int) -> Self {
        if offset == 1 {
            if self.busy() {
                self.discarded(" discarded data read while busy"@)
            } else {
                LcdView { ac: self.ac.advanced(self.entry_id), ..self }.busy_for(
                    SHORT_INSTRUCTION_US,
                )
            }
        } else {
            self
        }
    }

    /// The device after a write at `offset`.
    pub open spec fn after_write(self, offset: int, value: u8) -> Self {
        if offset == 0 {
            self.instruction_register_written(value)
        } else if offset == 1 {
            self.data_register_written(value)
        } else {
            self
        }
    }

    /// What a peek at `offset` shows.
    pub open spec fn peek_value(self, offset: int) -> u8 {
        if offset == 0 {
            self.instruction_value()
        } else if offset == 1 {
            self.data()
        } else {
            0
        }
    }

    /// The device after `cycles` clock cycles.
    pub open spec fn after_tick(self, cycles: u32) -> Self {
        LcdView {
            busy_cycles_remaining: if self.busy_cycles_remaining <= cycles {
                0
            } else {
                (self.busy_cycles_remaining - cycles) as u64
            },
            ..self
        }
    }

    /// The device after a reset: its modes are back at their start, DDRAM and CGRAM are left as
    /// they were.
    pub open spec fn after_reset(self) -> Self {
        LcdView {
            instruction_nibble: NibbleState::Idle,
            data_nibble: NibbleState::Idle,
            interface_width_8bit: true,
            font_5x10: false,
            entry_id: true,
            entry_shift: false,
            display_on: false,
            cursor_on: false,
            cursor_blink: false,
            ac: AddressCounterTarget::Ddram(0),
            line_shift: [0, 0],
            busy_cycles_remaining: 0,
            log: crate::logging::after_log(
                self.log,
                self.log_capacity as nat,
                crate::device::reset_record(self.name, self.address_range.start),
            ),
            ..self
        }
    }
}

impl LcdDisplay {
    /// Creates a device. `address_range` must span exactly 2 bytes. `clock_hz` is the CPU's clock
    /// speed, or `None` if it runs unthrottled.
    pub fn new(
        name: &'static str,
        address_range: AddressRange,
        geometry: &'static Geometry,
        clock_hz: Option<u64>,
        cgrom: CgRom,
        background: Rgb24,
        foreground: Rgb24,
    ) -> (d: Self)
        requires
            address_range.size() == 2,
            geometry.fits(),
        ensures
            d.wf(),
            d@ == (LcdView {
                name: name@,
                address_range,
                geometry: *geometry,
                table: cgrom@,
                background,
                foreground,
                instruction_nibble: NibbleState::Idle,
                data_nibble: NibbleState::Idle,
                interface_width_8bit: true,
                font_5x10: false,
                entry_id: true,
                entry_shift: false,
                display_on: false,
                cursor_on: false,
                cursor_blink: false,
                ac: AddressCounterTarget::Ddram(0),
                ddram: Seq::new(80, |i: int| 0u8),
                cgram: Seq::new(64, |i: int| 0u8),
                line_shift: [0, 0],
                clock_hz: match clock_hz {
                    Some(hz) => hz,
                    None => NOMINAL_CLOCK_HZ,
                },
                busy_cycles_remaining: 0,
                frames: None,
                log_capacity: 0,
                log: Seq::empty(),
            }),
    {
        let dual_line = geometry.is_dual_line();
        let d = LcdDisplay {
            name,
            address_range,
            geometry,
            dual_line,
            cgrom,
            background,
            foreground,
            instruction_nibble: NibbleState::Idle,
            data_nibble: NibbleState::Idle,
            interface_width_8bit: true,
            font_5x10: false,
            entry_id: true,
            entry_shift: false,
            display_on: false,
            cursor_on: false,
            cursor_blink: false,
            ac: AddressCounterTarget::Ddram(0),
            ddram: [0u8; 80],
            cgram: [0u8; 64],
            line_shift: [0, 0],
            clock_hz: match clock_hz {
                Some(hz) => hz,
                None => NOMINAL_CLOCK_HZ,
            },
            busy_cycles_remaining: 0,
            frame_sink: None,
            log_sender: LogSender::default(),
        };
        assert(d.ddram@ =~= Seq::new(80, |i: int| 0u8));
        assert(d.cgram@ =~= Seq::new(64, |i: int| 0u8));
        d
    }

    /// The physical character grid fixed at configuration time.
    pub fn geometry(&self) -> (geometry: &'static Geometry)
        ensures
            *geometry == self@.geometry,
    {
        self.geometry
    }

    /// The character generator ROM table fixed at configuration time.
    pub fn cgrom(&self) -> (table: &CgRom)
        ensures
            table@ == self@.table,
    {
        &self.cgrom
    }

    /// The background color fixed at configuration time.
    pub fn background(&self) -> (color: Rgb24)
        ensures
            color == self@.background,
    {
        self.background
    }

    /// The foreground color fixed at configuration time.
    pub fn foreground(&self) -> (color: Rgb24)
        ensures
            color == self@.foreground,
    {
        self.foreground
    }

    /// Installs a sink for diagnostic messages (e.g. `reset()`, accesses discarded while busy).
    pub fn set_log_sender(&mut self, sender: LogSender)
        requires
            old(self).wf(),
        ensures
            final(self).wf(),
            final(self)@ == (LcdView {
                log_capacity: sender.capacity,
                log: sender@,
                ..old(self)@
            }),
    {
        self.log_sender = sender;
    }

    /// Attaches a push channel for composited frames. From then on every register write that takes
    /// effect offers the frame that is shown, without ever blocking.
    pub fn attach_frame_sink(&mut self, sink: Sender<LcdDisplayFrame>)
        requires
            old(self).wf(),
        ensures
            final(self).wf(),
            final(self)@ == (LcdView { frames: Some(SinkView::fresh(sink)), ..old(self)@ }),
    {
        self.frame_sink = Some(FrameSink::new(sink));
    }

    fn compositing_cursor(&self) -> (cursor: CursorState)
        ensures
            cursor == self@.cursor(),
    {
        let position = match self.ac {
            AddressCounterTarget::Ddram(address) => ddram_cursor_position(
                address,
                self.geometry,
                &self.line_shift,
            ),
            AddressCounterTarget::Cgram(_) => None,
        };
        CursorState { position, visible: self.cursor_on, blinking: self.cursor_blink }
    }

    fn push_frame(&mut self)
        requires
            old(self).wf(),
        ensures
            final(self).wf(),
            final(self)@ == old(self)@.frame_pushed(),
    {
        if self.frame_sink.is_none() {
            return ;
        }
        let cursor = self.compositing_cursor();
        let pixels = composite(
            &self.ddram,
            &self.cgram,
            self.geometry,
            &self.line_shift,
            cursor,
            self.display_on,
            self.font_5x10,
            &self.cgrom,
            self.background,
            self.foreground,
        );
        let frame = LcdDisplayFrame {
            pixels,
            columns: self.geometry.columns,
            rows: self.geometry.rows,
        };
        if let Some(sink) = &mut self.frame_sink {
            sink.offer(frame);
        }
    }

    fn busy(&self) -> (busy: bool)
        ensures
            busy == self@.busy(),
    {
        self.busy_cycles_remaining > 0
    }

    fn set_busy(&mut self, duration_us: u64)
        requires
            duration_us <= 1_000_000,
        ensures
            final(self)@ == old(self)@.busy_for(duration_us),
            final(self).dual_line == old(self).dual_line,
    {
        let ghost product = self.clock_hz * duration_us;
        assert(0 <= product <= u64::MAX * 1_000_000) by (nonlinear_arith)
            requires
                product == self.clock_hz * duration_us,
                duration_us <= 1_000_000,
        ;
        let cycles: u128 = (self.clock_hz as u128 * duration_us as u128) / 1_000_000;
        self.busy_cycles_remaining = if cycles < 1 {
            1
        } else {
            cycles as u64
        };
    }

    fn fold_ddram_address(&self, raw: u8) -> (address: u8)
        requires
            self.wf(),
        ensures
            address == folded(self@.geometry.dual_line(), raw),
            address < 80,
    {
        if self.dual_line {
            let line: u8 = raw / 64 % 2;
            let position: u8 = raw % 64;
            line * 40 + position % 40
        } else {
            raw % 80
        }
    }

    fn clear_display(&mut self)
        requires
            old(self).wf(),
        ensures
            final(self).wf(),
            final(self)@ == old(self)@.instructed(0x01),
    {
        self.ddram = [0x20u8; 80];
        assert(self.ddram@ =~= Seq::new(80, |i: int| 0x20u8));
        self.ac = AddressCounterTarget::Ddram(0);
        self.entry_id = true;
    }

    fn apply_short_instruction(&mut self, byte: u8)
        requires
            old(self).wf(),
            0x04 <= byte <= 0x1F,
        ensures
            final(self).wf(),
            final(self)@ == old(self)@.instructed(byte),
    {
        if byte <= 0x07 {
            self.entry_id = byte / 2 % 2 == 1;
            self.entry_shift = byte % 2 == 1;
        } else if byte <= 0x0F {
            self.display_on = byte / 4 % 2 == 1;
            self.cursor_on = byte / 2 % 2 == 1;
            self.cursor_blink = byte % 2 == 1;
        } else {
            let right = byte / 4 % 2 == 1;
            if byte / 8 % 2 == 1 {
                self.shift_display(right);
            } else {
                self.ac.advance(right);
            }
        }
    }

    #[verifier::rlimit(30)]
    fn apply_instruction(&mut self, byte: u8)
        requires
            old(self).wf(),
        ensures
            final(self).wf(),
            final(self)@ == old(self)@.instructed(byte),
    {
        if byte <= 0x01 {
            self.clear_display();
        } else if byte <= 0x03 {
            self.ac = AddressCounterTarget::Ddram(0);
            self.line_shift = [0, 0];
        } else if byte <= 0x1F {
            self.apply_short_instruction(byte);
        } else if byte <= 0x3F {
            self.interface_width_8bit = byte / 16 % 2 == 1;
            self.font_5x10 = byte / 4 % 2 == 1;
        } else if byte <= 0x7F {
            self.ac = AddressCounterTarget::Cgram(byte % 64);
        } else {
            self.ac = AddressCounterTarget::Ddram(self.fold_ddram_address(byte % 128));
        }
    }

    fn execute_instruction(&mut self, byte: u8)
        requires
            old(self).wf(),
        ensures
            final(self).wf(),
            final(self)@ == old(self)@.executed(byte),
    {
        if byte == 0 {
            return ;
        }
        self.apply_instruction(byte);
        if byte <= 0x03 {
            self.set_busy(LONG_INSTRUCTION_US);
        } else {
            self.set_busy(SHORT_INSTRUCTION_US);
        }
    }

    fn shift_display(&mut self, forward: bool)
        requires
            old(self).wf(),
        ensures
            final(self).wf(),
            final(self)@ == old(self)@.display_shifted(forward),
    {
        let first = self.line_shift[0];
        let second = self.line_shift[1];
        self.line_shift = if self.dual_line {
            if forward {
                [(first + 1) % 40, (second + 1) % 40]
            } else {
                [(first + 39) % 40, (second + 39) % 40]
            }
        } else {
            if forward {
                [(first + 1) % 80, second]
            } else {
                [(first + 79) % 80, second]
            }
        };
        assert(self.line_shift =~= old(self)@.display_shifted(forward).line_shift);
    }

    fn write_data(&mut self, byte: u8)
        requires
            old(self).wf(),
        ensures
            final(self).wf(),
            final(self)@ == old(self)@.data_written(byte),
    {
        let targeted_ddram = match self.ac {
            AddressCounterTarget::Ddram(address) => {
                self.ddram[address as usize] = byte;
                true
            },
            AddressCounterTarget::Cgram(address) => {
                self.cgram[address as usize] = byte;
                false
            },
        };
        self.ac.advance(self.entry_id);
        if targeted_ddram && self.entry_shift {
            self.shift_display(self.entry_id);
        }
        self.set_busy(SHORT_INSTRUCTION_US);
    }

    fn log_discard(&mut self, what: &str)
        requires
            old(self).wf(),
        ensures
            final(self).wf(),
            final(self)@ == old(self)@.discarded(what@),
    {
        let mut message = make_identity(self.name, self.address_range.start);
        message.append(what);
        self.log_sender.log(
            LogRecord { level: LogLevel::Warn, category: LogCategory::Device, message },
        );
    }

    fn write_instruction_register(&mut self, raw: u8)
        requires
            old(self).wf(),
        ensures
            final(self).wf(),
            final(self)@ == old(self)@.instruction_register_written(raw),
    {
        let assembled = self.instruction_nibble.feed(raw, self.interface_width_8bit);
        if let Some(byte) = assembled {
            if self.busy() {
                let mut what = String::from_str(" discarded instruction 0x");
                append_hex2(&mut what, byte);
                what.append(" write while busy");
                self.log_discard(what.as_str());
                return ;
            }
            self.execute_instruction(byte);
            self.push_frame();
        }
    }

    fn write_data_register(&mut self, raw: u8)
        requires
            old(self).wf(),
        ensures
            final(self).wf(),
            final(self)@ == old(self)@.data_register_written(raw),
    {
        let assembled = self.data_nibble.feed(raw, self.interface_width_8bit);
        if let Some(byte) = assembled {
            if self.busy() {
                let mut what = String::from_str(" discarded data 0x");
                append_hex2(&mut what, byte);
                what.append(" write while busy");
                self.log_discard(what.as_str());
                return ;
            }
            self.write_data(byte);
            self.push_frame();
        }
    }

    fn read_instruction(&self) -> (value: u8)
        requires
            self.wf(),
        ensures
            value == self@.instruction_value(),
    {
        let busy_bit: u8 = if self.busy() {
            0x80
        } else {
            0
        };
        busy_bit + self.ac.value()
    }

    fn read_data(&mut self) -> (value: u8)
        requires
            old(self).wf(),
        ensures
            final(self).wf(),
            value == old(self)@.read_value(1),
            final(self)@ == old(self)@.after_read(1),
    {
        if self.busy() {
            self.log_discard(" discarded data read while busy");
            return 0;
        }
        let value: u8 = self.peek_data();
        self.ac.advance(self.entry_id);
        self.set_busy(SHORT_INSTRUCTION_US);
        value
    }

    fn peek_data(&self) -> (value: u8)
        requires
            self.wf(),
        ensures
            value == self@.data(),
    {
        match self.ac {
            AddressCounterTarget::Ddram(address) => self.ddram[address as usize],
            AddressCounterTarget::Cgram(address) => self.cgram[address as usize],
        }
    }
}

impl IoDevice for LcdDisplay {
    open spec fn wf(&self) -> bool {
        &&& self@.wf()
        &&& self.dual_line == self@.geometry.dual_line()
    }

    open spec fn mapped_at(&self, address: u16) -> bool {
        address >= self.address_range.start
    }

    open spec fn can_tick(&self, cycles: u32) -> bool {
        true
    }

    open spec fn written(before: Self, after: Self, address: u16, value: u8) -> bool {
        after@ == before@.after_write(address - before@.address_range.start, value)
    }

    fn read(&mut self, address: u16) -> (value: u8)
        ensures
            value == old(self)@.read_value(address - old(self)@.address_range.start),
            final(self)@ == old(self)@.after_read(address - old(self)@.address_range.start),
    {
        let offset: u16 = address - self.address_range.start;
        match offset {
            0 => self.read_instruction(),
            1 => self.read_data(),
            _ => 0,
        }
    }

    fn write(&mut self, address: u16, value: u8)
        ensures
            final(self)@ == old(self)@.after_write(
                address - old(self)@.address_range.start,
                value,
            ),
    {
        let offset: u16 = address - self.address_range.start;
        match offset {
            0 => {
                self.write_instruction_register(value);
            },
            1 => {
                self.write_data_register(value);
            },
            _ => {},
        }
    }

    fn peek(&self, address: u16) -> (value: u8)
        ensures
            value == self@.peek_value(address - self@.address_range.start),
    {
        let offset: u16 = address - self.address_range.start;
        match offset {
            0 => self.read_instruction(),
            1 => self.peek_data(),
            _ => 0,
        }
    }

    fn patch(&mut self, address: u16, value: u8)
        ensures
            final(self)@ == old(self)@.after_write(
                address - old(self)@.address_range.start,
                value,
            ),
    {
        self.write(address, value);
    }

    fn claims(&self, addr: u16) -> (claimed: bool)
        ensures
            claimed == self.address_range.holds(addr),
    {
        self.address_range.contains(addr)
    }

    fn tick(&mut self, cycles: u32)
        ensures
            final(self)@ == old(self)@.after_tick(cycles),
    {
        self.busy_cycles_remaining = self.busy_cycles_remaining.saturating_sub(cycles as u64);
    }

    fn reset(&mut self)
        ensures
            final(self)@ == old(self)@.after_reset(),
    {
        self.instruction_nibble = NibbleState::Idle;
        self.data_nibble = NibbleState::Idle;
        self.interface_width_8bit = true;
        self.font_5x10 = false;
        self.entry_id = true;
        self.entry_shift = false;
        self.display_on = false;
        self.cursor_on = false;
        self.cursor_blink = false;
        self.ac = AddressCounterTarget::Ddram(0);
        self.line_shift = [0, 0];
        self.busy_cycles_remaining = 0;
        log_reset(&mut self.log_sender, self.name, self.address_range.start);
    }

    fn name(&self) -> (name: &str)
        ensures
            name@ == self.name@,
    {
        self.name
    }

    fn identity_address(&self) -> (address: u16)
        ensures
            address == self.address_range.start,
    {
        self.address_range.start
    }

    /// Closes the frame channel from this end.
    fn shutdown(&mut self)
        ensures
            final(self)@ == (LcdView { frames: None, ..old(self)@ }),
    {
        self.frame_sink = None;
    }
}

} // verus!
