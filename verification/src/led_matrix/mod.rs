//! A memory-mapped RGB LED matrix display device.
//!
//! The device occupies two disjoint bus ranges:
//!
//! | Region           | Size              | Access | Notes                                        |
//! |------------------|-------------------|--------|----------------------------------------------|
//! | Pixel memory     | `matrices * 1024` | R/W    | A raster of palette indices, see [`raster`]  |
//! | Command register | 1                 | W      | Selects an operation. Always reads `0`       |
//! | Data register    | 1                 | R/W    | Argument and result bytes of the operation   |
//!
//! Writing the command register discards whatever sequence was in progress and arms another on the
//! data register. Most commands take effect once their argument bytes have been written; a palette
//! read takes one argument byte, the index, and then hands out three result bytes.
//!
//! Palette entries are stored as RGB565 but exchanged with the CPU as 8-bit channels, masked down
//! on write and scaled back up on read.

pub mod compositing;
pub mod laws;
pub mod protocol;
pub mod raster;

pub use self::raster::PIXELS_PER_MATRIX;

use self::compositing::{composite_lit_matrix, Rgb565};
use self::protocol::{
    encode_block, encode_brightness, encode_header, encode_palette, encode_power, MSG_BRIGHTNESS,
    MSG_POWER,
};
use self::raster::{copy_block, gather, owner_of};
use crate::address::AddressRange;
use crate::bytes::zeros;
use crate::device::{log_reset, IoDevice};
use crate::display;
use crate::display::frame_cycles;
use crate::frame_sink;
use crate::frame_sink::{FrameSink, SinkView};
use crate::logging::{LogRecordView, LogSender};
use crate::transport;
use crate::transport::{PortView, TransportPort};
use tokio::sync::mpsc::Sender;
use vstd::prelude::*;

verus! {

/// Number of palette entries.
pub const PALETTE_LEN: usize = 256;

pub const CMD_SWAP: u8 = 0;

pub const CMD_SET_AUTOREFRESH: u8 = 1;

pub const CMD_SET_POWER: u8 = 2;

pub const CMD_SET_BRIGHTNESS: u8 = 3;

pub const CMD_PALETTE_WRITE: u8 = 4;

pub const CMD_PALETTE_READ: u8 = 5;

/// The operation that a write of the command register selects.
#[derive(Debug, Clone, Copy, PartialEq, Eq, Structural)]
pub enum Command {
    Swap,
    SetAutorefresh,
    SetPower,
    SetBrightness,
    PaletteWrite,
    PaletteRead,
}

/// State of the command/data register pair: idle, collecting argument bytes, or handing out result
/// bytes.
#[derive(Debug, Clone, Copy, PartialEq, Eq)]
pub enum PendingOp {
    Idle,
    Write { command: Command, buffer: [u8; 4], filled: usize, expected: usize },
    Read { remaining: [u8; 3], next: usize },
}

impl PendingOp {
    /// What holds of every state.
    pub open spec fn wf(self) -> bool {
        match self {
            PendingOp::Idle => true,
            PendingOp::Write { filled, expected, .. } => filled < expected <= 4,
            PendingOp::Read { next, .. } => next < 3,
        }
    }
}

/// A command that awaits its argument bytes.
pub open spec fn armed(command: Command, expected: usize) -> PendingOp {
    PendingOp::Write { command, buffer: [0, 0, 0, 0], filled: 0, expected }
}

/// What a write of the command register arms.
pub open spec fn selected(value: u8) -> PendingOp {
    if value == CMD_SWAP {
        armed(Command::Swap, 1)
    } else if value == CMD_SET_AUTOREFRESH {
        armed(Command::SetAutorefresh, 1)
    } else if value == CMD_SET_POWER {
        armed(Command::SetPower, 1)
    } else if value == CMD_SET_BRIGHTNESS {
        armed(Command::SetBrightness, 1)
    } else if value == CMD_PALETTE_WRITE {
        armed(Command::PaletteWrite, 4)
    } else if value == CMD_PALETTE_READ {
        armed(Command::PaletteRead, 1)
    } else {
        PendingOp::Idle
    }
}

/// Whether the bit of matrix `i` is set in `mask`.
pub open spec fn has_bit(mask: u8, i: int) -> bool {
    mask & (1u8 << (i as u8)) != 0
}

/// The mask that covers `matrices` matrices.
pub open spec fn full_mask(matrices: u32) -> u8 {
    if matrices >= 8 {
        0xFF
    } else {
        ((1u16 << (matrices as u16)) - 1) as u8
    }
}

proof fn lemma_mask_in_range(n: u16)
    by (bit_vector)
    requires
        n < 8,
    ensures
        1 <= (1u16 << n) <= 128,
{
}

fn matrix_mask(matrices: u32) -> (mask: u8)
    ensures
        mask == full_mask(matrices),
{
    if matrices >= 8 {
        0xFF
    } else {
        proof {
            lemma_mask_in_range(matrices as u16);
        }
        ((1u16 << (matrices as u16)) - 1) as u8
    }
}

/// One matrix's newly composited frame.
pub struct LedMatrixFrame {
    /// Which matrix this frame belongs to.
    pub matrix_index: u8,
    /// RGBA pixels (32x32x4 bytes).
    pub pixels: Vec<u8>,
}

/// A frame, seen through its pixels.
#[verifier::ext_equal]
pub ghost struct LedMatrixFrameView {
    pub matrix_index: u8,
    pub pixels: Seq<u8>,
}

impl View for LedMatrixFrame {
    type V = LedMatrixFrameView;

    open spec fn view(&self) -> LedMatrixFrameView {
        LedMatrixFrameView { matrix_index: self.matrix_index, pixels: self.pixels@ }
    }
}

/// A memory-mapped RGB LED matrix display device.
pub struct LedMatrix {
    pub name: &'static str,
    /// Pixel memory's range, `matrices * 1024` bytes.
    pub pixel_range: AddressRange,
    /// The command/data register pair's range, disjoint from `pixel_range`.
    pub register_range: AddressRange,
    pub matrices: u32,
    /// Matrices per row of the arrangement grid.
    pub cols: u32,
    /// CPU-addressable pixel memory. The CPU always reads and writes this, whatever was swapped.
    pub pixels: Vec<u8>,
    /// What is shown, populated one matrix at a time.
    pub scanout: Vec<u8>,
    /// Per-matrix dirty flags, one bit per matrix.
    pub dirty: u8,
    /// Auto-refresh mask, one bit per matrix.
    pub autorefresh_mask: u8,
    /// Power-state mask, one bit per matrix.
    pub power_mask: u8,
    /// Global brightness level.
    pub brightness: u8,
    pub palette: Vec<Rgb565>,
    pub pending: PendingOp,
    pub cycles_per_frame: u64,
    pub cycle_accumulator: u64,
    pub log_sender: LogSender,
    /// Push channel for composited per-matrix frames.
    pub frame_sink: Option<FrameSink<LedMatrixFrame>>,
    pub frame_rate_hz: u32,
    /// Transport to an external peripheral process.
    pub external_transport: Option<TransportPort<u8>>,
}

/// A LED matrix device, seen through its memories, channel and transport.
#[verifier::ext_equal]
pub ghost struct LedMatrixView {
    pub name: Seq<char>,
    pub pixel_range: AddressRange,
    pub register_range: AddressRange,
    pub matrices: u32,
    pub cols: u32,
    pub pixels: Seq<u8>,
    pub scanout: Seq<u8>,
    pub dirty: u8,
    pub autorefresh_mask: u8,
    pub power_mask: u8,
    pub brightness: u8,
    pub palette: Seq<Rgb565>,
    pub pending: PendingOp,
    pub cycles_per_frame: u64,
    pub cycle_accumulator: u64,
    pub log_capacity: usize,
    pub log: Seq<LogRecordView>,
    pub frames: Option<SinkView<LedMatrixFrame, LedMatrixFrameView>>,
    pub frame_rate_hz: u32,
    pub external: Option<PortView<u8>>,
}

impl View for LedMatrix {
    type V = LedMatrixView;

    open spec fn view(&self) -> LedMatrixView {
        LedMatrixView {
            name: self.name@,
            pixel_range: self.pixel_range,
            register_range: self.register_range,
            matrices: self.matrices,
            cols: self.cols,
            pixels: self.pixels@,
            scanout: self.scanout@,
            dirty: self.dirty,
            autorefresh_mask: self.autorefresh_mask,
            power_mask: self.power_mask,
            brightness: self.brightness,
            palette: self.palette@,
            pending: self.pending,
            cycles_per_frame: self.cycles_per_frame,
            cycle_accumulator: self.cycle_accumulator,
            log_capacity: self.log_sender.capacity,
            log: self.log_sender@,
            frames: frame_sink::view_of(self.frame_sink),
            frame_rate_hz: self.frame_rate_hz,
            external: transport::view_of(self.external_transport),
        }
    }
}

/// An optional port after the device has sent `bytes` over it.
pub open spec fn port_sent(port: Option<PortView<u8>>, bytes: Seq<u8>) -> Option<PortView<u8>> {
    match port {
        Some(p) => Some(p.sent(bytes)),
        None => None,
    }
}

impl LedMatrixView {
    /// What holds of every device but for its cycle counter.
    pub open spec fn shaped(self) -> bool {
        &&& raster::arranged(self.matrices as int, self.cols as int)
        &&& self.pixels.len() == self.matrices * 1024
        &&& self.scanout.len() == self.matrices * 1024
        &&& self.palette.len() == 256
        &&& compositing::palette_wf(self.palette)
        &&& self.pending.wf()
        &&& self.cycles_per_frame > 0
    }

    /// What holds of every device.
    pub open spec fn wf(self) -> bool {
        self.shaped() && self.cycle_accumulator < self.cycles_per_frame
    }

    /// The device after matrix `i` was swapped: what the CPU wrote to it is shown, and goes to the
    /// frame sink and the external transport.
    pub open spec fn swapped(self, i: int) -> Self {
        let scanout = raster::block_copied(self.scanout, self.pixels, self.cols as int, i);
        let block = raster::block_of(scanout, self.cols as int, i);
        LedMatrixView {
            scanout,
            dirty: self.dirty & !(1u8 << (i as u8)),
            frames: frame_sink::after_offer(
                self.frames,
                LedMatrixFrameView {
                    matrix_index: i as u8,
                    pixels: compositing::lit_frame(
                        block,
                        self.palette,
                        has_bit(self.power_mask, i),
                        self.brightness,
                    ),
                },
            ),
            external: port_sent(self.external, protocol::block_bytes(i as u8, block)),
            ..self
        }
    }

    /// The device after those of the first `n` matrices that are in `mask` were swapped.
    pub open spec fn swapped_in(self, mask: u8, n: nat) -> Self
        decreases n,
    {
        if n == 0 {
            self
        } else {
            let before = self.swapped_in(mask, (n - 1) as nat);
            if has_bit(mask, n - 1) {
                before.swapped(n - 1)
            } else {
                before
            }
        }
    }

    /// The device after those of the first `n` matrices that are dirty, and in the auto-refresh
    /// mask, were swapped.
    pub open spec fn refreshed(self, n: nat) -> Self
        decreases n,
    {
        if n == 0 {
            self
        } else {
            let before = self.refreshed((n - 1) as nat);
            if has_bit(before.autorefresh_mask, n - 1) && has_bit(before.dirty, n - 1) {
                before.swapped(n - 1)
            } else {
                before
            }
        }
    }

    /// The device after a command took effect.
    pub open spec fn applied(self, command: Command, buffer: [u8; 4]) -> Self {
        let idle = LedMatrixView { pending: PendingOp::Idle, ..self };
        match command {
            Command::Swap => idle.swapped_in(buffer[0], self.matrices as nat),
            Command::SetAutorefresh => LedMatrixView { autorefresh_mask: buffer[0], ..idle },
            Command::SetPower => LedMatrixView {
                power_mask: buffer[0],
                external: port_sent(self.external, seq![MSG_POWER, buffer[0]]),
                ..idle
            },
            Command::SetBrightness => LedMatrixView {
                brightness: buffer[0],
                external: port_sent(self.external, seq![MSG_BRIGHTNESS, buffer[0]]),
                ..idle
            },
            Command::PaletteWrite => {
                let color = Rgb565::masked(buffer[1], buffer[2], buffer[3]);
                LedMatrixView {
                    palette: self.palette.update(buffer[0] as int, color),
                    external: port_sent(
                        self.external,
                        protocol::palette_bytes(buffer[0], color),
                    ),
                    ..idle
                }
            },
            Command::PaletteRead => {
                let color = self.palette[buffer[0] as int].scaled();
                LedMatrixView {
                    pending: PendingOp::Read { remaining: [color.r, color.g, color.b], next: 0 },
                    ..self
                }
            },
        }
    }

    /// The device after a write of the data register.
    pub open spec fn data_written(self, value: u8) -> Self {
        match self.pending {
            PendingOp::Write { command, buffer, filled, expected } => {
                let collected = [
                    if filled == 0 { value } else { buffer[0] },
                    if filled == 1 { value } else { buffer[1] },
                    if filled == 2 { value } else { buffer[2] },
                    if filled == 3 { value } else { buffer[3] },
                ];
                if filled + 1 < expected {
                    LedMatrixView {
                        pending: PendingOp::Write {
                            command,
                            buffer: collected,
                            filled: (filled + 1) as usize,
                            expected,
                        },
                        ..self
                    }
                } else {
                    self.applied(command, collected)
                }
            },
            _ => self,
        }
    }

    /// What the data register shows: the next result byte, if there is one.
    pub open spec fn data(self) -> u8 {
        match self.pending {
            PendingOp::Read { remaining, next } => remaining[next as int],
            _ => 0,
        }
    }

    /// The device after a read of the data register.
    pub open spec fn data_read(self) -> Self {
        match self.pending {
            PendingOp::Read { remaining, next } => LedMatrixView {
                pending: if next == 2 {
                    PendingOp::Idle
                } else {
                    PendingOp::Read { remaining, next: (next + 1) as usize }
                },
                ..self
            },
            _ => self,
        }
    }

    /// What a read or a peek at `address` shows.
    pub open spec fn value_at(self, address: u16) -> u8 {
        if self.register_range.holds(address) {
            if address - self.register_range.start == 1 {
                self.data()
            } else {
                0
            }
        } else {
            let offset = address - self.pixel_range.start;
            if offset < self.pixels.len() {
                self.pixels[offset]
            } else {
                0
            }
        }
    }

    /// The device after a read at `address`.
    pub open spec fn after_read(self, address: u16) -> Self {
        if self.register_range.holds(address) && address - self.register_range.start == 1 {
            self.data_read()
        } else {
            self
        }
    }

    /// The device after a write at `address`. A write to pixel memory makes the matrix that owns
    /// the pixel dirty, whether or not the value differs.
    pub open spec fn after_write(self, address: u16, value: u8) -> Self {
        if self.register_range.holds(address) {
            if address - self.register_range.start == 0 {
                LedMatrixView { pending: selected(value), ..self }
            } else if address - self.register_range.start == 1 {
                self.data_written(value)
            } else {
                self
            }
        } else {
            let offset = address - self.pixel_range.start;
            if offset < self.pixels.len() {
                LedMatrixView {
                    pixels: self.pixels.update(offset, value),
                    dirty: self.dirty | (1u8 << (raster::owner(self.cols as int, offset) as u8)),
                    ..self
                }
            } else {
                self
            }
        }
    }

    /// The device after a transport to an external peripheral was attached, which is sent the header.
    pub open spec fn external_attached(self, port: PortView<u8>) -> Self {
        LedMatrixView {
            external: Some(
                port.sent(
                    protocol::header_bytes(
                        self.matrices as u8,
                        self.cols as u8,
                        self.frame_rate_hz,
                    ),
                ),
            ),
            ..self
        }
    }

    /// The device after `n` frame ticks.
    pub open spec fn after_frame_ticks(self, n: nat) -> Self
        decreases n,
    {
        if n == 0 {
            self
        } else {
            let before = self.after_frame_ticks((n - 1) as nat);
            before.refreshed(before.matrices as nat)
        }
    }

    /// The device after `cycles` clock cycles: a frame tick for every whole frame.
    pub open spec fn after_tick(self, cycles: int) -> Self {
        let total = self.cycle_accumulator + cycles;
        LedMatrixView {
            cycle_accumulator: (total % (self.cycles_per_frame as int)) as u64,
            ..self.after_frame_ticks((total / (self.cycles_per_frame as int)) as nat)
        }
    }

    /// The device after a reset: every matrix is dirty, refreshed and powered. What it shows, its
    /// palette and its brightness are left as they were.
    pub open spec fn after_reset(self) -> Self {
        LedMatrixView {
            dirty: full_mask(self.matrices),
            autorefresh_mask: full_mask(self.matrices),
            power_mask: full_mask(self.matrices),
            pending: PendingOp::Idle,
            cycle_accumulator: 0,
            log: crate::logging::after_log(
                self.log,
                self.log_capacity as nat,
                crate::device::reset_record(self.name, self.pixel_range.start),
            ),
            ..self
        }
    }

    /// The device after its shutdown: the frame channel and the transport are closed.
    pub open spec fn after_shutdown(self) -> Self {
        LedMatrixView {
            frames: None,
            external: match self.external {
                Some(port) => Some(port.closed()),
                None => None,
            },
            ..self
        }
    }
}

impl LedMatrix {
    /// Creates a device. `pixel_range` must span exactly `matrices * 1024` bytes and
    /// `register_range` exactly 2. `clock_hz` is the CPU's clock speed, or `None` if it runs
    /// unthrottled. `cols` is the arrangement grid's column count and must divide `matrices`.
    pub fn new(
        name: &'static str,
        pixel_range: AddressRange,
        register_range: AddressRange,
        matrices: u32,
        cols: u32,
        clock_hz: Option<u64>,
        frame_rate_hz: u32,
        palette: Vec<Rgb565>,
    ) -> (d: Self)
        requires
            raster::arranged(matrices as int, cols as int),
            palette@.len() == PALETTE_LEN,
            compositing::palette_wf(palette@),
            pixel_range.size() == matrices * 1024,
            register_range.size() == 2,
        ensures
            d.wf(),
            d@ == (LedMatrixView {
                name: name@,
                pixel_range,
                register_range,
                matrices,
                cols,
                pixels: Seq::new((matrices * 1024) as nat, |i: int| 0u8),
                scanout: Seq::new((matrices * 1024) as nat, |i: int| 0u8),
                dirty: full_mask(matrices),
                autorefresh_mask: full_mask(matrices),
                power_mask: full_mask(matrices),
                brightness: 0xFF,
                palette: palette@,
                pending: PendingOp::Idle,
                cycles_per_frame: display::cycles_per_frame(clock_hz, frame_rate_hz),
                cycle_accumulator: 0,
                log_capacity: 0,
                log: Seq::empty(),
                frames: None,
                frame_rate_hz,
                external: None,
            }),
    {
        let pixel_bytes: usize = matrices as usize * PIXELS_PER_MATRIX;
        let mask = matrix_mask(matrices);
        LedMatrix {
            name,
            pixel_range,
            register_range,
            matrices,
            cols,
            pixels: zeros(pixel_bytes),
            scanout: zeros(pixel_bytes),
            dirty: mask,
            autorefresh_mask: mask,
            power_mask: mask,
            brightness: 0xFF,
            palette,
            pending: PendingOp::Idle,
            cycles_per_frame: frame_cycles(clock_hz, frame_rate_hz),
            cycle_accumulator: 0,
            log_sender: LogSender::default(),
            frame_sink: None,
            frame_rate_hz,
            external_transport: None,
        }
    }

    /// Number of attached matrices, fixed at configuration time.
    pub fn matrices(&self) -> (n: u32)
        ensures
            n == self@.matrices,
    {
        self.matrices
    }

    /// Attaches a push channel for composited per-matrix frames. From then on every matrix swap
    /// offers that matrix's frame, without ever blocking.
    pub fn attach_frame_sink(&mut self, sink: Sender<LedMatrixFrame>)
        requires
            old(self).wf(),
        ensures
            final(self).wf(),
            final(self)@ == (LedMatrixView { frames: Some(SinkView::fresh(sink)), ..old(self)@ }),
    {
        self.frame_sink = Some(FrameSink::new(sink));
    }

    /// Attaches a transport to an external peripheral process and sends the one-time header over
    /// it.
    pub fn attach_external_transport(&mut self, transport: TransportPort<u8>)
        requires
            old(self).wf(),
        ensures
            final(self).wf(),
            final(self)@ == old(self)@.external_attached(transport@),
    {
        let mut port = transport;
        let header = encode_header(self.matrices as u8, self.cols as u8, self.frame_rate_hz);
        port.send_bytes(header.as_slice());
        self.external_transport = Some(port);
    }

    /// The color palette's current contents.
    pub fn palette(&self) -> (palette: &[Rgb565])
        ensures
            palette@ == self@.palette,
    {
        self.palette.as_slice()
    }

    /// Returns what matrix `index` currently shows: its 1,024 palette-index bytes, row-major.
    pub fn frame_source(&self, index: u32) -> (block: Vec<u8>)
        requires
            self.wf(),
            index < self.matrices,
        ensures
            block@ == raster::block_of(self@.scanout, self@.cols as int, index as int),
    {
        gather(self.scanout.as_slice(), self.matrices, self.cols, index)
    }

    /// Installs a sink for diagnostic messages (e.g. `reset()`).
    pub fn set_log_sender(&mut self, sender: LogSender)
        requires
            old(self).wf(),
        ensures
            final(self).wf(),
            final(self)@ == (LedMatrixView {
                log_capacity: sender.capacity,
                log: sender@,
                ..old(self)@
            }),
    {
        self.log_sender = sender;
    }

    fn write_pixel(&mut self, offset: usize, value: u8)
        requires
            old(self).wf(),
            offset < old(self)@.pixels.len(),
        ensures
            final(self).wf(),
            final(self)@ == (LedMatrixView {
                pixels: old(self)@.pixels.update(offset as int, value),
                dirty: old(self)@.dirty | (1u8 << (raster::owner(
                    old(self)@.cols as int,
                    offset as int,
                ) as u8)),
                ..old(self)@
            }),
    {
        let index: u32 = owner_of(self.matrices, self.cols, offset);
        self.pixels[offset] = value;
        self.dirty = self.dirty | (1u8 << (index as u8));
    }

    fn swap_matrix(&mut self, index: u32)
        requires
            old(self)@.shaped(),
            index < old(self)@.matrices,
        ensures
            final(self)@.shaped(),
            final(self)@ == old(self)@.swapped(index as int),
    {
        copy_block(&mut self.scanout, &self.pixels, self.matrices, self.cols, index);
        self.dirty = self.dirty & !(1u8 << (index as u8));
        if self.frame_sink.is_some() || self.external_transport.is_some() {
            let block = gather(self.scanout.as_slice(), self.matrices, self.cols, index);
            let power_on = self.power_mask & (1u8 << (index as u8)) != 0;
            if self.frame_sink.is_some() {
                let pixels = composite_lit_matrix(
                    block.as_slice(),
                    self.palette.as_slice(),
                    power_on,
                    self.brightness,
                );
                let frame = LedMatrixFrame { matrix_index: index as u8, pixels };
                if let Some(sink) = &mut self.frame_sink {
                    sink.offer(frame);
                }
            }
            if let Some(port) = &mut self.external_transport {
                let message = encode_block(index as u8, block.as_slice());
                port.send_bytes(message.as_slice());
            }
        }
    }

    fn swap_masked(&mut self, mask: u8)
        requires
            old(self)@.shaped(),
        ensures
            final(self)@.shaped(),
            final(self)@ == old(self)@.swapped_in(mask, old(self)@.matrices as nat),
    {
        let matrices = self.matrices;
        let mut i: u32 = 0;
        while i < matrices
            invariant
                i <= matrices <= 8,
                self@.shaped(),
                self@.matrices == matrices,
                matrices == old(self)@.matrices,
                self@ == old(self)@.swapped_in(mask, i as nat),
            decreases matrices - i,
        {
            if mask & (1u8 << (i as u8)) != 0 {
                self.swap_matrix(i);
            }
            i += 1;
        }
    }

    fn on_frame_tick(&mut self)
        requires
            old(self)@.shaped(),
        ensures
            final(self)@.shaped(),
            final(self)@ == old(self)@.refreshed(old(self)@.matrices as nat),
            final(self)@.cycle_accumulator == old(self)@.cycle_accumulator,
            final(self)@.cycles_per_frame == old(self)@.cycles_per_frame,
    {
        let matrices = self.matrices;
        let mut i: u32 = 0;
        while i < matrices
            invariant
                i <= matrices <= 8,
                self@.shaped(),
                self@.matrices == matrices,
                matrices == old(self)@.matrices,
                self@ == old(self)@.refreshed(i as nat),
                self@.cycle_accumulator == old(self)@.cycle_accumulator,
                self@.cycles_per_frame == old(self)@.cycles_per_frame,
            decreases matrices - i,
        {
            let bit: u8 = 1u8 << (i as u8);
            if self.autorefresh_mask & bit != 0 && self.dirty & bit != 0 {
                self.swap_matrix(i);
            }
            i += 1;
        }
    }

    fn write_command(&mut self, value: u8)
        requires
            old(self).wf(),
        ensures
            final(self).wf(),
            final(self)@ == (LedMatrixView { pending: selected(value), ..old(self)@ }),
    {
        let choice = match value {
            CMD_SWAP => Some((Command::Swap, 1usize)),
            CMD_SET_AUTOREFRESH => Some((Command::SetAutorefresh, 1usize)),
            CMD_SET_POWER => Some((Command::SetPower, 1usize)),
            CMD_SET_BRIGHTNESS => Some((Command::SetBrightness, 1usize)),
            CMD_PALETTE_WRITE => Some((Command::PaletteWrite, 4usize)),
            CMD_PALETTE_READ => Some((Command::PaletteRead, 1usize)),
            _ => None,
        };
        self.pending = match choice {
            Some((command, expected)) => PendingOp::Write {
                command,
                buffer: [0, 0, 0, 0],
                filled: 0,
                expected,
            },
            None => PendingOp::Idle,
        };
    }

    fn write_data(&mut self, value: u8)
        requires
            old(self).wf(),
        ensures
            final(self).wf(),
            final(self)@ == old(self)@.data_written(value),
    {
        match self.pending {
            PendingOp::Write { command, buffer, filled, expected } => {
                let collected = [
                    if filled == 0 {
                        value
                    } else {
                        buffer[0]
                    },
                    if filled == 1 {
                        value
                    } else {
                        buffer[1]
                    },
                    if filled == 2 {
                        value
                    } else {
                        buffer[2]
                    },
                    if filled == 3 {
                        value
                    } else {
                        buffer[3]
                    },
                ];
                if filled + 1 < expected {
                    self.pending = PendingOp::Write {
                        command,
                        buffer: collected,
                        filled: filled + 1,
                        expected,
                    };
                } else {
                    self.apply_command(command, collected);
                }
            },
            _ => {},
        }
    }

    fn apply_command(&mut self, command: Command, buffer: [u8; 4])
        requires
            old(self).wf(),
        ensures
            final(self).wf(),
            final(self)@ == old(self)@.applied(command, buffer),
    {
        self.pending = PendingOp::Idle;
        match command {
            Command::Swap => {
                proof {
                    lemma_swaps_keep_counter(self@, buffer[0], self.matrices as nat);
                }
                self.swap_masked(buffer[0]);
            },
            Command::SetAutorefresh => {
                self.autorefresh_mask = buffer[0];
            },
            Command::SetPower => {
                self.power_mask = buffer[0];
                if let Some(port) = &mut self.external_transport {
                    let message = encode_power(buffer[0]);
                    port.send_bytes(message.as_slice());
                }
            },
            Command::SetBrightness => {
                self.brightness = buffer[0];
                if let Some(port) = &mut self.external_transport {
                    let message = encode_brightness(buffer[0]);
                    port.send_bytes(message.as_slice());
                }
            },
            Command::PaletteWrite => {
                let index: usize = buffer[0] as usize;
                let color = Rgb565::from_rgb888(buffer[1], buffer[2], buffer[3]);
                self.palette[index] = color;
                if let Some(port) = &mut self.external_transport {
                    let message = encode_palette(buffer[0], color);
                    port.send_bytes(message.as_slice());
                }
            },
            Command::PaletteRead => {
                let index: usize = buffer[0] as usize;
                assert(self.palette@[index as int].wf());
                let (r, g, b) = self.palette[index].to_rgb888();
                self.pending = PendingOp::Read { remaining: [r, g, b], next: 0 };
            },
        }
    }

    fn read_data(&mut self) -> (value: u8)
        requires
            old(self).wf(),
        ensures
            final(self).wf(),
            value == old(self)@.data(),
            final(self)@ == old(self)@.data_read(),
    {
        match self.pending {
            PendingOp::Read { remaining, next } => {
                self.pending = if next == 2 {
                    PendingOp::Idle
                } else {
                    PendingOp::Read { remaining, next: next + 1 }
                };
                remaining[next]
            },
            _ => 0,
        }
    }

    fn peek_data(&self) -> (value: u8)
        requires
            self.wf(),
        ensures
            value == self@.data(),
    {
        match self.pending {
            PendingOp::Read { remaining, next } => remaining[next],
            _ => 0,
        }
    }
}

proof fn lemma_swaps_keep_counter(m: LedMatrixView, mask: u8, n: nat)
    ensures
        m.swapped_in(mask, n).cycle_accumulator == m.cycle_accumulator,
        m.swapped_in(mask, n).cycles_per_frame == m.cycles_per_frame,
    decreases n,
{
    if n > 0 {
        lemma_swaps_keep_counter(m, mask, (n - 1) as nat);
    }
}

impl IoDevice for LedMatrix {
    open spec fn wf(&self) -> bool {
        self@.wf()
    }

    open spec fn mapped_at(&self, address: u16) -> bool {
        self.register_range.holds(address) || address >= self.pixel_range.start
    }

    /// The cycle counter must not overflow.
    open spec fn can_tick(&self, cycles: u32) -> bool {
        self.cycle_accumulator + cycles <= u64::MAX
    }

    open spec fn written(before: Self, after: Self, address: u16, value: u8) -> bool {
        after@ == before@.after_write(address, value)
    }

    fn read(&mut self, address: u16) -> (value: u8)
        ensures
            value == old(self)@.value_at(address),
            final(self)@ == old(self)@.after_read(address),
    {
        if self.register_range.contains(address) {
            if address - self.register_range.start == 1 {
                return self.read_data();
            }
            return 0;
        }
        let offset: usize = (address - self.pixel_range.start) as usize;
        if offset < self.pixels.len() {
            self.pixels[offset]
        } else {
            0
        }
    }

    fn write(&mut self, address: u16, value: u8)
        ensures
            final(self)@ == old(self)@.after_write(address, value),
    {
        if self.register_range.contains(address) {
            let register: u16 = address - self.register_range.start;
            match register {
                0 => {
                    self.write_command(value);
                },
                1 => {
                    self.write_data(value);
                },
                _ => {},
            }
            return ;
        }
        let offset: usize = (address - self.pixel_range.start) as usize;
        if offset < self.pixels.len() {
            self.write_pixel(offset, value);
        }
    }

    fn peek(&self, address: u16) -> (value: u8)
        ensures
            value == self@.value_at(address),
    {
        if self.register_range.contains(address) {
            if address - self.register_range.start == 1 {
                return self.peek_data();
            }
            return 0;
        }
        let offset: usize = (address - self.pixel_range.start) as usize;
        if offset < self.pixels.len() {
            self.pixels[offset]
        } else {
            0
        }
    }

    fn patch(&mut self, address: u16, value: u8)
        ensures
            final(self)@ == old(self)@.after_write(address, value),
    {
        self.write(address, value);
    }

    fn claims(&self, addr: u16) -> (claimed: bool)
        ensures
            claimed == (self.pixel_range.holds(addr) || self.register_range.holds(addr)),
    {
        self.pixel_range.contains(addr) || self.register_range.contains(addr)
    }

    fn tick(&mut self, cycles: u32)
        ensures
            final(self)@ == old(self)@.after_tick(cycles as int),
    {
        let ghost start = self@;
        let ghost total = self.cycle_accumulator + cycles;
        let ghost per_frame = self.cycles_per_frame as int;
        let ghost mut frames: nat = 0;
        self.cycle_accumulator = self.cycle_accumulator + cycles as u64;
        while self.cycle_accumulator >= self.cycles_per_frame
            invariant
                per_frame == start.cycles_per_frame > 0,
                self.cycles_per_frame == per_frame,
                total == frames * per_frame + self.cycle_accumulator,
                self@.shaped(),
                self@ == (LedMatrixView {
                    cycle_accumulator: self.cycle_accumulator,
                    ..start.after_frame_ticks(frames)
                }),
            decreases self.cycle_accumulator,
        {
            let ghost before = start.after_frame_ticks(frames);
            self.cycle_accumulator = self.cycle_accumulator - self.cycles_per_frame;
            let ghost mine = self@;
            self.on_frame_tick();
            proof {
                lemma_refresh_ignores_counter(before, mine, before.matrices as nat);
                frames = frames + 1;
                assert((frames - 1) * per_frame + per_frame == frames * per_frame) by (nonlinear_arith);
                assert(self@ =~= (LedMatrixView {
                    cycle_accumulator: self.cycle_accumulator,
                    ..start.after_frame_ticks(frames)
                }));
            }
        }
        proof {
            vstd::arithmetic::div_mod::lemma_fundamental_div_mod_converse(
                total,
                per_frame,
                frames as int,
                self.cycle_accumulator as int,
            );
        }
    }

    fn reset(&mut self)
        ensures
            final(self)@ == old(self)@.after_reset(),
    {
        let mask = matrix_mask(self.matrices);
        self.dirty = mask;
        self.autorefresh_mask = mask;
        self.power_mask = mask;
        self.pending = PendingOp::Idle;
        self.cycle_accumulator = 0;
        log_reset(&mut self.log_sender, self.name, self.pixel_range.start);
    }

    fn name(&self) -> (name: &str)
        ensures
            name@ == self.name@,
    {
        self.name
    }

    fn identity_address(&self) -> (address: u16)
        ensures
            address == self.pixel_range.start,
    {
        self.pixel_range.start
    }

    fn shutdown(&mut self)
        ensures
            final(self)@ == old(self)@.after_shutdown(),
    {
        self.frame_sink = None;
        if let Some(port) = &mut self.external_transport {
            port.shutdown();
        }
    }
}

proof fn lemma_refresh_ignores_counter(a: LedMatrixView, b: LedMatrixView, n: nat)
    requires
        b == (LedMatrixView { cycle_accumulator: b.cycle_accumulator, ..a }),
    ensures
        b.refreshed(n) == (LedMatrixView {
            cycle_accumulator: b.cycle_accumulator,
            ..a.refreshed(n)
        }),
    decreases n,
{
    if n > 0 {
        lemma_refresh_ignores_counter(a, b, (n - 1) as nat);
    }
}

} // verus!
