//! What holds of a character display whatever it is used for.

use super::compositing;
use super::compositing::Rgb24;
use super::{
    CharDisplayView, PaletteUpdateState, CONTROL_PALETTE_ARM, CONTROL_SWAP_ON_VSYNC,
    CONTROL_SWAP_REQUEST, STATUS_PALETTE_ACCEPTED, STATUS_VSYNC,
};
use crate::address::AddressRange;
use crate::bytes;
use crate::transport::PortView;
use vstd::prelude::*;

verus! {

/// The CPU reads back what it wrote to character or color RAM, and no other cell changes.
pub proof fn ram_write_reads_back(d: CharDisplayView, address: u16, value: u8, other: u16)
    requires
        d.wf(),
        d.address_range.start <= address < d.address_range.start + 2 * d.char_ram.len(),
        d.address_range.start <= other < d.address_range.start + 2 * d.char_ram.len(),
        !d.is_keyboard_address(address),
        !d.is_keyboard_address(other),
    ensures
        d.after_write(address, value).peek_value(address) == value,
        d.after_write(address, value).read_value(address) == value,
        other != address ==> d.after_write(address, value).peek_value(other) == d.peek_value(other),
{
}

/// In double-buffered mode nothing that the CPU writes to character or color RAM is shown before a
/// swap; in single-buffered mode it is shown with the next frame.
pub proof fn writes_show_after_swap(d: CharDisplayView, address: u16, value: u8)
    requires
        d.wf(),
        d.address_range.start <= address < d.address_range.start + 2 * d.char_ram.len(),
        !d.is_keyboard_address(address),
    ensures
        d.double_buffered ==> d.after_write(address, value).scanout() == d.scanout(),
        d.double_buffered ==> d.after_write(address, value).frame() == d.frame(),
        !d.double_buffered ==> d.after_write(address, value).scanout() == (
            d.after_write(address, value).char_ram,
            d.after_write(address, value).color_ram,
        ),
{
}

/// A swap copies what the CPU wrote to what is shown, and leaves what the CPU reads as it was.
pub proof fn swap_copies(d: CharDisplayView)
    requires
        d.double_buffered,
        !d.swap_on_vsync,
    ensures
        d.swap_requested().scanout() == (d.char_ram, d.color_ram),
        d.swap_requested().char_ram == d.char_ram,
        d.swap_requested().color_ram == d.color_ram,
        !d.swap_requested().swap_pending || d.swap_pending,
{
}

/// A swap that was requested with swap-on-vsync enabled changes nothing that is shown until the next
/// vsync, which shows what the CPU has written by then.
pub proof fn swap_waits_for_vsync(d: CharDisplayView, written: CharDisplayView)
    requires
        d.double_buffered,
        d.swap_on_vsync,
        written == (CharDisplayView {
            char_ram: written.char_ram,
            color_ram: written.color_ram,
            ..d.swap_requested()
        }),
    ensures
        d.swap_requested().swap_pending,
        d.swap_requested().scanout() == d.scanout(),
        written.after_vsync().scanout() == (written.char_ram, written.color_ram),
        !written.after_vsync().swap_pending,
{
}

/// A vsync sets the vsync flag, and without a pending swap leaves what is shown as it was. Reading
/// the status register clears both of its flags.
pub proof fn vsync_is_flagged_until_read(d: CharDisplayView, address: u16)
    requires
        d.wf(),
        address == d.address_range.start + 2 * d.char_ram.len() + 1,
        !d.is_keyboard_address(address),
    ensures
        d.after_vsync().status & STATUS_VSYNC != 0,
        d.after_vsync().status & STATUS_PALETTE_ACCEPTED == d.status & STATUS_PALETTE_ACCEPTED,
        !d.swap_pending ==> d.after_vsync().scanout() == d.scanout(),
        d.read_value(address) == d.status,
        d.after_read(address).status & (STATUS_VSYNC | STATUS_PALETTE_ACCEPTED) == 0,
{
    let status = d.status;
    assert((status | STATUS_VSYNC) & STATUS_VSYNC != 0) by (bit_vector);
    assert((status | STATUS_VSYNC) & STATUS_PALETTE_ACCEPTED == status & STATUS_PALETTE_ACCEPTED)
        by (bit_vector);
    assert((status & !(STATUS_VSYNC | STATUS_PALETTE_ACCEPTED)) & (STATUS_VSYNC
        | STATUS_PALETTE_ACCEPTED) == 0) by (bit_vector);
}

/// After the arm bit was written, four data writes set one palette entry, the one that `index` names
/// modulo the palette's length, and say so in the status register. No entry changes before the
/// fourth.
pub proof fn palette_update_sequence(
    d: CharDisplayView,
    control: u8,
    index: u8,
    red: u8,
    green: u8,
    blue: u8,
)
    requires
        d.wf(),
        control & CONTROL_PALETTE_ARM != 0,
    ensures
        ({
            let third = d.control_written(control).palette_data_written(
                index,
            ).palette_data_written(red).palette_data_written(green);
            let fourth = third.palette_data_written(blue);
            &&& third.palette == d.palette
            &&& fourth.palette == d.palette.update(
                compositing::palette_slot(index, d.palette.len() as int),
                Rgb24 { r: red, g: green, b: blue },
            )
            &&& fourth.status & STATUS_PALETTE_ACCEPTED != 0
            &&& fourth.palette_update == PaletteUpdateState::Idle
        }),
{
    let status = d.status;
    assert((status | STATUS_PALETTE_ACCEPTED) & STATUS_PALETTE_ACCEPTED != 0) by (bit_vector);
}

/// Data writes are ignored unless armed, and a control write without the arm bit leaves a sequence
/// in progress as it is.
pub proof fn palette_needs_arming(d: CharDisplayView, value: u8)
    ensures
        d.palette_update == PaletteUpdateState::Idle ==> d.palette_data_written(value) == d,
        value & CONTROL_PALETTE_ARM == 0 ==> d.control_written(value).palette_update
            == d.palette_update,
        d.control_written(value).palette == d.palette,
{
}

/// The request and arm bits of the control register always read as zero, and its pending bit shows
/// whether a swap is.
pub proof fn control_reads_back(d: CharDisplayView, value: u8)
    ensures
        d.control_written(value).control() & (CONTROL_SWAP_REQUEST | CONTROL_PALETTE_ARM) == 0,
        d.control_written(value).control() & CONTROL_SWAP_ON_VSYNC == value & CONTROL_SWAP_ON_VSYNC,
        d.control_written(value).control() & 0x80 != 0 <==> d.control_written(value).swap_pending,
{
    assert((value & 2 == 0 || value & 2 == 2) && 0u8 & 9 == 0 && 2u8 & 9 == 0 && 128u8 & 9 == 0
        && 130u8 & 9 == 0 && 0u8 & 2 == 0 && 2u8 & 2 == 2 && 128u8 & 2 == 0 && 130u8 & 2 == 2 && 0u8
        & 128 == 0 && 2u8 & 128 == 0 && 128u8 & 128 == 128 && 130u8 & 128 == 128) by (bit_vector);
    assert(1u8 | 8u8 == 9) by (bit_vector);
}

/// A reset leaves what is shown as it was: the memories, the palette and the font.
pub proof fn reset_keeps_picture(d: CharDisplayView)
    ensures
        d.after_reset().char_ram == d.char_ram,
        d.after_reset().color_ram == d.color_ram,
        d.after_reset().frame() == d.frame(),
        d.after_reset().status == 0,
{
}

/// The memory map: characters, then colors, then the control and the status register.
pub proof fn memory_map(d: CharDisplayView, k: int, value: u8)
    requires
        d.wf(),
        d.keyboard is None,
        0 <= k < d.columns * d.rows,
    ensures
        ({
            let cells = d.columns * d.rows;
            let start = d.address_range.start;
            &&& d.peek_value((start + k) as u16) == d.char_ram[k]
            &&& d.peek_value((start + cells + k) as u16) == d.color_ram[k]
            &&& d.peek_value((start + 2 * cells) as u16) == d.control()
            &&& d.peek_value((start + 2 * cells + 1) as u16) == d.status
            &&& d.after_write((start + k) as u16, value).char_ram == d.char_ram.update(k, value)
            &&& d.after_write((start + k) as u16, value).color_ram == d.color_ram
            &&& d.after_write((start + cells + k) as u16, value).color_ram == d.color_ram.update(
                k,
                value,
            )
            &&& d.after_write((start + cells + k) as u16, value).char_ram == d.char_ram
            &&& d.after_write((start + 2 * cells) as u16, value) == d.control_written(value)
            &&& d.after_write((start + 2 * cells + 1) as u16, value) == d.palette_data_written(
                value,
            )
        }),
{
}

/// The control register: bit 0 requests a swap, bit 1 makes swaps wait for the vsync, bit 3 starts a
/// palette update.
pub proof fn control_register_bits(d: CharDisplayView, value: u8)
    ensures
        ({
            let after = d.control_written(value);
            &&& after.swap_on_vsync <==> value & 0x02 != 0
            &&& value & 0x08 != 0 ==> after.palette_update == PaletteUpdateState::ExpectIndex
            &&& value & 0x08 == 0 ==> after.palette_update == d.palette_update
            &&& value & 0x01 == 0 || !d.double_buffered ==> after.scanout_char_ram
                == d.scanout_char_ram && after.scanout_color_ram == d.scanout_color_ram
                && after.swap_pending == d.swap_pending
            &&& value & 0x01 != 0 && d.double_buffered && value & 0x02 == 0
                ==> after.scanout_char_ram == d.char_ram && after.scanout_color_ram == d.color_ram
                && after.swap_pending == d.swap_pending
            &&& value & 0x01 != 0 && d.double_buffered && value & 0x02 != 0 ==> after.swap_pending
                && after.scanout_char_ram == d.scanout_char_ram
        }),
{
}

/// What the control register shows: bit 1 as it was set, bit 7 while a swap is pending, and nothing
/// else.
pub proof fn control_register_reads(d: CharDisplayView)
    ensures
        d.control() & 0x02 != 0 <==> d.swap_on_vsync,
        d.control() & 0x80 != 0 <==> d.swap_pending,
        d.control() & 0x01 == 0 && d.control() & 0x04 == 0 && d.control() & 0x08 == 0 && d.control()
            & 0x10 == 0 && d.control() & 0x20 == 0 && d.control() & 0x40 == 0,
{
    crate::bytes::bits_by_division(d.control());
}

/// The status register: a vsync sets bit 0, an applied palette update bit 1; reading it clears both.
pub proof fn status_register_bits(d: CharDisplayView, value: u8, address: u16)
    requires
        d.wf(),
        address == d.address_range.start + 2 * d.char_ram.len() + 1,
        !d.is_keyboard_address(address),
        d.status < 4,
    ensures
        d.after_vsync().status & 0x01 != 0,
        d.after_vsync().status & 0x02 == d.status & 0x02,
        d.palette_update is ExpectBlue ==> d.palette_data_written(value).status & 0x02 != 0
            && d.palette_data_written(value).status & 0x01 == d.status & 0x01,
        !(d.palette_update is ExpectBlue) ==> d.palette_data_written(value).status == d.status,
        d.after_read(address).status == 0,
{
    let status = d.status;
    assert((status | 0x01) & 0x01 != 0 && (status | 0x01) & 0x02 == status & 0x02 && (status | 0x02)
        & 0x02 != 0 && (status | 0x02) & 0x01 == status & 0x01) by (bit_vector);
    assert(status & !(0x01u8 | 0x02) == 0) by (bit_vector)
        requires
            status < 4,
    ;
}

/// Four data bytes after arming set one palette entry: the index, counted round the palette, then
/// red, green and blue. No other entry changes.
pub proof fn palette_update_by_bytes(
    d: CharDisplayView,
    index: u8,
    red: u8,
    green: u8,
    blue: u8,
    other: int,
)
    requires
        d.wf(),
        d.palette_update == PaletteUpdateState::ExpectIndex,
        0 <= other < d.palette.len(),
    ensures
        ({
            let after = d.palette_data_written(index).palette_data_written(
                red,
            ).palette_data_written(green).palette_data_written(blue);
            &&& after.palette.len() == d.palette.len()
            &&& other == index as int % d.palette.len() as int ==> after.palette[other]
                == (Rgb24 { r: red, g: green, b: blue })
            &&& other != index as int % d.palette.len() as int ==> after.palette[other]
                == d.palette[other]
        }),
{
}

/// The keyboard's registers within the display: the data register is read, the latch register read
/// and written.
pub proof fn keyboard_registers(d: CharDisplayView, value: u8)
    requires
        d.keyboard is Some,
        d.keyboard.unwrap().range.size() == 2,
    ensures
        ({
            let k = d.keyboard.unwrap();
            let data = k.range.start;
            let latch = k.range.end;
            &&& d.read_value(data) == k.input.data()
            &&& d.after_read(data).keyboard.unwrap().input == k.input.after_read_data()
            &&& d.peek_value(data) == k.input.data()
            &&& d.after_write(data, value) == d
            &&& d.read_value(latch) == k.input.data()
            &&& d.after_read(latch).keyboard.unwrap().input == k.input.after_read_latch()
            &&& d.peek_value(latch) == k.input.latch
            &&& d.after_write(latch, value).keyboard.unwrap().input == k.input.after_write_latch(
                value,
            )
        }),
{
}

/// A vsync offers one frame to the sink, and sends characters, colors and palette over the external
/// transport: those that are shown from then on.
pub proof fn vsync_shows(d: CharDisplayView)
    ensures
        ({
            let after = d.after_vsync();
            let shown = if d.swap_pending || !d.double_buffered {
                (d.char_ram, d.color_ram)
            } else {
                (d.scanout_char_ram, d.scanout_color_ram)
            };
            &&& !after.swap_pending
            &&& d.frames is Some ==> after.frames.unwrap().offered.len()
                == d.frames.unwrap().offered.len() + 1 && after.frames.unwrap().offered.last()
                == after.frame()
            &&& d.external is Some && d.external.unwrap().fault is None && (d.swap_pending
                ==> d.double_buffered) ==> after.external.unwrap().outbound
                == d.external.unwrap().outbound + super::protocol::frame_bytes(
                shown.0,
                shown.1,
                d.palette,
            )
        }),
{
}

/// A frame lasts as many cycles as the clock makes in one over the frame rate, rounded down, but one
/// at least. Without a clock it is 1.8432 MHz, and a rate of zero counts as one.
pub proof fn frame_duration(clock_hz: Option<u64>, frame_rate_hz: u32)
    ensures
        ({
            let clock = match clock_hz {
                Some(hz) => hz as int,
                None => 1_843_200int,
            };
            let rate = if frame_rate_hz == 0 { 1int } else { frame_rate_hz as int };
            let cycles = super::cycles_per_frame(clock_hz, frame_rate_hz) as int;
            &&& cycles >= 1
            &&& clock < (cycles + 1) * rate
            &&& cycles == 1 || cycles * rate <= clock
        }),
{
    let clock = match clock_hz {
        Some(hz) => hz as int,
        None => 1_843_200int,
    };
    let rate = if frame_rate_hz == 0 { 1int } else { frame_rate_hz as int };
    let q = clock / rate;
    vstd::arithmetic::div_mod::lemma_fundamental_div_mod(clock, rate);
    vstd::arithmetic::div_mod::lemma_mod_bound(clock, rate);
    assert(clock < (q + 1) * rate && q * rate <= clock && 0 <= q) by (nonlinear_arith)
        requires
            clock == rate * q + clock % rate,
            0 <= clock % rate < rate,
            clock >= 0,
    ;
    let cycles = super::cycles_per_frame(clock_hz, frame_rate_hz) as int;
    assert(cycles == if q == 0 { 1 } else { q });
    if q == 0 {
        assert((q + 1) * rate == rate && (cycles + 1) * rate == rate + rate) by (nonlinear_arith)
            requires
                q == 0,
                cycles == 1,
        ;
    }
}

/// Vsyncs come once per frame: not before a whole frame has passed, and once when exactly one has.
/// Keyboard input is taken with every tick.
pub proof fn vsync_cadence(d: CharDisplayView, cycles: int)
    requires
        d.wf(),
        0 <= cycles,
    ensures
        d.cycle_accumulator + cycles < d.cycles_per_frame ==> d.after_tick(cycles)
            == (CharDisplayView {
            cycle_accumulator: (d.cycle_accumulator + cycles) as u64,
            ..d.input_taken()
        }),
        d.cycle_accumulator + cycles == d.cycles_per_frame ==> d.after_tick(cycles)
            == (CharDisplayView { cycle_accumulator: 0, ..d.input_taken().after_vsync() }),
{
    let total = (d.cycle_accumulator + cycles) as int;
    let per = d.cycles_per_frame as int;
    if total < per {
        vstd::arithmetic::div_mod::lemma_small_mod(total as nat, per as nat);
        vstd::arithmetic::div_mod::lemma_basic_div(total, per);
    } else if total == per {
        vstd::arithmetic::div_mod::lemma_div_by_self(per);
        vstd::arithmetic::div_mod::lemma_mod_self_0(per);
        reveal_with_fuel(CharDisplayView::after_vsyncs, 2);
    }
}

/// Keyboard input is taken from the transport that relays it, all of it and in order.
pub proof fn keyboard_input_is_taken(d: CharDisplayView)
    requires
        d.keyboard is Some,
    ensures
        d.keyboard_relay == Some(super::KeyboardRelay::External) && d.external is Some
            ==> d.input_taken().keyboard.unwrap().input == d.keyboard.unwrap().input.pushed_all(
            d.external.unwrap().inbound,
        ) && d.input_taken().external.unwrap().inbound.len() == 0,
        d.keyboard_relay == Some(super::KeyboardRelay::Keyboard) && d.keyboard_port is Some
            ==> d.input_taken().keyboard.unwrap().input == d.keyboard.unwrap().input.pushed_all(
            d.keyboard_port.unwrap().inbound,
        ) && d.input_taken().keyboard_port.unwrap().inbound.len() == 0,
        d.keyboard_relay is None ==> d.input_taken() == d,
{
}

/// An external transport is sent the header once, with the grid, the cadence, the size of the palette
/// and the font as they are, and relays the keyboard from then on.
pub proof fn external_transport_gets_header(d: CharDisplayView, port: PortView<u8>)
    requires
        port.fault is None,
        d.palette.len() < 65536,
    ensures
        ({
            let after = d.external_attached(port);
            let sent = after.external.unwrap().outbound.skip(port.outbound.len() as int);
            &&& after.external.unwrap().outbound.take(port.outbound.len() as int) == port.outbound
            &&& sent.len() == 19 + d.font.len()
            &&& sent.take(5) == seq![0x45u8, 0x36, 0x35, 0x44, 1]
            &&& sent.subrange(5, 9) == bytes::le32(d.columns)
            &&& sent.subrange(9, 13) == bytes::le32(d.rows)
            &&& sent.subrange(13, 17) == bytes::le32(d.frame_rate_hz)
            &&& sent.subrange(17, 19) == bytes::le16(d.palette.len() as u16)
            &&& sent.skip(19) == d.font
            &&& after.keyboard_relay == Some(super::KeyboardRelay::External)
        }),
{
    let header = super::protocol::header_bytes(
        d.columns,
        d.rows,
        d.frame_rate_hz,
        d.palette.len() as u16,
        d.font,
    );
    let all = d.external_attached(port).external.unwrap().outbound;
    assert(all.take(port.outbound.len() as int) =~= port.outbound);
    assert(all.skip(port.outbound.len() as int) =~= header);
    super::protocol::header_layout(
        d.columns,
        d.rows,
        d.frame_rate_hz,
        d.palette.len() as u16,
        d.font,
    );
}

/// A new display is blank, with no swap pending and nothing flagged; both of its
/// memories have one byte for each cell.
pub proof fn new_display_is_blank(
    name: Seq<char>,
    range: AddressRange,
    columns: u32,
    rows: u32,
    double_buffered: bool,
    clock_hz: Option<u64>,
    frame_rate_hz: u32,
    font: Seq<u8>,
    palette: Seq<Rgb24>,
    i: int,
)
    requires
        0 <= i < columns * rows,
    ensures
        ({
            let d = CharDisplayView::fresh(
                name,
                range,
                columns,
                rows,
                double_buffered,
                clock_hz,
                frame_rate_hz,
                font,
                palette,
            );
            &&& d.char_ram.len() == columns * rows && d.char_ram[i] == 0
            &&& d.color_ram.len() == columns * rows && d.color_ram[i] == 0
            &&& double_buffered ==> d.scanout().0 == d.char_ram && d.scanout().1 == d.color_ram
            &&& d.status == 0 && d.control() == 0
            &&& d.columns == columns && d.rows == rows
            &&& d.palette == palette && d.font == font
            &&& d.palette_update == PaletteUpdateState::Idle
        }),
{
}

} // verus!
