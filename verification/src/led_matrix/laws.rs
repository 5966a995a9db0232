//! What holds of a LED matrix device whatever it is used for.

use super::compositing::Rgb565;
use super::raster;
use super::{Command, LedMatrixView, PendingOp, CMD_PALETTE_READ, CMD_PALETTE_WRITE};
use crate::transport::PortView;
use vstd::prelude::*;

verus! {

/// Setting or clearing the bit of one matrix leaves the bits of the others alone.
proof fn lemma_masks(mask: u8, i: u8, j: u8)
    by (bit_vector)
    requires
        i < 8,
        j < 8,
    ensures
        (mask | (1u8 << i)) & (1u8 << i) != 0,
        (mask & !(1u8 << i)) & (1u8 << i) == 0,
        i != j ==> ((mask | (1u8 << i)) & (1u8 << j) != 0 <==> mask & (1u8 << j) != 0),
        i != j ==> ((mask & !(1u8 << i)) & (1u8 << j) != 0 <==> mask & (1u8 << j) != 0),
{
}

/// A write to pixel memory reads back, makes the matrix that owns the pixel dirty and no other, and
/// changes nothing that is shown.
pub proof fn pixel_write(d: LedMatrixView, address: u16, value: u8, other: int)
    requires
        d.wf(),
        d.pixel_range.start <= address < d.pixel_range.start + d.pixels.len(),
        !d.register_range.holds(address),
        0 <= other < d.matrices,
    ensures
        ({
            let owner = raster::owner(d.cols as int, address - d.pixel_range.start);
            let after = d.after_write(address, value);
            &&& after.value_at(address) == value
            &&& 0 <= owner < d.matrices
            &&& super::has_bit(after.dirty, owner)
            &&& other != owner ==> (super::has_bit(after.dirty, other) <==> super::has_bit(
                d.dirty,
                other,
            ))
            &&& after.scanout == d.scanout
        }),
{
    raster::every_pixel_is_owned(
        d.matrices as int,
        d.cols as int,
        address - d.pixel_range.start,
    );
    let owner = raster::owner(d.cols as int, address - d.pixel_range.start);
    lemma_masks(d.dirty, owner as u8, other as u8);
}

/// Swapping a matrix shows what the CPU wrote to it, and leaves every other matrix as it is shown.
/// The matrix is clean afterwards; no other becomes dirty or clean.
pub proof fn swap_shows_one_matrix(d: LedMatrixView, i: int, other: int)
    requires
        d.shaped(),
        0 <= i < d.matrices,
        0 <= other < d.matrices,
    ensures
        raster::block_of(d.swapped(i).scanout, d.cols as int, i) == raster::block_of(
            d.pixels,
            d.cols as int,
            i,
        ),
        other != i ==> raster::block_of(d.swapped(i).scanout, d.cols as int, other)
            == raster::block_of(d.scanout, d.cols as int, other),
        !super::has_bit(d.swapped(i).dirty, i),
        other != i ==> (super::has_bit(d.swapped(i).dirty, other) <==> super::has_bit(
            d.dirty,
            other,
        )),
        d.swapped(i).pixels == d.pixels,
        d.swapped(i).shaped(),
{
    raster::copied_block_shows(
        d.scanout,
        d.pixels,
        d.matrices as int,
        d.cols as int,
        i,
        i,
    );
    raster::copied_block_shows(
        d.scanout,
        d.pixels,
        d.matrices as int,
        d.cols as int,
        i,
        other,
    );
    lemma_masks(d.dirty, i as u8, other as u8);
}

/// The swap command shows what the CPU wrote to exactly those matrices whose bits are set in its
/// mask, and makes them clean.
pub proof fn swap_command_shows_selected(d: LedMatrixView, mask: u8, n: nat, i: int)
    requires
        d.shaped(),
        n <= d.matrices,
        0 <= i < d.matrices,
    ensures
        d.swapped_in(mask, n).shaped(),
        d.swapped_in(mask, n).pixels == d.pixels,
        d.swapped_in(mask, n).matrices == d.matrices,
        d.swapped_in(mask, n).cols == d.cols,
        raster::block_of(d.swapped_in(mask, n).scanout, d.cols as int, i) == if i < n
            && super::has_bit(mask, i) {
            raster::block_of(d.pixels, d.cols as int, i)
        } else {
            raster::block_of(d.scanout, d.cols as int, i)
        },
        super::has_bit(d.swapped_in(mask, n).dirty, i) <==> super::has_bit(d.dirty, i) && !(i < n
            && super::has_bit(mask, i)),
    decreases n,
{
    if n > 0 {
        let before = d.swapped_in(mask, (n - 1) as nat);
        swap_command_shows_selected(d, mask, (n - 1) as nat, i);
        if super::has_bit(mask, n - 1) {
            swap_shows_one_matrix(before, n - 1, i);
        }
    }
}

/// A frame tick shows what the CPU wrote to exactly those matrices that are dirty and set to refresh
/// by themselves, and makes them clean.
pub proof fn refresh_shows_dirty(d: LedMatrixView, n: nat, i: int)
    requires
        d.shaped(),
        n <= d.matrices,
        0 <= i < d.matrices,
    ensures
        d.refreshed(n).shaped(),
        d.refreshed(n).pixels == d.pixels,
        d.refreshed(n).matrices == d.matrices,
        d.refreshed(n).cols == d.cols,
        d.refreshed(n).autorefresh_mask == d.autorefresh_mask,
        ({
            let chosen = i < n && super::has_bit(d.autorefresh_mask, i) && super::has_bit(
                d.dirty,
                i,
            );
            &&& raster::block_of(d.refreshed(n).scanout, d.cols as int, i) == if chosen {
                raster::block_of(d.pixels, d.cols as int, i)
            } else {
                raster::block_of(d.scanout, d.cols as int, i)
            }
            &&& super::has_bit(d.refreshed(n).dirty, i) <==> super::has_bit(d.dirty, i) && !chosen
        }),
    decreases n,
{
    if n > 0 {
        let before = d.refreshed((n - 1) as nat);
        refresh_shows_dirty(d, (n - 1) as nat, i);
        if super::has_bit(before.autorefresh_mask, n - 1) && super::has_bit(before.dirty, n - 1) {
            refresh_shows_dirty(d, (n - 1) as nat, n - 1);
            swap_shows_one_matrix(before, n - 1, i);
        } else if i == n - 1 {
            refresh_shows_dirty(d, (n - 1) as nat, n - 1);
        }
    }
}

/// A device with no dirty matrix neither changes nor sends anything on a frame tick.
pub proof fn clean_device_rests(d: LedMatrixView, n: nat)
    requires
        d.shaped(),
        n <= d.matrices,
        forall|i: int| 0 <= i < d.matrices ==> !super::has_bit(d.dirty, i),
    ensures
        d.refreshed(n) == d,
    decreases n,
{
    if n > 0 {
        clean_device_rests(d, (n - 1) as nat);
        assert(!super::has_bit(d.dirty, n - 1));
    }
}

/// The device after a palette entry was written through the registers.
pub open spec fn palette_written(
    d: LedMatrixView,
    index: u8,
    red: u8,
    green: u8,
    blue: u8,
) -> LedMatrixView {
    LedMatrixView { pending: super::selected(CMD_PALETTE_WRITE), ..d }.data_written(
        index,
    ).data_written(red).data_written(green).data_written(blue)
}

/// A palette write takes effect with its last argument byte and sets the one entry that it names,
/// quantized to RGB565.
pub proof fn palette_write_sets_entry(d: LedMatrixView, index: u8, red: u8, green: u8, blue: u8)
    ensures
        palette_written(d, index, red, green, blue).palette == d.palette.update(
            index as int,
            Rgb565::masked(red, green, blue),
        ),
        palette_written(d, index, red, green, blue).pending == PendingOp::Idle,
{
    let first = LedMatrixView { pending: super::selected(CMD_PALETTE_WRITE), ..d }.data_written(
        index,
    );
    let second = first.data_written(red);
    let third = second.data_written(green);
    assert(first.pending is Write && second.pending is Write && third.pending is Write);
    assert(third.palette == d.palette);
    assert(third.pending->command == Command::PaletteWrite);
}

/// A palette read hands out the three channels of the entry that it names, and is then done.
pub proof fn palette_read_hands_out_entry(d: LedMatrixView, index: u8)
    requires
        d.shaped(),
    ensures
        ({
            let asked = LedMatrixView {
                pending: super::selected(CMD_PALETTE_READ),
                ..d
            }.data_written(index);
            let color = d.palette[index as int].scaled();
            &&& asked.data() == color.r
            &&& asked.data_read().data() == color.g
            &&& asked.data_read().data_read().data() == color.b
            &&& asked.data_read().data_read().data_read() == (LedMatrixView {
                pending: PendingOp::Idle,
                ..d
            })
        }),
{
}

/// Writing the command register discards whatever sequence was in progress.
pub proof fn command_discards_sequence(d: LedMatrixView, e: LedMatrixView, address: u16, value: u8)
    requires
        d.register_range.holds(address),
        address == d.register_range.start,
        e == (LedMatrixView { pending: e.pending, ..d }),
    ensures
        d.after_write(address, value) == e.after_write(address, value),
{
}

/// After a reset every matrix is dirty, powered and set to refresh by itself, so that the next frame
/// tick shows all of pixel memory.
pub proof fn reset_refreshes_all(d: LedMatrixView, i: int)
    requires
        d.shaped(),
        0 <= i < d.matrices,
    ensures
        super::has_bit(d.after_reset().dirty, i),
        super::has_bit(d.after_reset().power_mask, i),
        super::has_bit(d.after_reset().autorefresh_mask, i),
        raster::block_of(
            d.after_reset().refreshed(d.matrices as nat).scanout,
            d.cols as int,
            i,
        ) == raster::block_of(d.pixels, d.cols as int, i),
{
    lemma_full_mask(d.matrices as u16, i as u8);
    refresh_shows_dirty(d.after_reset(), d.matrices as nat, i);
}

proof fn lemma_full_mask(n: u16, i: u8)
    requires
        i < n <= 8,
    ensures
        super::has_bit(super::full_mask(n as u32), i as int),
{
    assert(0xFFu8 & (1u8 << i) != 0) by (bit_vector)
        requires
            i < 8,
    ;
    if n < 8 {
        super::lemma_mask_in_range(n);
        assert((((1u16 << n) - 1) as u8) & (1u8 << i) != 0) by (bit_vector)
            requires
                i < n < 8,
        ;
    }
}

/// Bit `i` of a mask stands for matrix `i`, counted from the least significant bit; the mask of all
/// matrices has exactly the bits of those that there are.
pub proof fn bits_are_matrices(mask: u8, i: u8, matrices: u32)
    requires
        i < 8,
        1 <= matrices <= 8,
    ensures
        super::has_bit(mask, i as int) <==> (mask >> i) & 1 == 1,
        super::has_bit(super::full_mask(matrices), i as int) <==> i < matrices,
{
    assert(mask & (1u8 << i) != 0 <==> (mask >> i) & 1 == 1) by (bit_vector)
        requires
            i < 8,
    ;
    if matrices < 8 {
        let n = matrices as u16;
        super::lemma_mask_in_range(n);
        assert((((1u16 << n) - 1) as u8) & (1u8 << i) != 0 <==> i < n) by (bit_vector)
            requires
                i < 8,
                n < 8,
        ;
    } else {
        lemma_full_mask(8, i);
    }
}

/// What the command register selects, by number, and how many argument bytes each operation takes.
pub proof fn commands_by_number(d: LedMatrixView, address: u16, value: u8)
    requires
        d.register_range.holds(address),
        address == d.register_range.start,
    ensures
        ({
            let after = d.after_write(address, value);
            &&& after == (LedMatrixView { pending: after.pending, ..d })
            &&& value > 5 ==> after.pending == PendingOp::Idle
            &&& value <= 5 ==> (after.pending matches PendingOp::Write {
                command,
                filled,
                expected,
                ..
            } && filled == 0 && expected == if value == 4 {
                4usize
            } else {
                1
            } && command == if value == 0 {
                Command::Swap
            } else if value == 1 {
                Command::SetAutorefresh
            } else if value == 2 {
                Command::SetPower
            } else if value == 3 {
                Command::SetBrightness
            } else if value == 4 {
                Command::PaletteWrite
            } else {
                Command::PaletteRead
            })
        }),
{
}

/// What the one-byte operations do: a swap of the matrices in the mask, a new auto-refresh mask, a new
/// power mask, a new brightness. The last two are also told to the external peripheral.
pub proof fn one_byte_commands(d: LedMatrixView, command: Command, value: u8)
    requires
        d.pending matches PendingOp::Write { command: c, filled: 0, expected: 1, .. } && c
            == command,
    ensures
        ({
            let after = d.data_written(value);
            let idle = LedMatrixView { pending: PendingOp::Idle, ..d };
            &&& command == Command::Swap ==> after == idle.swapped_in(value, d.matrices as nat)
            &&& command == Command::SetAutorefresh ==> after == (LedMatrixView {
                autorefresh_mask: value,
                ..idle
            })
            &&& command == Command::SetPower ==> after == (LedMatrixView {
                power_mask: value,
                external: after.external,
                ..idle
            })
            &&& command == Command::SetBrightness ==> after == (LedMatrixView {
                brightness: value,
                external: after.external,
                ..idle
            })
            &&& d.external is Some && d.external.unwrap().fault is None && command
                == Command::SetPower ==> after.external.unwrap().outbound
                == d.external.unwrap().outbound + seq![3u8, value]
            &&& d.external is Some && d.external.unwrap().fault is None && command
                == Command::SetBrightness ==> after.external.unwrap().outbound
                == d.external.unwrap().outbound + seq![4u8, value]
        }),
{
}

/// A swapped matrix is told to the frame sink as its pixels at the power state and brightness of the
/// moment, and to the external peripheral as palette indices.
pub proof fn swap_is_told(d: LedMatrixView, i: int)
    requires
        d.shaped(),
        0 <= i < d.matrices,
    ensures
        d.frames is Some ==> {
            let offered = d.swapped(i).frames.unwrap().offered;
            &&& offered.len() == d.frames.unwrap().offered.len() + 1
            &&& offered.last().matrix_index == i
            &&& offered.last().pixels == super::compositing::lit_frame(
                raster::block_of(d.pixels, d.cols as int, i),
                d.palette,
                d.power_mask & (1u8 << (i as u8)) != 0,
                d.brightness,
            )
        },
        d.external is Some && d.external.unwrap().fault is None ==> d.swapped(
            i,
        ).external.unwrap().outbound == d.external.unwrap().outbound + (seq![1u8, i as u8]
            + raster::block_of(d.pixels, d.cols as int, i)),
{
    swap_shows_one_matrix(d, i, i);
}

/// Pixel memory is read and written at its addresses in order; the command register reads as zero.
pub proof fn pixel_memory_map(d: LedMatrixView, address: u16, value: u8)
    requires
        d.wf(),
        !d.register_range.holds(address),
        d.pixel_range.start <= address < d.pixel_range.start + d.pixels.len(),
    ensures
        d.value_at(address) == d.pixels[address - d.pixel_range.start],
        d.after_write(address, value).pixels == d.pixels.update(
            address - d.pixel_range.start,
            value,
        ),
        d.after_read(address) == d,
        d.register_range.start <= d.register_range.end ==> d.value_at(d.register_range.start) == 0,
{
}

/// Matrices are refreshed once per frame: not before a whole frame has passed, and once when exactly
/// one has.
pub proof fn refresh_cadence(d: LedMatrixView, cycles: int)
    requires
        d.wf(),
        0 <= cycles,
    ensures
        d.cycle_accumulator + cycles < d.cycles_per_frame ==> d.after_tick(cycles)
            == (LedMatrixView { cycle_accumulator: (d.cycle_accumulator + cycles) as u64, ..d }),
        d.cycle_accumulator + cycles == d.cycles_per_frame ==> d.after_tick(cycles)
            == (LedMatrixView { cycle_accumulator: 0, ..d.refreshed(d.matrices as nat) }),
{
    let total = (d.cycle_accumulator + cycles) as int;
    let per = d.cycles_per_frame as int;
    if total < per {
        vstd::arithmetic::div_mod::lemma_small_mod(total as nat, per as nat);
        vstd::arithmetic::div_mod::lemma_basic_div(total, per);
    } else if total == per {
        vstd::arithmetic::div_mod::lemma_div_by_self(per);
        vstd::arithmetic::div_mod::lemma_mod_self_0(per);
        reveal_with_fuel(LedMatrixView::after_frame_ticks, 2);
    }
}

/// A reset keeps the pixels, what is shown, the palette and the brightness, and forgets a command in
/// progress.
pub proof fn reset_keeps_picture(d: LedMatrixView)
    ensures
        d.after_reset().pixels == d.pixels,
        d.after_reset().scanout == d.scanout,
        d.after_reset().palette == d.palette,
        d.after_reset().brightness == d.brightness,
        d.after_reset().pending == PendingOp::Idle,
        d.after_reset().cycle_accumulator == 0,
{
}

/// An external transport is sent the header once: `E65M`, the version, the number of matrices, the
/// columns of the grid, and the refresh rate, low byte first.
pub proof fn external_transport_gets_header(d: LedMatrixView, port: PortView<u8>)
    requires
        d.shaped(),
        port.fault is None,
    ensures
        ({
            let sent = d.external_attached(port).external.unwrap().outbound;
            let n = port.outbound.len() as int;
            &&& sent.len() == n + 11
            &&& sent.take(n) == port.outbound
            &&& sent.subrange(n, n + 7) == seq![
                0x45u8, 0x36, 0x35, 0x4D, 2, d.matrices as u8, d.cols as u8,
            ]
            &&& d.frame_rate_hz == sent[n + 7] + 256 * sent[n + 8] + 65536 * sent[n + 9] + 16777216
                * sent[n + 10]
        }),
{
    let sent = d.external_attached(port).external.unwrap().outbound;
    let n = port.outbound.len() as int;
    super::protocol::header_layout(d.matrices as u8, d.cols as u8, d.frame_rate_hz);
    assert(sent.take(n) =~= port.outbound);
    assert(sent.subrange(n, n + 7) =~= seq![
        0x45u8, 0x36, 0x35, 0x4D, 2, d.matrices as u8, d.cols as u8,
    ]);
}

} // verus!
