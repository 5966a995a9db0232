//! What holds of an LCD whatever it is used for.

use super::{
    AddressCounterTarget, LcdView, NibbleState, LONG_INSTRUCTION_US, SHORT_INSTRUCTION_US,
};
use vstd::prelude::*;

verus! {

/// A byte that was written to the data register is what the data register shows once the address
/// counter has stepped back; no other place in either RAM changes.
pub proof fn data_write_reads_back(d: LcdView, byte: u8, other: AddressCounterTarget)
    requires
        d.wf(),
        other.wf(),
    ensures
        ({
            let after = d.data_written(byte);
            &&& after.ac.advanced(!d.entry_id) == d.ac
            &&& (LcdView { ac: d.ac, ..after }).data() == byte
            &&& other != d.ac ==> (LcdView { ac: other, ..after }).data() == (LcdView {
                ac: other,
                ..d
            }).data()
        }),
{
    super::address_counter_steps_cancel(d.ac, d.entry_id);
}

/// Shifting the display one way and then the other leaves it as it was.
pub proof fn display_shifts_cancel(d: LcdView, forward: bool)
    requires
        d.wf(),
    ensures
        d.display_shifted(forward).wf(),
        d.display_shifted(forward).display_shifted(!forward) == d,
{
    let there = d.display_shifted(forward).line_shift;
    let back = d.display_shifted(forward).display_shifted(!forward).line_shift;
    if d.geometry.dual_line() {
        lemma_offset_steps_cancel(d.line_shift[0], forward, 40);
        lemma_offset_steps_cancel(d.line_shift[1], forward, 40);
        lemma_pair(
            there,
            super::shifted_by_one(d.line_shift[0], forward, 40),
            super::shifted_by_one(d.line_shift[1], forward, 40),
        );
    } else {
        lemma_offset_steps_cancel(d.line_shift[0], forward, 80);
        lemma_pair(
            there,
            super::shifted_by_one(d.line_shift[0], forward, 80),
            d.line_shift[1],
        );
    }
    lemma_pair(back, d.line_shift[0], d.line_shift[1]);
    lemma_pairs_equal(back, d.line_shift);
}

proof fn lemma_offset_steps_cancel(offset: u8, forward: bool, modulus: int)
    requires
        offset < modulus,
        modulus == 40 || modulus == 80,
    ensures
        super::shifted_by_one(offset, forward, modulus) < modulus,
        super::shifted_by_one(
            super::shifted_by_one(offset, forward, modulus),
            !forward,
            modulus,
        ) == offset,
{
}

proof fn lemma_pair(pair: [u8; 2], a: u8, b: u8)
    requires
        pair == [a, b],
    ensures
        pair[0] == a,
        pair[1] == b,
{
}

proof fn lemma_pairs_equal(a: [u8; 2], b: [u8; 2])
    requires
        a[0] == b[0],
        a[1] == b[1],
    ensures
        a == b,
{
    assert(a@ =~= b@);
    assert(a =~= b);
}

/// Shifting the display is a matter of what is shown: neither RAM changes, nor the address counter.
pub proof fn display_shift_keeps_ram(d: LcdView, forward: bool)
    ensures
        d.display_shifted(forward).ddram == d.ddram,
        d.display_shifted(forward).cgram == d.cgram,
        d.display_shifted(forward).ac == d.ac,
{
}

/// While the device is busy every access but a read of the busy flag is discarded: nothing changes
/// but the pairing of nibbles and the log.
pub proof fn busy_device_discards(d: LcdView, offset: int, value: u8)
    requires
        d.wf(),
        d.busy(),
    ensures
        d.after_write(offset, value) == (LcdView {
            instruction_nibble: d.after_write(offset, value).instruction_nibble,
            data_nibble: d.after_write(offset, value).data_nibble,
            log: d.after_write(offset, value).log,
            ..d
        }),
        d.after_read(offset) == (LcdView { log: d.after_read(offset).log, ..d }),
        d.read_value(0) >= 0x80,
{
}

/// The device is busy after an instruction until the instruction's duration has passed, and no
/// longer.
pub proof fn busy_ends_in_time(d: LcdView, byte: u8, cycles: u32)
    requires
        byte != 0,
    ensures
        d.executed(byte).busy(),
        ({
            let us = if byte <= 0x03 {
                LONG_INSTRUCTION_US
            } else {
                SHORT_INSTRUCTION_US
            };
            !d.executed(byte).after_tick(cycles).busy() <==> cycles >= d.clock_hz * us / 1_000_000
                && cycles > 0
        }),
{
    let us = if byte <= 0x03 {
        LONG_INSTRUCTION_US
    } else {
        SHORT_INSTRUCTION_US
    };
    let product = d.clock_hz * us;
    assert(0 <= product <= u64::MAX * 1_000_000) by (nonlinear_arith)
        requires
            product == d.clock_hz * us,
            us <= 1_000_000,
    ;
    assert(d.instructed(byte).clock_hz == d.clock_hz);
}

/// In 4-bit mode two writes of the data register do what one write of the byte that they carry does
/// in 8-bit mode. A pairing in progress on the instruction register is not disturbed.
pub proof fn nibbles_write_a_byte(d: LcdView, first: u8, second: u8)
    requires
        d.wf(),
        !d.busy(),
        !d.interface_width_8bit,
        d.data_nibble == NibbleState::Idle,
    ensures
        d.after_write(1, first).after_write(1, second) == d.data_written(
            (first / 16 * 16 + second / 16) as u8,
        ).frame_pushed(),
        d.after_write(1, first).after_write(1, second).instruction_nibble == d.instruction_nibble,
{
}

/// In 8-bit mode a write of the data register takes effect at once.
pub proof fn byte_writes_at_once(d: LcdView, value: u8)
    requires
        !d.busy(),
        d.interface_width_8bit,
        d.data_nibble == NibbleState::Idle,
    ensures
        d.after_write(1, value) == d.data_written(value).frame_pushed(),
{
}

/// Reading data never shifts the display, even where writing does.
pub proof fn reads_never_shift(d: LcdView, offset: int)
    ensures
        d.after_read(offset).line_shift == d.line_shift,
        d.after_read(offset).ddram == d.ddram,
        d.after_read(offset).cgram == d.cgram,
{
}

/// Every DDRAM address names a place in DDRAM. On dual-line geometries the second line starts at
/// address `0x40`.
pub proof fn ddram_addresses_fold(dual_line: bool, raw: u8)
    ensures
        0 <= super::folded(dual_line, raw) < 80,
        dual_line && raw < 40 ==> super::folded(dual_line, raw) == raw,
        dual_line && 0x40 <= raw < 0x40 + 40 ==> super::folded(dual_line, raw) == 40 + (raw - 0x40),
        !dual_line && raw < 80 ==> super::folded(dual_line, raw) == raw,
{
}

/// Clearing the display fills DDRAM with blanks and returns the address counter to its start.
pub proof fn clear_blanks_ddram(d: LcdView, i: int)
    requires
        0 <= i < 80,
    ensures
        d.executed(0x01).ddram[i] == 0x20,
        d.executed(0x01).ac == AddressCounterTarget::Ddram(0),
        d.executed(0x01).cgram == d.cgram,
{
}

/// A reset leaves both RAMs as they were.
pub proof fn reset_keeps_ram(d: LcdView)
    ensures
        d.after_reset().ddram == d.ddram,
        d.after_reset().cgram == d.cgram,
        !d.after_reset().busy(),
{
}

/// It does not matter how the passing cycles are divided into ticks.
pub proof fn ticks_add_up(d: LcdView, a: u32, b: u32)
    requires
        a + b <= u32::MAX,
    ensures
        d.after_tick(a).after_tick(b) == d.after_tick((a + b) as u32),
{
}

/// Display On/Off Control, written to an idle device in 8-bit mode: bit 2 says whether the display is
/// on, bit 1 whether the cursor is shown, and bit 0 whether it blinks. Nothing else that is drawn
/// changes.
pub proof fn display_control_bits(d: LcdView, byte: u8)
    requires
        !d.busy(),
        d.interface_width_8bit,
        0x08 <= byte <= 0x0F,
    ensures
        ({
            let after = d.after_write(0, byte);
            &&& after.display_on <==> byte & 0x04 != 0
            &&& after.cursor_on <==> byte & 0x02 != 0
            &&& after.cursor_blink <==> byte & 0x01 != 0
            &&& after == (LcdView {
                display_on: after.display_on,
                cursor_on: after.cursor_on,
                cursor_blink: after.cursor_blink,
                instruction_nibble: after.instruction_nibble,
                busy_cycles_remaining: after.busy_cycles_remaining,
                frames: after.frames,
                ..d
            })
        }),
{
    crate::bytes::bits_by_division(byte);
}

/// Entry Mode Set: bit 1 says whether the address counter goes up, and bit 0 whether the display
/// shifts along.
pub proof fn entry_mode_bits(d: LcdView, byte: u8)
    requires
        !d.busy(),
        d.interface_width_8bit,
        0x04 <= byte <= 0x07,
    ensures
        ({
            let after = d.after_write(0, byte);
            &&& after.entry_id <==> byte & 0x02 != 0
            &&& after.entry_shift <==> byte & 0x01 != 0
            &&& after == (LcdView {
                entry_id: after.entry_id,
                entry_shift: after.entry_shift,
                instruction_nibble: after.instruction_nibble,
                busy_cycles_remaining: after.busy_cycles_remaining,
                frames: after.frames,
                ..d
            })
        }),
{
    crate::bytes::bits_by_division(byte);
}

/// Function Set: bit 4 says whether the interface is 8 bits wide, and bit 2 whether the font is the
/// taller one.
pub proof fn function_set_bits(d: LcdView, byte: u8)
    requires
        !d.busy(),
        d.interface_width_8bit,
        0x20 <= byte <= 0x3F,
    ensures
        ({
            let after = d.after_write(0, byte);
            &&& after.interface_width_8bit <==> byte & 0x10 != 0
            &&& after.font_5x10 <==> byte & 0x04 != 0
            &&& after == (LcdView {
                interface_width_8bit: after.interface_width_8bit,
                font_5x10: after.font_5x10,
                instruction_nibble: after.instruction_nibble,
                busy_cycles_remaining: after.busy_cycles_remaining,
                frames: after.frames,
                ..d
            })
        }),
{
    crate::bytes::bits_by_division(byte);
}

/// The address counter goes through all of the RAM that it targets, one place at a time, and then
/// starts over.
pub proof fn address_counter_steps(address: u8)
    ensures
        address < 79 ==> AddressCounterTarget::Ddram(address).advanced(true)
            == AddressCounterTarget::Ddram((address + 1) as u8),
        AddressCounterTarget::Ddram(79).advanced(true) == AddressCounterTarget::Ddram(0),
        0 < address < 80 ==> AddressCounterTarget::Ddram(address).advanced(false)
            == AddressCounterTarget::Ddram((address - 1) as u8),
        AddressCounterTarget::Ddram(0).advanced(false) == AddressCounterTarget::Ddram(79),
        address < 63 ==> AddressCounterTarget::Cgram(address).advanced(true)
            == AddressCounterTarget::Cgram((address + 1) as u8),
        AddressCounterTarget::Cgram(63).advanced(true) == AddressCounterTarget::Cgram(0),
        0 < address < 64 ==> AddressCounterTarget::Cgram(address).advanced(false)
            == AddressCounterTarget::Cgram((address - 1) as u8),
        AddressCounterTarget::Cgram(0).advanced(false) == AddressCounterTarget::Cgram(63),
        AddressCounterTarget::Ddram(address).address() == address,
        AddressCounterTarget::Cgram(address).address() == address,
{
}

/// Cursor or Display Shift: bit 3 says whether the display is shifted or the address counter moved,
/// and bit 2 whether that is to the right, which is one place up. No RAM changes.
pub proof fn shift_instruction_bits(d: LcdView, byte: u8)
    requires
        d.wf(),
        !d.busy(),
        d.interface_width_8bit,
        0x10 <= byte <= 0x1F,
    ensures
        ({
            let after = d.after_write(0, byte);
            &&& byte & 0x08 == 0 ==> after.line_shift == d.line_shift && after.ac
                == d.ac.advanced(byte & 0x04 != 0)
            &&& byte & 0x08 != 0 ==> after.ac == d.ac && after.line_shift == d.display_shifted(
                byte & 0x04 != 0,
            ).line_shift
            &&& after == (LcdView {
                ac: after.ac,
                line_shift: after.line_shift,
                instruction_nibble: after.instruction_nibble,
                busy_cycles_remaining: after.busy_cycles_remaining,
                frames: after.frames,
                ..d
            })
        }),
{
    crate::bytes::bits_by_division(byte);
}

/// A shift of the display moves the offset of every line by one, up if it is forward, and wraps at
/// the line's end: 40 places where there are two lines, 80 where there is one.
pub proof fn display_shift_moves_offsets(d: LcdView, forward: bool)
    requires
        d.wf(),
    ensures
        ({
            let after = d.display_shifted(forward).line_shift;
            let last = if d.geometry.dual_line() { 39int } else { 79 };
            &&& forward && d.line_shift[0] < last ==> after[0] == d.line_shift[0] + 1
            &&& forward && d.line_shift[0] == last ==> after[0] == 0
            &&& !forward && d.line_shift[0] > 0 ==> after[0] == d.line_shift[0] - 1
            &&& !forward && d.line_shift[0] == 0 ==> after[0] == last
            &&& d.geometry.dual_line() ==> {
                &&& forward && d.line_shift[1] < 39 ==> after[1] == d.line_shift[1] + 1
                &&& forward && d.line_shift[1] == 39 ==> after[1] == 0
                &&& !forward && d.line_shift[1] > 0 ==> after[1] == d.line_shift[1] - 1
                &&& !forward && d.line_shift[1] == 0 ==> after[1] == 39
            }
            &&& !d.geometry.dual_line() ==> after[1] == d.line_shift[1]
        }),
{
    let after = d.display_shifted(forward).line_shift;
    if d.geometry.dual_line() {
        lemma_pair(
            after,
            super::shifted_by_one(d.line_shift[0], forward, 40),
            super::shifted_by_one(d.line_shift[1], forward, 40),
        );
    } else {
        lemma_pair(after, super::shifted_by_one(d.line_shift[0], forward, 80), d.line_shift[1]);
    }
}

/// Set CGRAM Address: the bytes from `0x40` on name the places in CGRAM in order.
pub proof fn cgram_address_instruction(d: LcdView, byte: u8)
    requires
        !d.busy(),
        d.interface_width_8bit,
        0x40 <= byte < 0x80,
    ensures
        ({
            let after = d.after_write(0, byte);
            &&& after.ac == AddressCounterTarget::Cgram((byte - 0x40) as u8)
            &&& after == (LcdView {
                ac: after.ac,
                instruction_nibble: after.instruction_nibble,
                busy_cycles_remaining: after.busy_cycles_remaining,
                frames: after.frames,
                ..d
            })
        }),
{
    assert(byte % 64 == byte - 0x40);
}

/// Set DDRAM Address with two lines: the bytes from `0x80` on name the 40 places of the first line
/// and those from `0xC0` on the 40 places of the second, each starting over where the line ends.
/// With one line the bytes from `0x80` on name its 80 places, and then start over.
pub proof fn ddram_address_instruction(d: LcdView, byte: u8)
    requires
        !d.busy(),
        d.interface_width_8bit,
        0x80 <= byte,
    ensures
        ({
            let after = d.after_write(0, byte);
            let at = after.ac.address();
            &&& after.ac is Ddram
            &&& d.geometry.dual_line() ==> {
                &&& byte < 0xA8 ==> at == byte - 0x80
                &&& 0xA8 <= byte < 0xC0 ==> at == byte - 0xA8
                &&& 0xC0 <= byte < 0xE8 ==> at == 40 + (byte - 0xC0)
                &&& 0xE8 <= byte ==> at == 40 + (byte - 0xE8)
            }
            &&& !d.geometry.dual_line() ==> {
                &&& byte < 0xD0 ==> at == byte - 0x80
                &&& 0xD0 <= byte ==> at == byte - 0xD0
            }
            &&& after == (LcdView {
                ac: after.ac,
                instruction_nibble: after.instruction_nibble,
                busy_cycles_remaining: after.busy_cycles_remaining,
                frames: after.frames,
                ..d
            })
        }),
{
    let raw = (byte % 128) as u8;
    assert(raw == byte - 0x80);
    lemma_folded(raw);
    let dual = d.geometry.dual_line();
    assert(d.instructed(byte).ac == AddressCounterTarget::Ddram(super::folded(dual, raw) as u8));
    assert(d.executed(byte).ac == d.instructed(byte).ac);
}

proof fn lemma_folded(raw: u8)
    requires
        raw < 128,
    ensures
        raw < 40 ==> super::folded(true, raw) == raw,
        40 <= raw < 64 ==> super::folded(true, raw) == raw - 40,
        64 <= raw < 104 ==> super::folded(true, raw) == 40 + (raw - 64),
        104 <= raw ==> super::folded(true, raw) == 40 + (raw - 104),
        raw < 80 ==> super::folded(false, raw) == raw,
        80 <= raw ==> super::folded(false, raw) == raw - 80,
{
}

/// Clear Display blanks DDRAM, Return Home takes every shift back; both return the address counter
/// to the start of DDRAM. Clear Display also makes it go up, and leaves the shifts alone.
pub proof fn clear_and_home(d: LcdView, byte: u8)
    requires
        !d.busy(),
        d.interface_width_8bit,
        0x01 <= byte <= 0x03,
    ensures
        ({
            let after = d.after_write(0, byte);
            &&& after.ac == AddressCounterTarget::Ddram(0)
            &&& byte == 0x01 ==> after.entry_id && after.line_shift == d.line_shift
                && after.ddram.len() == 80 && forall|i: int|
                0 <= i < 80 ==> #[trigger] after.ddram[i] == 0x20
            &&& byte != 0x01 ==> after.entry_id == d.entry_id && after.ddram == d.ddram
                && after.line_shift[0] == 0 && after.line_shift[1] == 0
            &&& after == (LcdView {
                ac: after.ac,
                ddram: after.ddram,
                entry_id: after.entry_id,
                line_shift: after.line_shift,
                instruction_nibble: after.instruction_nibble,
                busy_cycles_remaining: after.busy_cycles_remaining,
                frames: after.frames,
                ..d
            })
        }),
{
}

/// An instruction of zero is none: it takes no time and changes nothing.
pub proof fn zero_is_no_instruction(d: LcdView)
    ensures
        d.executed(0x00) == d,
{
}

/// Clear Display and Return Home take 1520 microseconds, every other instruction 37, and so does
/// every access to data; each takes one cycle at least.
pub proof fn durations(d: LcdView, byte: u8)
    requires
        byte != 0,
        d.clock_hz <= 1_000_000_000_000,
    ensures
        ({
            let busy = d.executed(byte).busy_cycles_remaining;
            let us = if byte < 4 { 1520int } else { 37 };
            &&& busy == 1 || busy * 1_000_000 <= d.clock_hz * us
            &&& d.clock_hz * us < (busy + 1) * 1_000_000
            &&& busy >= 1
        }),
        ({
            let busy = d.data_written(byte).busy_cycles_remaining;
            &&& busy == 1 || busy * 1_000_000 <= d.clock_hz * 37
            &&& d.clock_hz * 37 < (busy + 1) * 1_000_000
            &&& busy >= 1
            &&& !d.busy() ==> d.after_read(1).busy_cycles_remaining == busy
        }),
{
    assert(d.instructed(byte).clock_hz == d.clock_hz);
}

/// The instruction register shows the busy flag in bit 7 and the address counter below it, and
/// reading it changes nothing.
pub proof fn busy_flag_and_address(d: LcdView)
    requires
        d.wf(),
    ensures
        d.read_value(0) & 0x80 != 0 <==> d.busy_cycles_remaining > 0,
        d.read_value(0) & 0x7F == d.ac.address(),
        d.peek_value(0) == d.read_value(0),
        d.after_read(0) == d,
{
    crate::bytes::bits_by_division(d.read_value(0));
    crate::bytes::masks_by_division(d.read_value(0));
}

/// A read of data shows what is at the address counter, which then moves on as entry mode says; a
/// peek shows the same and moves nothing. While the device is busy a read shows zero.
pub proof fn data_reads(d: LcdView, at: u8)
    requires
        d.wf(),
    ensures
        !d.busy() && d.ac == AddressCounterTarget::Ddram(at) ==> d.read_value(1) == d.ddram[at as int],
        !d.busy() && d.ac == AddressCounterTarget::Cgram(at) ==> d.read_value(1) == d.cgram[at as int],
        !d.busy() ==> d.after_read(1).ac == d.ac.advanced(d.entry_id),
        !d.busy() ==> d.peek_value(1) == d.read_value(1),
        d.busy() ==> d.read_value(1) == 0 && d.after_read(1).ac == d.ac,
{
}

/// A write of data stores the byte at the address counter, which then moves on as entry mode says.
/// Where entry mode says so, a write to DDRAM also shifts the display the same way; one to CGRAM
/// never does.
pub proof fn data_writes(d: LcdView, byte: u8, at: u8)
    requires
        d.wf(),
    ensures
        d.data_written(byte).ac == d.ac.advanced(d.entry_id),
        d.ac == AddressCounterTarget::Ddram(at) ==> {
            &&& d.data_written(byte).ddram == d.ddram.update(at as int, byte)
            &&& d.data_written(byte).cgram == d.cgram
            &&& d.data_written(byte).line_shift == if d.entry_shift {
                d.display_shifted(d.entry_id).line_shift
            } else {
                d.line_shift
            }
        },
        d.ac == AddressCounterTarget::Cgram(at) ==> {
            &&& d.data_written(byte).cgram == d.cgram.update(at as int, byte)
            &&& d.data_written(byte).ddram == d.ddram
            &&& d.data_written(byte).line_shift == d.line_shift
        },
{
}

/// In 4-bit mode two writes of the instruction register do what one write of the byte that they
/// carry in their high-order halves does. A pairing in progress on the data register is not
/// disturbed.
pub proof fn nibbles_write_an_instruction(d: LcdView, first: u8, second: u8)
    requires
        d.wf(),
        !d.busy(),
        !d.interface_width_8bit,
        d.instruction_nibble == NibbleState::Idle,
    ensures
        d.after_write(0, first) == (LcdView {
            instruction_nibble: d.after_write(0, first).instruction_nibble,
            ..d
        }),
        d.after_write(0, first).after_write(0, second) == d.executed(
            ((first & 0xF0) + (second >> 4)) as u8,
        ).frame_pushed(),
{
    crate::bytes::masks_by_division(first);
    crate::bytes::masks_by_division(second);
}

/// Every write that takes effect offers one frame that shows the device as the write left it; one
/// that is discarded, and one that only starts a pair of nibbles, offers none.
pub proof fn effective_writes_offer_a_frame(d: LcdView, offset: int, value: u8)
    requires
        d.frames is Some,
        offset == 0 || offset == 1,
    ensures
        ({
            let after = d.after_write(offset, value);
            let offered = after.frames.unwrap().offered;
            &&& after.frames is Some
            &&& after.frames.unwrap().target == d.frames.unwrap().target
            &&& d.busy() ==> offered == d.frames.unwrap().offered
            &&& !d.busy() && d.interface_width_8bit ==> {
                &&& offered.len() == d.frames.unwrap().offered.len() + 1
                &&& offered.last().pixels == after.state().frame()
                &&& offered.last().columns == d.geometry.columns
                &&& offered.last().rows == d.geometry.rows
                &&& offered.drop_last() == d.frames.unwrap().offered
            }
        }),
{
    let offered = d.after_write(offset, value).frames.unwrap().offered;
    if !d.busy() && d.interface_width_8bit {
        assert(offered.drop_last() =~= d.frames.unwrap().offered);
    }
}

/// A frame is drawn from the memories, the shifts and the modes as they are, with the cursor at the
/// address counter while that targets DDRAM.
pub proof fn frame_is_drawn_from_registers(d: LcdView)
    ensures
        d.state().ddram == d.ddram,
        d.state().cgram == d.cgram,
        d.state().table == d.table,
        d.state().line_shift == d.line_shift,
        d.state().display_on == d.display_on,
        d.state().font_5x10 == d.font_5x10,
        d.state().cursor.visible == d.cursor_on,
        d.state().cursor.blinking == d.cursor_blink,
        d.state().foreground == d.foreground,
        d.state().background == d.background,
        d.ac is Cgram ==> d.state().cursor.position is None,
{
}

/// A tick counts the busy cycles down, to nothing and no further.
pub proof fn ticks_count_down(d: LcdView, cycles: u32)
    ensures
        d.after_tick(cycles).busy_cycles_remaining + cycles >= d.busy_cycles_remaining,
        d.after_tick(cycles).busy_cycles_remaining <= d.busy_cycles_remaining,
        d.after_tick(cycles).busy_cycles_remaining > 0 ==> d.after_tick(
            cycles,
        ).busy_cycles_remaining + cycles == d.busy_cycles_remaining,
        d.after_tick(cycles) == (LcdView {
            busy_cycles_remaining: d.after_tick(cycles).busy_cycles_remaining,
            ..d
        }),
{
}

/// A reset puts the display off, without cursor, in 8-bit mode with the small font, unshifted, with
/// the address counter at the start of DDRAM and going up.
pub proof fn reset_puts_modes_back(d: LcdView)
    ensures
        ({
            let after = d.after_reset();
            &&& !after.display_on && !after.cursor_on && !after.cursor_blink
            &&& after.interface_width_8bit && !after.font_5x10
            &&& after.entry_id && !after.entry_shift
            &&& after.line_shift[0] == 0 && after.line_shift[1] == 0
            &&& after.ac == AddressCounterTarget::Ddram(0)
            &&& after.instruction_nibble is Idle && after.data_nibble is Idle
        }),
{
}

} // verus!
