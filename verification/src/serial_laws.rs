//! What holds of the serial interfaces, bit by bit.

use crate::acia6551::AciaView;
use crate::baud;
use crate::bytes::{bits_by_division, masks_by_division};
use crate::device::DeviceEvent;
use crate::mc6850::Mc6850View;
use crate::r6551::R6551View;
use vstd::prelude::*;

verus! {

/// The rates of the 6551 family, in bits per second, from select 1 on.
pub open spec fn standard_rates() -> Seq<nat> {
    seq![50, 75, 110, 134, 150, 300, 600, 1200, 1800, 2400, 3600, 4800, 7200, 9600, 19200]
}

/// A byte of ten bits takes ten times the clock frequency over the selected rate, rounded down, in
/// cycles. Without an internal clock (bit 4), or without a rate, there is no period.
pub proof fn byte_period_is_ten_bits(control: u8, clock_hz: u64)
    requires
        clock_hz <= 4_000_000_000,
    ensures
        ({
            let period = baud::byte_period(control, clock_hz);
            let select = control & 0x0F;
            let rate = standard_rates()[select - 1];
            &&& control & 0x10 == 0 || select == 0 ==> period == 0
            &&& control & 0x10 != 0 && select != 0 ==> period * rate <= clock_hz * 10 < (period + 1)
                * rate
        }),
{
    bits_by_division(control);
    masks_by_division(control);
    let select = control & 0x0F;
    if control & 0x10 != 0 && select != 0 {
        let rate = standard_rates()[select - 1];
        assert(rate == baud::baud_rate(select));
        let total = (clock_hz * 10) as int;
        vstd::arithmetic::div_mod::lemma_fundamental_div_mod(total, rate as int);
        vstd::arithmetic::div_mod::lemma_mod_bound(total, rate as int);
        let period = total / rate as int;
        assert(0 <= period <= 800_000_000) by (nonlinear_arith)
            requires
                period == total / rate as int,
                0 <= total <= 40_000_000_000,
                rate >= 50,
        ;
        vstd::arithmetic::div_mod::lemma_small_mod(period as nat, 0x1_0000_0000);
        assert(period * rate <= total < (period + 1) * rate) by (nonlinear_arith)
            requires
                total == rate * period + total % (rate as int),
                0 <= total % (rate as int) < rate,
        ;
    }
}

/// The R6551 interrupts for a received byte if its command register has bit 0 set and bit 1 clear,
/// and for an empty transmit register if bits 3-2 are `01`; for nothing else.
pub proof fn r6551_interrupts(d: R6551View)
    ensures
        d.irq() <==> (d.rdrf && d.command & 0x01 != 0 && d.command & 0x02 == 0) || (d.tdre
            && d.command & 0x0C == 0x04),
        !d.rdrf ==> (d.irq() <==> d.tdre && d.command & 0x08 == 0 && d.command & 0x04 != 0),
{
    bits_by_division(d.command);
    masks_by_division(d.command);
}

/// The status register of the R6551 shows the interrupt in bit 7, an empty transmit register in bit
/// 4, a full receive register in bit 3 and an overrun in bit 2; its other bits are clear.
pub proof fn r6551_status_bits(d: R6551View)
    ensures
        ({
            let status = d.value_at(1);
            &&& status & 0x80 != 0 <==> d.irq()
            &&& status & 0x10 != 0 <==> d.tdre
            &&& status & 0x08 != 0 <==> d.rdrf
            &&& status & 0x04 != 0 <==> d.overrun
            &&& status & 0x40 == 0 && status & 0x20 == 0 && status & 0x02 == 0 && status & 0x01 == 0
        }),
{
    bits_by_division(d.value_at(1));
}

/// What the four registers of the R6551 show, and what reading them changes: the data register is
/// what was received last, and reading it frees it; reading the others changes nothing.
pub proof fn r6551_reads(d: R6551View, offset: int)
    ensures
        d.value_at(0) == d.rx_data,
        d.value_at(2) == d.command,
        d.value_at(3) == d.control,
        !d.after_read(0).rdrf && !d.after_read(0).overrun,
        d.after_read(0) == (R6551View { rdrf: false, overrun: false, ..d }),
        offset != 0 ==> d.after_read(offset) == d,
{
}

/// Writing the data register of the R6551 sends the byte; writing the status register clears an
/// overrun and nothing else; the other registers keep what is written. A new control register sets
/// the byte period and starts it anew.
pub proof fn r6551_writes(d: R6551View, value: u8)
    ensures
        d.port is Some && d.port.unwrap().fault is None ==> d.after_write(
            0,
            value,
        ).port.unwrap().outbound == d.port.unwrap().outbound.push(value),
        d.port is None ==> d.after_write(0, value).port is None,
        d.after_write(0, value).rdrf == d.rdrf && d.after_write(0, value).rx_data == d.rx_data,
        d.tdre_bug_compatible ==> d.after_write(0, value).tdre == d.tdre,
        !d.tdre_bug_compatible ==> !d.after_write(0, value).tdre,
        d.after_write(1, value) == (R6551View { overrun: false, ..d }),
        d.after_write(2, value) == (R6551View { command: value, ..d }),
        d.after_write(3, value).control == value,
        d.after_write(3, value).cycle_accum == 0,
        d.after_write(3, value).cycles_per_byte == baud::byte_period(value, d.clock_hz),
        d.after_write(3, value).command == d.command && d.after_write(3, value).rdrf == d.rdrf,
{
    if d.port is Some && d.port.unwrap().fault is None {
        assert(d.after_write(0, value).port.unwrap().outbound
            =~= d.port.unwrap().outbound.push(value));
    }
    let total = (d.clock_hz * 10) as nat;
    vstd::arithmetic::div_mod::lemma_mod_bound(
        (total / baud::baud_rate((value % 16) as u8)) as int,
        0x1_0000_0000,
    );
}

/// The R6551 receives a byte only with DTR asserted (bit 0 of the command register). Into a free
/// receive register it takes the oldest byte that has arrived; into a full one only where overrun is
/// enabled, and then it says so.
pub proof fn r6551_receives(d: R6551View, allow_overrun: bool)
    ensures
        ({
            let after = d.polled(allow_overrun);
            let arrived = d.port is Some && d.port.unwrap().inbound.len() > 0;
            &&& d.command & 0x01 == 0 || !arrived || (d.rdrf && !allow_overrun) ==> after == d
            &&& d.command & 0x01 != 0 && arrived && (!d.rdrf || allow_overrun) ==> {
                &&& after.rdrf
                &&& after.rx_data == d.port.unwrap().inbound[0]
                &&& after.port.unwrap().inbound == d.port.unwrap().inbound.skip(1)
                &&& after.port.unwrap().outbound == d.port.unwrap().outbound
                &&& after.overrun == (d.overrun || d.rdrf)
            }
        }),
{
    bits_by_division(d.command);
}

/// With the internal clock the R6551 polls its transport exactly when a byte period has passed, and
/// with the external clock once per tick.
pub proof fn r6551_polls_once_per_byte_period(d: R6551View, cycles: u32)
    requires
        d.wf(),
    ensures
        ({
            let t = d.transmitted(cycles);
            &&& d.cycles_per_byte == 0 ==> d.after_tick(cycles) == t.polled(false)
            &&& d.cycles_per_byte > 0 && d.cycle_accum + cycles < d.cycles_per_byte ==> d.after_tick(
                cycles,
            ) == (R6551View { cycle_accum: (d.cycle_accum + cycles) as u32, ..t })
            &&& d.cycles_per_byte > 0 && d.cycle_accum + cycles == d.cycles_per_byte
                ==> d.after_tick(cycles) == (R6551View { cycle_accum: 0, ..t }).polled(
                d.overrun_enabled,
            )
        }),
{
    let elapsed = (d.cycle_accum + cycles) as nat;
    let period = d.cycles_per_byte as nat;
    if period > 0 {
        if elapsed < period {
            vstd::arithmetic::div_mod::lemma_small_mod(elapsed, period);
            vstd::arithmetic::div_mod::lemma_basic_div(elapsed as int, period as int);
        } else if elapsed == period {
            vstd::arithmetic::div_mod::lemma_div_by_self(period as int);
            vstd::arithmetic::div_mod::lemma_mod_self_0(period as int);
            reveal_with_fuel(R6551View::polled_times, 2);
        }
    }
}

/// The R6551 starts with an empty transmit register, an empty receive register and the external
/// clock, and so it is after a reset.
pub proof fn r6551_starts_idle(name: Seq<char>, d: R6551View)
    ensures
        R6551View::fresh(name).value_at(1) == 0x10,
        R6551View::fresh(name).value_at(2) == 0,
        R6551View::fresh(name).cycles_per_byte == 0,
        d.after_reset().value_at(1) == 0x10,
        d.after_reset().value_at(2) == 0,
        d.after_reset().value_at(3) == 0,
        d.after_reset().cycles_per_byte == 0,
        d.after_reset().port == d.port,
        d.after_reset().address == d.address,
{
}

/// The ACIA interrupts for a received byte unless bit 1 of its command register is set, and for an
/// empty transmit register if bits 3-2 are `01`; for nothing else.
pub proof fn acia_interrupts(d: AciaView)
    ensures
        d.irq() <==> (d.rdrf && d.command & 0x02 == 0) || (d.tdre && d.command & 0x0C == 0x04),
        !d.rdrf ==> (d.irq() <==> d.tdre && d.command & 0x08 == 0 && d.command & 0x04 != 0),
{
    bits_by_division(d.command);
    masks_by_division(d.command);
}

/// The status register of the ACIA shows the interrupt in bit 7, an empty transmit register in bit 4,
/// a full receive register in bit 3 and an overrun in bit 2; its other bits are clear.
pub proof fn acia_status_bits(d: AciaView)
    ensures
        ({
            let status = d.value_at(1);
            &&& status & 0x80 != 0 <==> d.irq()
            &&& status & 0x10 != 0 <==> d.tdre
            &&& status & 0x08 != 0 <==> d.rdrf
            &&& status & 0x04 != 0 <==> d.overrun
            &&& status & 0x40 == 0 && status & 0x20 == 0 && status & 0x02 == 0 && status & 0x01 == 0
        }),
{
    bits_by_division(d.value_at(1));
}

/// What the registers of the ACIA show, and what reading and writing them changes.
pub proof fn acia_registers(d: AciaView, offset: u16, value: u8)
    ensures
        d.value_at(0) == d.rx_data,
        d.value_at(2) == d.command,
        d.value_at(3) == d.control,
        d.after_read(0) == (AciaView { rdrf: false, overrun: false, ..d }),
        offset != 0 ==> d.after_read(offset) == d,
        d.port is Some && d.port.unwrap().fault is None ==> d.after_write(
            0,
            value,
        ).port.unwrap().outbound == d.port.unwrap().outbound.push(value),
        d.after_write(1, value) == (AciaView { overrun: false, ..d }),
        d.after_write(2, value) == (AciaView { command: value, ..d }),
        d.after_write(3, value).control == value,
        d.after_write(3, value).cycle_accum == 0,
        d.after_write(3, value).cycles_per_byte == baud::byte_period(value, 1_000_000),
        AciaView::fresh().value_at(1) == 0x10,
{
    if d.port is Some && d.port.unwrap().fault is None {
        assert(d.after_write(0, value).port.unwrap().outbound
            =~= d.port.unwrap().outbound.push(value));
    }
    vstd::arithmetic::div_mod::lemma_mod_bound(
        (10_000_000nat / baud::baud_rate((value % 16) as u8)) as int,
        0x1_0000_0000,
    );
}

/// The ACIA takes the oldest byte that has arrived, whether its receive register is free or not; in
/// the latter case it says so.
pub proof fn acia_receives(d: AciaView)
    requires
        d.port is Some,
        d.port.unwrap().inbound.len() > 0,
    ensures
        d.polled().rdrf,
        d.polled().rx_data == d.port.unwrap().inbound[0],
        d.polled().port.unwrap().inbound == d.port.unwrap().inbound.skip(1),
        d.polled().overrun == (d.overrun || d.rdrf),
        d.polled().command == d.command,
{
}

/// The MC6850 interrupts for a received byte if bit 7 of its control register is set, and for an
/// empty transmit register if bits 6-5 are `10`; for nothing else.
pub proof fn mc6850_interrupts(d: Mc6850View)
    ensures
        d.irq() <==> (d.rdrf && d.control & 0x80 != 0) || (d.tdre && d.control & 0x40 != 0
            && d.control & 0x20 == 0),
{
    bits_by_division(d.control);
}

/// The status register of the MC6850 shows a full receive register in bit 0, an empty transmit
/// register in bit 1, an overrun in bit 5 and the interrupt in bit 7; its other bits are clear.
pub proof fn mc6850_status_bits(d: Mc6850View)
    ensures
        ({
            let status = d.value_at(0);
            &&& status & 0x01 != 0 <==> d.rdrf
            &&& status & 0x02 != 0 <==> d.tdre
            &&& status & 0x20 != 0 <==> d.overrun
            &&& status & 0x80 != 0 <==> d.irq()
            &&& status & 0x04 == 0 && status & 0x08 == 0 && status & 0x10 == 0 && status & 0x40 == 0
        }),
{
    bits_by_division(d.value_at(0));
}

/// Writing ones to bits 1-0 of the control register of the MC6850 resets it: both registers are
/// empty and nothing was overrun. Any other control byte only changes the control register. A data
/// byte is sent, and fills the transmit register until the next tick.
pub proof fn mc6850_writes(d: Mc6850View, value: u8)
    ensures
        value & 0x03 == 0x03 ==> d.after_write(0, value) == (Mc6850View {
            control: value,
            rx_data: 0,
            rdrf: false,
            tdre: true,
            overrun: false,
            tx_pending: false,
            ..d
        }),
        value & 0x03 != 0x03 ==> d.after_write(0, value) == (Mc6850View { control: value, ..d }),
        d.port is Some && d.port.unwrap().fault is None ==> d.after_write(
            1,
            value,
        ).port.unwrap().outbound == d.port.unwrap().outbound.push(value),
        !d.after_write(1, value).tdre && d.after_write(1, value).tx_pending,
        d.after_write(1, value).rdrf == d.rdrf && d.after_write(1, value).rx_data == d.rx_data,
{
    masks_by_division(value);
    if d.port is Some && d.port.unwrap().fault is None {
        assert(d.after_write(1, value).port.unwrap().outbound
            =~= d.port.unwrap().outbound.push(value));
    }
}

/// Reading the data register of the MC6850 shows what was received last and frees the register;
/// reading the status register changes nothing. A tick fills a free receive register with the oldest
/// byte that was not taken yet, and leaves a full one alone.
pub proof fn mc6850_receives(d: Mc6850View)
    ensures
        d.value_at(1) == d.rx_data,
        d.after_read(1) == (Mc6850View { rdrf: false, overrun: false, ..d }),
        d.after_read(0) == d,
        ({
            let waiting = d.rx_buffer + (match d.port {
                Some(port) => port.inbound,
                None => Seq::empty(),
            });
            let after = d.after_tick();
            &&& d.rdrf ==> after.rdrf && after.rx_data == d.rx_data && after.rx_buffer == waiting
            &&& !d.rdrf && waiting.len() > 0 ==> after.rdrf && after.rx_data == waiting[0]
                && after.rx_buffer == waiting.skip(1)
            &&& !d.rdrf && waiting.len() == 0 ==> !after.rdrf
            &&& after.port is Some ==> after.port.unwrap().inbound.len() == 0
            &&& after.tdre == (d.tdre || d.tx_pending)
            &&& after.overrun == d.overrun
        }),
{
    let waiting = d.rx_buffer + (match d.port {
        Some(port) => port.inbound,
        None => Seq::empty(),
    });
    assert(d.drained().rx_buffer =~= waiting);
}

/// A byte that its transport refuses is reported by the R6551 as the transport's error, and by the ACIA
/// too; one that is taken is not.
pub proof fn refused_bytes_are_reported(d: R6551View, a: AciaView, value: u8)
    ensures
        d.port is Some && d.reporter is Some ==> {
            let port = d.port.unwrap();
            let before = d.reporter.unwrap();
            let after = d.after_write(0, value).reporter.unwrap();
            &&& port.fault is None || port.grace > 0 ==> after == before
            &&& port.fault is Some && port.grace == 0 ==> after.sent == before.sent.push(
                DeviceEvent::TransportError {
                    device: before.device_id,
                    error: port.fault.unwrap(),
                },
            )
        },
        a.port is Some && a.reporter is Some ==> {
            let port = a.port.unwrap();
            let before = a.reporter.unwrap();
            let after = a.after_write(0, value).reporter.unwrap();
            &&& port.fault is None || port.grace > 0 ==> after == before
            &&& port.fault is Some && port.grace == 0 ==> after.sent == before.sent.push(
                DeviceEvent::TransportError {
                    device: before.device_id,
                    error: port.fault.unwrap(),
                },
            )
        },
{
}

} // verus!
