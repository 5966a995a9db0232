//! Shared input-buffering support for memory-mapped devices that receive a byte stream from a
//! connected transport.
//!
//! An [`InputBuffer`] holds an integral ring buffer of received bytes, plus a single-byte latch
//! register that allows a one-byte lookahead and a way to drain the ring on demand. An optional
//! break key code (e.g. ASCII Ctrl+C) may be configured; when that byte is pushed, the ring is
//! drained, the break key code is latched, and the interrupt flag is set.

use crate::ring::Ring;
use crate::transport::TransportPort;
use vstd::prelude::*;

verus! {

/// Shared ring/latch/break-key input state for a memory-mapped input device.
pub struct InputBuffer {
    pub ring: Ring<u8>,
    pub latch: u8,
    pub break_key: Option<u8>,
    pub interrupt_flag: bool,
}

/// An input buffer, seen through the bytes in its ring.
#[verifier::ext_equal]
pub ghost struct InputView {
    pub ring: Seq<u8>,
    pub latch: u8,
    pub break_key: Option<u8>,
    pub interrupt_flag: bool,
}

impl View for InputBuffer {
    type V = InputView;

    open spec fn view(&self) -> InputView {
        InputView {
            ring: self.ring@,
            latch: self.latch,
            break_key: self.break_key,
            interrupt_flag: self.interrupt_flag,
        }
    }
}

impl InputView {
    /// A buffer that has received nothing.
    pub open spec fn fresh() -> Self {
        InputView { ring: Seq::empty(), latch: 0, break_key: None, interrupt_flag: false }
    }

    /// The next byte in the ring, or zero.
    pub open spec fn next(self) -> u8 {
        if self.ring.len() > 0 {
            self.ring[0]
        } else {
            0
        }
    }

    /// The ring without its next byte.
    pub open spec fn rest(self) -> Seq<u8> {
        if self.ring.len() > 0 {
            self.ring.skip(1)
        } else {
            self.ring
        }
    }

    /// What the data register shows: the latch if it is not zero, else the next byte.
    pub open spec fn data(self) -> u8 {
        if self.latch != 0 {
            self.latch
        } else {
            self.next()
        }
    }

    /// The buffer after a read of the data register.
    pub open spec fn after_read_data(self) -> Self {
        if self.latch != 0 {
            InputView { latch: 0, interrupt_flag: false, ..self }
        } else {
            InputView { ring: self.rest(), interrupt_flag: false, ..self }
        }
    }

    /// The buffer after a read of the latch register.
    pub open spec fn after_read_latch(self) -> Self {
        if self.latch != 0 {
            InputView { interrupt_flag: false, ..self }
        } else {
            InputView { latch: self.next(), ring: self.rest(), interrupt_flag: false, ..self }
        }
    }

    /// The buffer after a write of the latch register.
    pub open spec fn after_write_latch(self, value: u8) -> Self {
        InputView {
            latch: value,
            ring: Seq::empty(),
            interrupt_flag: self.break_key == Some(value),
            ..self
        }
    }

    /// The buffer after `byte` arrived: the break key is latched and interrupts, anything else is
    /// appended to the ring while there is room.
    pub open spec fn pushed(self, byte: u8) -> Self {
        if self.break_key == Some(byte) {
            InputView { latch: byte, ring: Seq::empty(), interrupt_flag: true, ..self }
        } else if self.ring.len() < crate::ring::RING_CAPACITY - 1 {
            InputView { ring: self.ring.push(byte), ..self }
        } else {
            self
        }
    }

    /// The buffer after each of `bytes` arrived in order.
    pub open spec fn pushed_all(self, bytes: Seq<u8>) -> Self
        decreases bytes.len(),
    {
        if bytes.len() == 0 {
            self
        } else {
            self.pushed(bytes[0]).pushed_all(bytes.skip(1))
        }
    }

    /// The buffer after a reset.
    pub open spec fn after_reset(self) -> Self {
        InputView { ring: Seq::empty(), latch: 0, interrupt_flag: false, ..self }
    }
}

impl InputBuffer {
    /// Creates an empty buffer with no break key configured.
    pub fn new() -> (b: Self)
        ensures
            b@ == InputView::fresh(),
    {
        InputBuffer { ring: Ring::new(0u8), latch: 0, break_key: None, interrupt_flag: false }
    }

    /// Sets the break key to recognize when a byte is pushed.
    pub fn set_break_key(&mut self, break_key: u8)
        ensures
            final(self)@ == (InputView { break_key: Some(break_key), ..old(self)@ }),
    {
        self.break_key = Some(break_key);
    }

    /// Data-register read semantics: returns the latch value (if non-zero, clearing it), or the
    /// next buffered byte (if any), or zero. Clears the interrupt flag.
    pub fn read_data(&mut self) -> (value: u8)
        ensures
            value == old(self)@.data(),
            final(self)@ == old(self)@.after_read_data(),
    {
        self.interrupt_flag = false;
        if self.latch != 0 {
            let b = self.latch;
            self.latch = 0;
            b
        } else {
            match self.ring.get() {
                Some(b) => b,
                None => 0,
            }
        }
    }

    /// Latch-register read semantics: latches the next buffered byte if nothing is already
    /// latched, then returns the latch value. Clears the interrupt flag.
    pub fn read_latch(&mut self) -> (value: u8)
        ensures
            value == old(self)@.data(),
            final(self)@ == old(self)@.after_read_latch(),
    {
        self.interrupt_flag = false;
        if self.latch == 0 {
            self.latch = match self.ring.get() {
                Some(b) => b,
                None => 0,
            };
        }
        self.latch
    }

    /// Latch-register write semantics: overwrites the latch, drains the ring, and sets the
    /// interrupt flag if `value` matches the configured break key (clearing it otherwise).
    pub fn write_latch(&mut self, value: u8)
        ensures
            final(self)@ == old(self)@.after_write_latch(value),
    {
        self.latch = value;
        self.ring.clear();
        self.interrupt_flag = match self.break_key {
            Some(break_key) => break_key == value,
            None => false,
        };
    }

    /// Side-effect-free read of data-register semantics.
    pub fn peek_data(&self) -> (value: u8)
        ensures
            value == self@.data(),
    {
        if self.latch != 0 {
            self.latch
        } else {
            match self.ring.peek() {
                Some(b) => b,
                None => 0,
            }
        }
    }

    /// Side-effect-free read of latch-register semantics.
    pub fn peek_latch(&self) -> (value: u8)
        ensures
            value == self@.latch,
    {
        self.latch
    }

    /// Accepts one byte drained from the owning device's transport. If it matches the configured
    /// break key, the latch is set to it, the ring is drained, and the interrupt flag is set;
    /// otherwise the byte is appended to the ring.
    pub fn push(&mut self, byte: u8)
        ensures
            final(self)@ == old(self)@.pushed(byte),
    {
        let is_break = match self.break_key {
            Some(break_key) => break_key == byte,
            None => false,
        };
        if is_break {
            self.latch = byte;
            self.ring.clear();
            self.interrupt_flag = true;
        } else {
            let _ = self.ring.put(byte);
        }
    }

    /// Takes everything that has arrived at `port`.
    pub fn drain(&mut self, port: &mut TransportPort<u8>)
        ensures
            final(self)@ == old(self)@.pushed_all(old(port)@.inbound),
            final(port)@ == old(port)@.drained(),
    {
        loop
            invariant
                self@.pushed_all(port@.inbound) == old(self)@.pushed_all(old(port)@.inbound),
                port@.drained() == old(port)@.drained(),
            decreases port@.inbound.len(),
        {
            match port.try_recv() {
                Some(b) => {
                    self.push(b);
                },
                None => {
                    assert(port@ =~= old(port)@.drained());
                    return ;
                },
            }
        }
    }

    /// Clears the ring, latch, and interrupt flag.
    pub fn reset(&mut self)
        ensures
            final(self)@ == old(self)@.after_reset(),
    {
        self.ring.clear();
        self.latch = 0;
        self.interrupt_flag = false;
    }

    /// Returns `true` if the break-key interrupt condition is currently asserted.
    pub fn irq_active(&self) -> (active: bool)
        ensures
            active == self@.interrupt_flag,
    {
        self.interrupt_flag
    }
}

/// Bytes come out of the data register in the order in which they arrived.
pub proof fn input_is_first_in_first_out(input: InputView, byte: u8)
    requires
        input.latch == 0,
        input.break_key != Some(byte),
        0 < input.ring.len() < crate::ring::RING_CAPACITY - 1,
    ensures
        input.pushed(byte).data() == input.data(),
        input.pushed(byte).after_read_data() == input.after_read_data().pushed(byte),
{
    assert(input.pushed(byte).after_read_data().ring =~= input.after_read_data().pushed(byte).ring);
}

/// Looking ahead through the latch register takes nothing away: the data register then shows the
/// same byte, and reading it leaves what reading it at once would have left. A zero byte cannot be
/// latched, so there must be none ahead.
pub proof fn latch_looks_ahead(input: InputView)
    requires
        input.latch == 0 && input.ring.len() > 0 ==> input.ring[0] != 0,
    ensures
        input.after_read_latch().data() == input.data(),
        input.after_read_latch().after_read_data() == input.after_read_data(),
{
}

/// The break key drains what arrived before it, and is what is read next.
pub proof fn break_key_drains(input: InputView, byte: u8)
    requires
        input.break_key == Some(byte),
        byte != 0,
    ensures
        input.pushed(byte).interrupt_flag,
        input.pushed(byte).data() == byte,
        input.pushed(byte).after_read_data().ring.len() == 0,
        !input.pushed(byte).after_read_data().interrupt_flag,
{
}

/// What is written to the latch register is read from either register next, whatever was buffered;
/// zero empties the latch. It interrupts if and only if it is the break key.
pub proof fn latch_write_reads_back(input: InputView, value: u8)
    ensures
        input.after_write_latch(value).latch == value,
        input.after_write_latch(value).data() == value,
        input.after_write_latch(value).interrupt_flag <==> input.break_key == Some(value),
{
}

/// The data register shows the latch unless that is zero, then the oldest buffered byte, then zero;
/// reading it takes away what it showed, and nothing else.
pub proof fn data_reads(input: InputView)
    ensures
        input.latch != 0 ==> input.data() == input.latch && input.after_read_data().latch == 0
            && input.after_read_data().ring == input.ring,
        input.latch == 0 && input.ring.len() > 0 ==> input.data() == input.ring[0]
            && input.after_read_data().ring == input.ring.skip(1)
            && input.after_read_data().latch == 0,
        input.latch == 0 && input.ring.len() == 0 ==> input.data() == 0
            && input.after_read_data().ring.len() == 0,
        !input.after_read_data().interrupt_flag,
        input.after_read_data().break_key == input.break_key,
{
}

/// Reading the latch register moves the oldest buffered byte into an empty latch, and leaves a full
/// one alone; the interrupt is withdrawn.
pub proof fn latch_reads(input: InputView)
    ensures
        input.latch != 0 ==> input.after_read_latch().latch == input.latch
            && input.after_read_latch().ring == input.ring,
        input.latch == 0 && input.ring.len() > 0 ==> input.after_read_latch().latch == input.ring[0]
            && input.after_read_latch().ring == input.ring.skip(1),
        input.latch == 0 && input.ring.len() == 0 ==> input.after_read_latch().latch == 0,
        !input.after_read_latch().interrupt_flag,
{
}

/// Bytes that arrive are appended in order as long as fewer than 127 are buffered; what arrives then
/// is dropped. None of them interrupts unless it is the break key.
pub proof fn arrivals_are_buffered(input: InputView, bytes: Seq<u8>)
    requires
        input.break_key matches Some(key) ==> !bytes.contains(key),
        input.ring.len() <= 127,
    ensures
        ({
            let all = input.ring + bytes;
            let kept = if all.len() <= 127 {
                all
            } else {
                all.take(127)
            };
            input.pushed_all(bytes) == (InputView { ring: kept, ..input })
        }),
    decreases bytes.len(),
{
    if bytes.len() > 0 {
        let next = input.pushed(bytes[0]);
        let rest = bytes.skip(1);
        assert(bytes.contains(bytes[0]));
        assert forall|b: u8| rest.contains(b) implies bytes.contains(b) by {
            let i = choose|i: int| 0 <= i < rest.len() && rest[i] == b;
            assert(bytes[i + 1] == b);
        }
        arrivals_are_buffered(next, rest);
        if input.ring.len() < 127 {
            assert(next.ring + rest =~= input.ring + bytes);
        } else {
            assert((input.ring + bytes).take(127) =~= input.ring);
            assert((input.ring + rest).take(127) =~= input.ring);
            if rest.len() == 0 {
                assert(input.ring + rest =~= input.ring);
            }
        }
    } else {
        assert(input.ring + bytes =~= input.ring);
    }
}

/// A reset forgets everything but the break key.
pub proof fn reset_forgets_input(input: InputView)
    ensures
        input.after_reset().data() == 0,
        input.after_reset().ring.len() == 0,
        !input.after_reset().interrupt_flag,
        input.after_reset().break_key == input.break_key,
{
}

} // verus!
