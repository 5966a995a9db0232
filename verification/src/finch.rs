//! A bank-switched ROM (designed for the Finch SBC).
//!
//! This device combines 512K RAM and 512K ROM and a very basic memory management unit (MMU) that
//! allows the entire 64K address space for the 6502 to be mapped to any combination of 4K segments
//! of the module's available memory.
//!
//! The 64K address space of the 6502 consists of sixteen 4K slots. The four most significant bits of
//! a bus address select a slot, and the slot's bank register selects which of the 256 4K banks of
//! physical memory is mapped there. Banks `0x00` to `0x7F` are RAM, banks `0x80` to `0xFF` are ROM.
//!
//! The sixteen bank registers and the control register are mapped at arbitrary addresses, and
//! support both read and write. Bit 7 of the control register enables the MMU. While it is disabled,
//! as it is after a reset, the bank registers are ignored: slots `0x0` to `0x7` are mapped to banks
//! `0x00` to `0x07` (RAM), slots `0x8` to `0xF` to banks `0x80` to `0x87` (ROM).

use crate::address::{AddressRange, RomWritePolicy};
use crate::device;
use crate::device::{DeviceId, ErrorSender, IoDevice};
use crate::error_reporter;
use crate::error_reporter::{report_rejected_write, ErrorReporter, ReporterView};
use vstd::prelude::*;

verus! {

pub const NUM_SLOTS: usize = 16;

pub const NUM_BANKS: usize = 256;

pub const BANK_SIZE: usize = 4096;

pub const MEMORY_SIZE: usize = BANK_SIZE * NUM_BANKS;

pub const ROM_START: usize = MEMORY_SIZE / 2;

pub const MMUE_MASK: u8 = 0b10000000;

/// A bank-switched memory module with a simple MMU (designed for the Finch SBC).
pub struct Finch {
    /// Name of the device as it appears in configuration and CLI.
    pub name: &'static str,
    /// Addresses of the bank registers.
    pub bank_register_range: AddressRange,
    /// Address for the control register.
    pub control_register_address: u16,
    /// Write policy to apply for attempted write operations on ROM.
    pub write_policy: Option<RomWritePolicy>,
    /// Destination for error events.
    pub error_reporter: Option<ErrorReporter>,
    /// Bank selection registers.
    pub bank_registers: [u8; NUM_SLOTS],
    /// Control register image.
    pub control_register: u8,
    /// Memory storage.
    pub data: Vec<u8>,
}

/// A Finch, seen through its reporter, its registers and its memory.
#[verifier::ext_equal]
pub ghost struct FinchView {
    pub name: Seq<char>,
    pub bank_register_range: AddressRange,
    pub control_register_address: u16,
    pub write_policy: Option<RomWritePolicy>,
    pub reporter: Option<ReporterView>,
    pub bank_registers: Seq<u8>,
    pub control_register: u8,
    pub data: Seq<u8>,
}

impl View for Finch {
    type V = FinchView;

    open spec fn view(&self) -> FinchView {
        FinchView {
            name: self.name@,
            bank_register_range: self.bank_register_range,
            control_register_address: self.control_register_address,
            write_policy: self.write_policy,
            reporter: error_reporter::view_of(self.error_reporter),
            bank_registers: self.bank_registers@,
            control_register: self.control_register,
            data: self.data@,
        }
    }
}

impl FinchView {
    /// There are sixteen bank registers, at sixteen addresses; memory is loaded whole or not at all.
    pub open spec fn wf(self) -> bool {
        &&& self.bank_registers.len() == NUM_SLOTS
        &&& self.bank_register_range.end == self.bank_register_range.start + NUM_SLOTS - 1
        &&& self.data.len() == 0 || self.data.len() == MEMORY_SIZE
    }

    /// Whether there is a register at `address`.
    pub open spec fn is_register(self, address: u16) -> bool {
        address == self.control_register_address || self.bank_register_range.holds(address)
    }

    pub open spec fn mmu_on(self) -> bool {
        self.control_register >= MMUE_MASK
    }

    /// The bank that is mapped into `slot`.
    pub open spec fn bank(self, slot: int) -> int {
        if self.mmu_on() {
            self.bank_registers[slot] as int
        } else if slot < 8 {
            slot
        } else {
            slot - 8 + 0x80
        }
    }

    /// The place in memory that `address` is mapped to.
    pub open spec fn effective(self, address: u16) -> int {
        self.bank(address as int / 4096) * 4096 + address as int % 4096
    }

    /// What a read or a peek at `address` shows.
    pub open spec fn value_at(self, address: u16) -> u8 {
        if address == self.control_register_address {
            self.control_register
        } else if self.bank_register_range.holds(address) {
            self.bank_registers[address - self.bank_register_range.start]
        } else {
            self.data[self.effective(address)]
        }
    }

    /// The device after `value` was stored at `address`, wherever that is.
    pub open spec fn stored(self, address: u16, value: u8) -> Self {
        if address == self.control_register_address {
            FinchView { control_register: value, ..self }
        } else if self.bank_register_range.holds(address) {
            FinchView {
                bank_registers: self.bank_registers.update(
                    address - self.bank_register_range.start,
                    value,
                ),
                ..self
            }
        } else {
            FinchView { data: self.data.update(self.effective(address), value), ..self }
        }
    }

    /// Whether `address` is mapped to ROM.
    pub open spec fn in_rom(self, address: u16) -> bool {
        !self.is_register(address) && self.effective(address) >= ROM_START
    }

    /// The device after a write at `address`: one to ROM is dropped, and is reported where the
    /// policy says so.
    pub open spec fn after_write(self, address: u16, value: u8) -> Self {
        if !self.in_rom(address) {
            self.stored(address, value)
        } else if self.write_policy == Some(RomWritePolicy::Error) {
            FinchView {
                reporter: error_reporter::after_rejected(self.reporter, address),
                ..self
            }
        } else {
            self
        }
    }

    /// The device after a patch at `address`, which reaches ROM too. Where there is no memory to
    /// store it in, it is a write.
    pub open spec fn patched(self, address: u16, value: u8) -> Self {
        if self.in_rom(address) && self.data.len() == 0 {
            self.after_write(address, value)
        } else {
            self.stored(address, value)
        }
    }

    /// The device after a reset, which disables the MMU and keeps everything else.
    pub open spec fn after_reset(self) -> Self {
        FinchView { control_register: (self.control_register % 128) as u8, ..self }
    }
}

impl Finch {
    /// Constructs a new `Finch` device with no memory loaded.
    ///
    /// - `bank_register_address` - base address for the sixteen bank registers
    /// - `control_register_address` - address for the control register
    pub fn new(
        name: &'static str,
        bank_register_address: u16,
        control_register_address: u16,
    ) -> (d: Self)
        requires
            bank_register_address + NUM_SLOTS - 1 <= u16::MAX,
        ensures
            d@ == (FinchView {
                name: name@,
                bank_register_range: AddressRange {
                    start: bank_register_address,
                    end: (bank_register_address + NUM_SLOTS - 1) as u16,
                },
                control_register_address,
                write_policy: None,
                reporter: None,
                bank_registers: Seq::new(NUM_SLOTS as nat, |i: int| 0u8),
                control_register: 0,
                data: Seq::empty(),
            }),
            d.wf(),
    {
        let d = Finch {
            name,
            bank_register_range: AddressRange::new(
                bank_register_address,
                bank_register_address + (NUM_SLOTS - 1) as u16,
            ),
            control_register_address,
            write_policy: None,
            error_reporter: None,
            bank_registers: [0;NUM_SLOTS],
            control_register: 0,
            data: Vec::new(),
        };
        assert(d@.bank_registers =~= Seq::new(NUM_SLOTS as nat, |i: int| 0u8));
        d
    }

    /// Constructs a new `Finch` device whose memory is loaded with the given data.
    ///
    /// - `bank_register_address` - base address for the sixteen bank registers
    /// - `control_register_address` - address for the control register
    /// - `data` - data to load into memory, as long as the memory (1024K)
    pub fn with_data(
        name: &'static str,
        bank_register_address: u16,
        control_register_address: u16,
        data: Vec<u8>,
    ) -> (d: Self)
        requires
            bank_register_address + NUM_SLOTS - 1 <= u16::MAX,
            data@.len() == MEMORY_SIZE,
        ensures
            d@ == (FinchView {
                name: name@,
                bank_register_range: AddressRange {
                    start: bank_register_address,
                    end: (bank_register_address + NUM_SLOTS - 1) as u16,
                },
                control_register_address,
                write_policy: None,
                reporter: None,
                bank_registers: Seq::new(NUM_SLOTS as nat, |i: int| 0u8),
                control_register: 0,
                data: data@,
            }),
            d.wf(),
    {
        let mut device = Finch::new(name, bank_register_address, control_register_address);
        device.data = data;
        device
    }

    /// Sets the ROM write policy.
    pub fn set_write_policy(&mut self, write_policy: RomWritePolicy)
        ensures
            final(self)@ == (FinchView { write_policy: Some(write_policy), ..old(self)@ }),
            old(self).wf() ==> final(self).wf(),
    {
        self.write_policy = Some(write_policy);
    }

    /// Sets the error sender for event reporting.
    pub fn set_error_sender(&mut self, sender: ErrorSender, id: DeviceId)
        ensures
            final(self)@ == (FinchView { reporter: Some(ReporterView::fresh(sender, id)), ..old(self)@ }),
            old(self).wf() ==> final(self).wf(),
    {
        self.error_reporter = Some(ErrorReporter::new(sender, id));
    }

    fn mmu_enabled(&self) -> (enabled: bool)
        ensures
            enabled == self@.mmu_on(),
    {
        self.control_register >= MMUE_MASK
    }

    /// The place in memory that `address` is mapped to.
    pub fn effective_address(&self, address: u16) -> (effective: usize)
        ensures
            effective == self@.effective(address),
            effective < MEMORY_SIZE,
    {
        let slot: usize = address as usize / BANK_SIZE;
        let bank: usize = if self.mmu_enabled() {
            self.bank_registers[slot] as usize
        } else if slot < NUM_SLOTS / 2 {
            slot
        } else {
            slot - NUM_SLOTS / 2 + NUM_BANKS / 2
        };
        bank * BANK_SIZE + address as usize % BANK_SIZE
    }

    fn store(&mut self, address: u16, value: u8)
        requires
            old(self).wf(),
            old(self).mapped_at(address),
        ensures
            final(self)@ == old(self)@.stored(address, value),
    {
        if address == self.control_register_address {
            self.control_register = value;
        } else if self.bank_register_range.contains(address) {
            let at: usize = (address - self.bank_register_range.start) as usize;
            self.bank_registers[at] = value;
        } else {
            let at: usize = self.effective_address(address);
            self.data[at] = value;
        }
    }

    /// The line with which a host logs a reset of this device: its name and the contents of its control register.
    pub fn reset_line(&self) -> (line: String)
        ensures
            line@ == device::reset_line_text(
                self@.name,
                "0x"@ + crate::text::hex4(self@.control_register as nat),
            ),
    {
        device::make_reset_line(self.name, self.control_register as u16)
    }
}

impl IoDevice for Finch {
    open spec fn wf(&self) -> bool {
        self@.wf()
    }

    open spec fn mapped_at(&self, address: u16) -> bool {
        self@.is_register(address) || self.data@.len() == MEMORY_SIZE
    }

    open spec fn writable_at(&self, address: u16) -> bool {
        self.mapped_at(address) || self@.in_rom(address)
    }

    open spec fn can_tick(&self, cycles: u32) -> bool {
        true
    }

    open spec fn written(before: Self, after: Self, address: u16, value: u8) -> bool {
        after@ == before@.after_write(address, value)
    }

    fn read(&mut self, address: u16) -> (value: u8)
        ensures
            value == old(self)@.value_at(address),
            final(self)@ == old(self)@,
    {
        self.peek(address)
    }

    fn write(&mut self, address: u16, value: u8)
        ensures
            final(self)@ == old(self)@.after_write(address, value),
    {
        let is_register = address == self.control_register_address
            || self.bank_register_range.contains(address);
        if is_register || self.effective_address(address) < ROM_START {
            self.store(address, value);
        } else if let Some(write_policy) = self.write_policy {
            match write_policy {
                RomWritePolicy::Ignore => {},
                RomWritePolicy::Error => {
                    report_rejected_write(address, &mut self.error_reporter);
                },
            }
        }
    }

    fn peek(&self, address: u16) -> (value: u8)
        ensures
            value == self@.value_at(address),
    {
        if address == self.control_register_address {
            self.control_register
        } else if self.bank_register_range.contains(address) {
            self.bank_registers[(address - self.bank_register_range.start) as usize]
        } else {
            self.data[self.effective_address(address)]
        }
    }

    fn patch(&mut self, address: u16, value: u8)
        ensures
            final(self)@ == old(self)@.patched(address, value),
    {
        let is_register = address == self.control_register_address
            || self.bank_register_range.contains(address);
        if !is_register && self.data.len() == 0 {
            self.write(address, value);
        } else {
            self.store(address, value);
        }
    }

    fn claims(&self, addr: u16) -> (claimed: bool)
        ensures
            claimed,
    {
        true
    }

    fn reset(&mut self)
        ensures
            final(self)@ == old(self)@.after_reset(),
    {
        self.control_register = self.control_register % 128;
    }

    fn name(&self) -> (name: &str)
        ensures
            name@ == self.name@,
    {
        self.name
    }

    fn identity_address(&self) -> (address: u16)
        ensures
            address == self.control_register_address,
    {
        self.control_register_address
    }
}

/// Every address is mapped to a place within memory.
pub proof fn effective_address_is_in_memory(d: FinchView, address: u16)
    requires
        d.wf(),
    ensures
        0 <= d.effective(address) < MEMORY_SIZE,
{
}

/// With the MMU disabled the lower half of the address space is RAM and the upper half is ROM.
pub proof fn fixed_mapping_halves_memory(d: FinchView, address: u16)
    requires
        !d.mmu_on(),
    ensures
        address < 0x8000 ==> d.effective(address) == address,
        address >= 0x8000 ==> d.effective(address) == address - 0x8000 + ROM_START,
{
}

/// What is written outside ROM is read back at once, and a patch is read back everywhere. Writing
/// the control register may change what the other addresses show.
pub proof fn write_reads_back(d: FinchView, address: u16, value: u8)
    requires
        d.wf(),
        d.is_register(address) || d.data.len() == MEMORY_SIZE,
    ensures
        !d.in_rom(address) ==> d.after_write(address, value).value_at(address) == value,
        d.patched(address, value).value_at(address) == value,
{
    effective_address_is_in_memory(d, address);
}

/// Writing never changes ROM.
pub proof fn rom_is_read_only(d: FinchView, address: u16, value: u8, at: int)
    requires
        d.wf(),
        d.data.len() == MEMORY_SIZE,
        ROM_START <= at < MEMORY_SIZE,
    ensures
        d.after_write(address, value).data[at] == d.data[at],
{
    effective_address_is_in_memory(d, address);
}

/// Two slots whose bank registers hold the same bank show the same memory.
pub proof fn banks_may_be_shared(d: FinchView, a: u16, b: u16, value: u8)
    requires
        d.wf(),
        d.data.len() == MEMORY_SIZE,
        d.bank(a as int / 4096) == d.bank(b as int / 4096),
        a % 4096 == b % 4096,
        !d.is_register(a),
        !d.is_register(b),
        !d.in_rom(a),
    ensures
        d.after_write(a, value).value_at(b) == value,
{
    effective_address_is_in_memory(d, a);
    assert(d.after_write(a, value).effective(b) == d.effective(a));
}

/// A reset disables the MMU, and keeps the bank registers and the memory.
pub proof fn reset_disables_mmu(d: FinchView)
    ensures
        !d.after_reset().mmu_on(),
        d.after_reset().bank_registers == d.bank_registers,
        d.after_reset().data == d.data,
{
}

/// The MMU is on exactly if bit 7 of the control register is set. Then the four high-order bits of an
/// address select a bank register, which holds the bank; off, banks 0 to 7 are in the lower half and
/// banks 128 to 135 in the upper half. The twelve low-order bits are the place in the bank.
pub proof fn banks_are_mapped(d: FinchView, address: u16)
    requires
        d.wf(),
    ensures
        d.mmu_on() <==> d.control_register & 0x80 != 0,
        ({
            let slot = address >> 12;
            let place = address & 0xFFF;
            &&& d.mmu_on() ==> d.effective(address) == 4096 * d.bank_registers[slot as int] + place
            &&& !d.mmu_on() && slot < 8 ==> d.effective(address) == 4096 * slot + place
            &&& !d.mmu_on() && slot >= 8 ==> d.effective(address) == 4096 * (120 + slot) + place
        }),
{
    crate::bytes::bits_by_division(d.control_register);
    assert(address >> 12 == address / 4096 && address & 0xFFF == address % 4096) by (bit_vector);
}

/// What each address shows and takes: the control register, the sixteen bank registers in order, and
/// memory at all others. The upper 512K of memory is ROM.
pub proof fn memory_map(d: FinchView, address: u16, value: u8, i: int)
    requires
        d.wf(),
        0 <= i < 16,
    ensures
        d.value_at(d.control_register_address) == d.control_register,
        d.after_write(d.control_register_address, value) == (FinchView {
            control_register: value,
            ..d
        }),
        ({
            let at = (d.bank_register_range.start + i) as u16;
            at != d.control_register_address ==> d.value_at(at) == d.bank_registers[i]
                && d.after_write(at, value) == (FinchView {
                bank_registers: d.bank_registers.update(i, value),
                ..d
            })
        }),
        !d.is_register(address) ==> d.value_at(address) == d.data[d.effective(address)],
        !d.is_register(address) ==> (d.in_rom(address) <==> d.effective(address) >= 512 * 1024),
        !d.is_register(address) && !d.in_rom(address) ==> d.after_write(address, value).data
            == d.data.update(d.effective(address), value),
        d.in_rom(address) && d.write_policy != Some(RomWritePolicy::Error) ==> d.after_write(
            address,
            value,
        ) == d,
{
}

/// A rejected write is reported with its address, to the host that asked for reports, where the policy
/// is to report.
pub proof fn rejected_write_is_reported(d: FinchView, address: u16, value: u8)
    requires
        d.in_rom(address),
        d.reporter is Some,
    ensures
        ({
            let before = d.reporter.unwrap();
            let after = d.after_write(address, value).reporter.unwrap();
            &&& d.write_policy == Some(RomWritePolicy::Error) ==> after.sent == before.sent.push(
                crate::device::DeviceEvent::RejectedWrite { device: before.device_id, address },
            )
            &&& d.write_policy != Some(RomWritePolicy::Error) ==> after.sent == before.sent
        }),
{
}

} // verus!
