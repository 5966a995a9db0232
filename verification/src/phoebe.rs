//! A bank-switched memory module (designed for the Phoebe SBC).
//!
//! This device provides 56K RAM and 32K ROM. The ROM is bank-switched into a 16K region in the
//! address space (at `0xC000`), in banks of 8K that are numbered from 0 to 3. Bank 3 is mapped to
//! the upper half of the region and cannot be switched out. The lower half of the region can be
//! mapped to any one of the other three banks, or to the 8K RAM that shares the same region.
//!
//! An 8-bit control register, mapped at an arbitrary address, makes the selection. Only its two
//! low-order bits are significant; the others are ignored on write and always read as zero. The
//! register is zero after a reset.
//!
//! | Bit 1 | Bit 0 | Selection       |
//! |-------|-------|-----------------|
//! |   0   |   0   | ROM Bank 0      |
//! |   0   |   1   | ROM Bank 1      |
//! |   1   |   0   | ROM Bank 2      |
//! |   1   |   1   | RAM             |

use crate::address::{AddressRange, RomWritePolicy};
use crate::device;
use crate::device::{DeviceId, ErrorSender, IoDevice};
use crate::error_reporter;
use crate::error_reporter::{report_rejected_write, ErrorReporter, ReporterView};
use vstd::prelude::*;

verus! {

pub const NUM_BANKS: u8 = 4;

pub const BANK_SIZE: usize = 8192;

pub const SELECTION_MASK: u8 = 0b00000011;

pub const ROM_START: u16 = 0xC000;

pub const ROM_END: u16 = 0xFFFF;

pub const WINDOW_END: u16 = 0xDFFF;

/// Total size of ROM in the module.
pub const ROM_SIZE: usize = 4 * BANK_SIZE;

/// Total size of RAM in the module.
pub const RAM_SIZE: usize = 64 * 1024 - BANK_SIZE;

/// A bank-switched ROM (designed for the Phoebe SBC).
pub struct Phoebe {
    /// Name of the device as it appears in configuration and CLI.
    pub name: &'static str,
    /// Address to which the bank selection register is mapped.
    pub control_register_address: u16,
    /// Write policy to apply for attempted write operations.
    pub write_policy: Option<RomWritePolicy>,
    /// Destination for error events.
    pub error_reporter: Option<ErrorReporter>,
    /// Address region that corresponds to ROM.
    pub rom_range: AddressRange,
    /// Address region that corresponds to the bank-switching window.
    pub window_range: AddressRange,
    /// Contents of the bank selection register (only bits 1..0 are significant).
    pub selected_bank: u8,
    /// ROM storage.
    pub rom_data: Vec<u8>,
    /// RAM storage.
    pub ram_data: Vec<u8>,
}

/// A Phoebe, seen through its reporter and its memory.
#[verifier::ext_equal]
pub ghost struct PhoebeView {
    pub name: Seq<char>,
    pub control_register_address: u16,
    pub write_policy: Option<RomWritePolicy>,
    pub reporter: Option<ReporterView>,
    pub rom_range: AddressRange,
    pub window_range: AddressRange,
    pub selected_bank: u8,
    pub rom_data: Seq<u8>,
    pub ram_data: Seq<u8>,
}

impl View for Phoebe {
    type V = PhoebeView;

    open spec fn view(&self) -> PhoebeView {
        PhoebeView {
            name: self.name@,
            control_register_address: self.control_register_address,
            write_policy: self.write_policy,
            reporter: error_reporter::view_of(self.error_reporter),
            rom_range: self.rom_range,
            window_range: self.window_range,
            selected_bank: self.selected_bank,
            rom_data: self.rom_data@,
            ram_data: self.ram_data@,
        }
    }
}

impl PhoebeView {
    /// A device with the given memory, as it is after a reset.
    pub open spec fn fresh(
        name: Seq<char>,
        control_register_address: u16,
        rom_data: Seq<u8>,
        ram_data: Seq<u8>,
    ) -> Self {
        PhoebeView {
            name,
            control_register_address,
            write_policy: None,
            reporter: None,
            rom_range: AddressRange { start: ROM_START, end: ROM_END },
            window_range: AddressRange { start: ROM_START, end: WINDOW_END },
            selected_bank: 0,
            rom_data,
            ram_data,
        }
    }

    /// The regions are where they belong, the selection has two bits, and memory is loaded whole or
    /// not at all.
    pub open spec fn wf(self) -> bool {
        &&& self.rom_range == (AddressRange { start: ROM_START, end: ROM_END })
        &&& self.window_range == (AddressRange { start: ROM_START, end: WINDOW_END })
        &&& self.selected_bank < NUM_BANKS
        &&& self.loaded() || self.rom_data.len() == 0 && self.ram_data.len() == 0
    }

    /// Whether memory is loaded.
    pub open spec fn loaded(self) -> bool {
        self.rom_data.len() == ROM_SIZE && self.ram_data.len() == RAM_SIZE
    }

    /// Whether `address` is mapped to ROM.
    pub open spec fn in_rom(self, address: u16) -> bool {
        address > WINDOW_END || address >= ROM_START && self.selected_bank < NUM_BANKS - 1
    }

    /// The place in ROM or in RAM that `address` is mapped to.
    pub open spec fn effective(self, address: u16) -> int {
        if address > WINDOW_END {
            3 * BANK_SIZE + (address - (ROM_START + BANK_SIZE))
        } else if self.in_rom(address) {
            self.selected_bank * BANK_SIZE + (address - ROM_START)
        } else {
            address as int
        }
    }

    /// What a read or a peek at `address` shows.
    pub open spec fn value_at(self, address: u16) -> u8 {
        if address == self.control_register_address {
            self.selected_bank
        } else if self.in_rom(address) {
            self.rom_data[self.effective(address)]
        } else {
            self.ram_data[self.effective(address)]
        }
    }

    /// The device after `value` was written to the control register.
    pub open spec fn selected(self, value: u8) -> Self {
        PhoebeView { selected_bank: (value % 4) as u8, ..self }
    }

    /// The device after `value` was stored at `address`, wherever that is.
    pub open spec fn stored(self, address: u16, value: u8) -> Self {
        if address == self.control_register_address {
            self.selected(value)
        } else if self.in_rom(address) {
            PhoebeView { rom_data: self.rom_data.update(self.effective(address), value), ..self }
        } else {
            PhoebeView { ram_data: self.ram_data.update(self.effective(address), value), ..self }
        }
    }

    /// The device after a write at `address`: one to ROM is dropped, and is reported where the
    /// policy says so.
    pub open spec fn after_write(self, address: u16, value: u8) -> Self {
        if address == self.control_register_address || !self.in_rom(address) {
            self.stored(address, value)
        } else if self.write_policy == Some(RomWritePolicy::Error) {
            PhoebeView {
                reporter: error_reporter::after_rejected(self.reporter, address),
                ..self
            }
        } else {
            self
        }
    }

    /// The device after a patch at `address`, which reaches ROM too. Where there is no memory to
    /// store it in, it is a write.
    pub open spec fn patched(self, address: u16, value: u8) -> Self {
        if self.loaded() {
            self.stored(address, value)
        } else {
            self.after_write(address, value)
        }
    }
}

impl Phoebe {
    /// Constructs a new `Phoebe` device mapped to the given register address, with no memory loaded.
    pub fn new(name: &'static str, control_register_address: u16) -> (d: Self)
        ensures
            d@ == PhoebeView::fresh(
                name@,
                control_register_address,
                Seq::empty(),
                Seq::empty(),
            ),
            d.wf(),
    {
        Phoebe {
            name,
            control_register_address,
            write_policy: None,
            error_reporter: None,
            rom_range: AddressRange::new(ROM_START, ROM_END),
            window_range: AddressRange::new(ROM_START, WINDOW_END),
            selected_bank: 0,
            rom_data: Vec::new(),
            ram_data: Vec::new(),
        }
    }

    /// Constructs a new `Phoebe` device whose memory is loaded with the given data.
    ///
    /// - `control_register_address` - address for the control register
    /// - `rom_data` - data to load into ROM, as long as the ROM
    /// - `ram_data` - data to load into RAM, as long as the RAM
    pub fn with_data(
        name: &'static str,
        control_register_address: u16,
        rom_data: Vec<u8>,
        ram_data: Vec<u8>,
    ) -> (d: Self)
        requires
            rom_data@.len() == ROM_SIZE,
            ram_data@.len() == RAM_SIZE,
        ensures
            d@ == PhoebeView::fresh(name@, control_register_address, rom_data@, ram_data@),
            d.wf(),
    {
        let mut device = Phoebe::new(name, control_register_address);
        device.rom_data = rom_data;
        device.ram_data = ram_data;
        device
    }

    /// Sets the write policy.
    pub fn set_write_policy(&mut self, write_policy: RomWritePolicy)
        ensures
            final(self)@ == (PhoebeView { write_policy: Some(write_policy), ..old(self)@ }),
            old(self).wf() ==> final(self).wf(),
    {
        self.write_policy = Some(write_policy);
    }

    /// Sets the error sender for event reporting.
    pub fn set_error_sender(&mut self, sender: ErrorSender, id: DeviceId)
        ensures
            final(self)@ == (PhoebeView { reporter: Some(ReporterView::fresh(sender, id)), ..old(self)@ }),
            old(self).wf() ==> final(self).wf(),
    {
        self.error_reporter = Some(ErrorReporter::new(sender, id));
    }

    /// The control register.
    pub fn control_register(&self) -> (value: u8)
        ensures
            value == self@.selected_bank,
    {
        self.selected_bank
    }

    /// Writes the control register, of which only the two low-order bits are significant.
    pub fn set_control_register(&mut self, value: u8)
        ensures
            final(self)@ == old(self)@.selected(value),
            old(self).wf() ==> final(self).wf(),
    {
        self.selected_bank = value % 4;
    }

    /// Whether `address` is mapped to ROM, and the place in ROM or in RAM that it is mapped to.
    pub fn effective_address(&self, address: u16) -> (place: (bool, usize))
        requires
            self.wf(),
        ensures
            place.0 == self@.in_rom(address),
            place.1 == self@.effective(address),
            place.1 < if place.0 {
                ROM_SIZE
            } else {
                RAM_SIZE
            },
    {
        if self.rom_range.contains(address) {
            if self.window_range.contains(address) {
                if self.selected_bank < NUM_BANKS - 1 {
                    let offset: usize = BANK_SIZE * self.selected_bank as usize;
                    (true, offset + (address - ROM_START) as usize)
                } else {
                    (false, address as usize)
                }
            } else {
                let offset: usize = (NUM_BANKS - 1) as usize * BANK_SIZE;
                (true, offset + (address as usize - (ROM_START as usize + BANK_SIZE)))
            }
        } else {
            (false, address as usize)
        }
    }

    /// The line with which a host logs a reset of this device: its name and the address of its control register.
    pub fn reset_line(&self) -> (line: String)
        ensures
            line@ == device::reset_line_text(
                self@.name,
                "0x"@ + crate::text::hex4(self@.control_register_address as nat),
            ),
    {
        device::make_reset_line(self.name, self.control_register_address)
    }
}

impl IoDevice for Phoebe {
    open spec fn wf(&self) -> bool {
        self@.wf()
    }

    open spec fn mapped_at(&self, address: u16) -> bool {
        address == self.control_register_address || self@.loaded()
    }

    open spec fn writable_at(&self, address: u16) -> bool {
        self.mapped_at(address) || self@.in_rom(address)
    }

    open spec fn can_tick(&self, cycles: u32) -> bool {
        true
    }

    open spec fn written(before: Self, after: Self, address: u16, value: u8) -> bool {
        after@ == before@.after_write(address, value)
    }

    fn read(&mut self, address: u16) -> (value: u8)
        ensures
            value == old(self)@.value_at(address),
            final(self)@ == old(self)@,
    {
        self.peek(address)
    }

    fn write(&mut self, address: u16, value: u8)
        ensures
            final(self)@ == old(self)@.after_write(address, value),
    {
        if address == self.control_register_address {
            self.set_control_register(value);
        } else {
            let (is_rom, effective_address): (bool, usize) = self.effective_address(address);
            if !is_rom {
                self.ram_data[effective_address] = value;
            } else if let Some(write_policy) = self.write_policy {
                match write_policy {
                    RomWritePolicy::Ignore => {},
                    RomWritePolicy::Error => {
                        report_rejected_write(address, &mut self.error_reporter);
                    },
                }
            }
        }
    }

    fn peek(&self, address: u16) -> (value: u8)
        ensures
            value == self@.value_at(address),
    {
        if address == self.control_register_address {
            self.control_register()
        } else {
            let (is_rom, effective_address): (bool, usize) = self.effective_address(address);
            if is_rom {
                self.rom_data[effective_address]
            } else {
                self.ram_data[effective_address]
            }
        }
    }

    fn patch(&mut self, address: u16, value: u8)
        ensures
            final(self)@ == old(self)@.patched(address, value),
    {
        if address == self.control_register_address || self.rom_data.len() == 0 {
            self.write(address, value);
        } else {
            let (is_rom, effective_address): (bool, usize) = self.effective_address(address);
            if is_rom {
                self.rom_data[effective_address] = value;
            } else {
                self.ram_data[effective_address] = value;
            }
        }
    }

    fn claims(&self, addr: u16) -> (claimed: bool)
        ensures
            claimed,
    {
        true
    }

    fn reset(&mut self)
        ensures
            final(self)@ == old(self)@.selected(0),
    {
        self.set_control_register(0);
    }

    fn name(&self) -> (name: &str)
        ensures
            name@ == self.name@,
    {
        self.name
    }

    fn identity_address(&self) -> (address: u16)
        ensures
            address == self.control_register_address,
    {
        self.control_register_address
    }
}

/// Every address is mapped to a place within ROM or within RAM.
pub proof fn effective_address_is_in_memory(d: PhoebeView, address: u16)
    requires
        d.wf(),
    ensures
        0 <= d.effective(address) < if d.in_rom(address) {
            ROM_SIZE
        } else {
            RAM_SIZE
        },
{
}

/// What is written to RAM is read back at once, as a patch is everywhere; of the control register
/// only the two low-order bits are.
pub proof fn write_reads_back(d: PhoebeView, address: u16, value: u8)
    requires
        d.wf(),
        address == d.control_register_address || d.loaded(),
    ensures
        address == d.control_register_address ==> d.after_write(address, value).value_at(address)
            == value % 4,
        address != d.control_register_address ==> {
            &&& !d.in_rom(address) ==> d.after_write(address, value).value_at(address) == value
            &&& d.patched(address, value).value_at(address) == value
        },
{
    effective_address_is_in_memory(d, address);
}

/// Writing never changes ROM.
pub proof fn rom_is_read_only(d: PhoebeView, address: u16, value: u8)
    ensures
        d.after_write(address, value).rom_data == d.rom_data,
{
}

/// The upper half of the switchable region is the last bank, whatever is selected.
pub proof fn last_bank_is_fixed(d: PhoebeView, value: u8, address: u16)
    requires
        address > WINDOW_END,
    ensures
        d.selected(value).in_rom(address),
        d.selected(value).effective(address) == address - 0xE000 + 0x6000,
{
}

/// The window from `0xC000` to `0xDFFF` shows the 8K ROM bank that the two low-order bits of the
/// control register select, or RAM if both are set. What is above it is the last bank, what is below
/// it is RAM.
pub proof fn window_shows_selected_bank(d: PhoebeView, value: u8, address: u16)
    requires
        d.wf(),
        d.loaded(),
        address != d.control_register_address,
    ensures
        ({
            let after = d.after_write(d.control_register_address, value);
            let bank = value & 0x03;
            &&& address < 0xC000 ==> after.value_at(address) == d.ram_data[address as int]
            &&& 0xC000 <= address < 0xE000 && bank != 3 ==> after.value_at(address)
                == d.rom_data[0x2000 * bank + (address - 0xC000)]
            &&& 0xC000 <= address < 0xE000 && bank == 3 ==> after.value_at(address)
                == d.ram_data[address as int]
            &&& 0xE000 <= address ==> after.value_at(address) == d.rom_data[0x6000 + (address
                - 0xE000)]
            &&& after.value_at(d.control_register_address) == bank
        }),
{
    crate::bytes::masks_by_division(value);
}

/// A write changes RAM where RAM is shown, and nothing where ROM is; there it is reported with its
/// address if the policy is to report.
pub proof fn writes_reach_ram_only(d: PhoebeView, address: u16, value: u8)
    requires
        d.wf(),
        d.loaded(),
        address != d.control_register_address,
    ensures
        ({
            let after = d.after_write(address, value);
            let rom = address >= 0xE000 || address >= 0xC000 && d.selected_bank != 3;
            &&& !rom ==> after == (PhoebeView {
                ram_data: d.ram_data.update(address as int, value),
                ..d
            })
            &&& rom ==> after == (PhoebeView { reporter: after.reporter, ..d })
            &&& rom && d.reporter is Some && d.write_policy == Some(RomWritePolicy::Error)
                ==> after.reporter.unwrap().sent == d.reporter.unwrap().sent.push(
                crate::device::DeviceEvent::RejectedWrite {
                    device: d.reporter.unwrap().device_id,
                    address,
                },
            )
            &&& rom && d.write_policy != Some(RomWritePolicy::Error) ==> after == d
        }),
{
}

} // verus!
