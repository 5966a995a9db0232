//! What holds of the devices, on concrete values.

use emma65::acia6551::Acia6551;
use emma65::address::{AddressRange, RomWritePolicy};
use emma65::device::{device_event_channel, DeviceEvent, DeviceId, IoDevice};
use emma65::finch::{Finch, MEMORY_SIZE, ROM_START};
use emma65::interrupts::{InterruptController, IrqSource, VectorResolver, IRQ_VECTOR};
use emma65::led_adapter::{LedMatrix, IFR_BLIT, IFR_FILL, IFR_IRQ, IFR_READY};
use emma65::lfsr::{Lfsr16, DEFAULT_STATE};
use emma65::mc6840::Mc6840;
use emma65::mc6850::Mc6850;
use emma65::phoebe::{Phoebe, RAM_SIZE, ROM_SIZE};
use emma65::pic::{irq_mask_for, resolve_vector, write_ier, Pic};
use emma65::r6551::R6551;
use emma65::ring::{Ring, RING_CAPACITY};
use emma65::transport::TransportPort;

#[test]
fn lfsr_visits_every_state_but_zero() {
    let mut device = Lfsr16::new("lfsr");
    let mut seen = vec![false; 65536];
    for _ in 0..65535 {
        assert!(!seen[device.state as usize]);
        seen[device.state as usize] = true;
        device.tick(1);
    }
    assert_eq!(device.state, DEFAULT_STATE);
    assert!(!seen[0]);
}

#[test]
fn lfsr_is_back_after_a_whole_cycle() {
    let mut device = Lfsr16::new("lfsr");
    device.tick(65535);
    assert_eq!(device.state, DEFAULT_STATE);
    device.tick(65534);
    assert_ne!(device.state, DEFAULT_STATE);
}

#[test]
fn lfsr_reads_and_resets() {
    let mut device = Lfsr16::new("lfsr").with_taps(0x8016).with_continuous(false);
    assert_eq!(device.peek(0), 0);
    assert_eq!(device.read(0), 0x66);
    assert_eq!(device.read(1), 0xD6);
    assert_eq!(device.read(2), 0xFF);
    device.tick(5);
    assert_eq!(device.state, 0xD666);
    device.reset();
    assert_eq!(device.state, DEFAULT_STATE);
    assert_eq!(device.peek(1), 0);
}

#[test]
fn ring_holds_one_less_than_its_capacity() {
    let mut ring = Ring::new(0u32);
    for i in 0..RING_CAPACITY as u32 - 1 {
        assert!(ring.put(i));
    }
    assert!(!ring.put(999));
    for i in 0..RING_CAPACITY as u32 - 1 {
        assert_eq!(ring.get(), Some(i));
    }
    assert_eq!(ring.get(), None);
}

#[test]
fn pic_routes_by_priority() {
    let mut interrupts = InterruptController::new();
    interrupts.assert_irq(IrqSource(63));
    interrupts.assert_irq(IrqSource(6));
    interrupts.assert_irq(IrqSource(2));
    assert_eq!(interrupts.active_sources_mask(), (1 << 63) | (1 << 6) | (1 << 2));
    assert_eq!(resolve_vector(0b000_0000, IRQ_VECTOR, &interrupts), 0xFFEE);
    assert_eq!(resolve_vector(0b100_0000, IRQ_VECTOR, &interrupts), 0xFFEC);
    assert_eq!(resolve_vector(0b100_0100, IRQ_VECTOR, &interrupts), 0xFFE4);
    assert_eq!(resolve_vector(0b111_1111, 0xFFFA, &interrupts), 0xFFFA);
    assert_eq!(irq_mask_for(0xFF), u64::MAX);
    assert_eq!(irq_mask_for(0x80), u64::MAX - 0x7F);
    assert_eq!(write_ier(0b0011, 0b1000_0110), 0b0111);
    assert_eq!(write_ier(0b0011, 0b0000_0110), 0b0001);
}

#[test]
fn pic_resolver_follows_a_reset() {
    let mut pic = Pic::new("pic").with_address(0xFFFF);
    let resolver = pic.vector_resolver();
    pic.write(0xFFFF, 0xFF);
    assert_eq!(resolver.irq_mask(), u64::MAX);
    pic.reset();
    assert_eq!(resolver.irq_mask(), u64::MAX - 0x7F);
    assert_eq!(resolver.resolve(0xFFFC, &InterruptController::new()), 0xFFFC);
    assert_eq!(pic.identity(), "pic@0xffff");
}

#[test]
fn finch_patches_rom() {
    let mut device = Finch::with_data("finch", 0xFC00, 0xFFD8, vec![0; MEMORY_SIZE]);
    device.write(0x8000, 1);
    assert_eq!(device.read(0x8000), 0);
    device.patch(0x8000, 2);
    assert_eq!(device.read(0x8000), 2);
    assert_eq!(device.data[ROM_START], 2);
    device.patch(0xFFD8, 0x81);
    assert_eq!(device.read(0xFFD8), 0x81);
}

#[test]
fn finch_banks_may_be_shared() {
    let mut device = Finch::with_data("finch", 0xFC00, 0xFFD8, vec![0; MEMORY_SIZE]);
    device.write(0xFC02, 0x33);
    device.write(0xFC05, 0x33);
    device.write(0xFFD8, 0x80);
    device.write(0x2ABC, 0x77);
    assert_eq!(device.read(0x5ABC), 0x77);
    assert_eq!(device.data[0x33ABC], 0x77);
    device.reset();
    assert_eq!(device.read(0xFFD8), 0);
    assert_eq!(device.read(0xFC05), 0x33);
    assert_eq!(device.read(0x5ABC), 0);
}

#[test]
fn finch_registers_work_without_memory() {
    let mut device = Finch::new("finch", 0xFC00, 0xFFD8);
    device.write(0xFC0F, 0x12);
    assert_eq!(device.read(0xFC0F), 0x12);
    assert!(device.claims(0));
    assert_eq!(device.identity(), "finch@0xffd8");
}

#[test]
fn rom_is_write_protected_without_memory() {
    let (sender, mut receiver) = device_event_channel();
    let mut finch = Finch::new("finch", 0xFC00, 0xFFD8);
    finch.write(0x8000, 1);
    finch.set_write_policy(RomWritePolicy::Error);
    finch.set_error_sender(sender.clone(), DeviceId(3));
    finch.write(0x9000, 1);
    finch.patch(0xA000, 1);
    let mut phoebe = Phoebe::new("phoebe", 0xFFF7);
    phoebe.write(0xE000, 1);
    phoebe.set_write_policy(RomWritePolicy::Error);
    phoebe.set_error_sender(sender, DeviceId(4));
    phoebe.write(0xC000, 1);
    phoebe.patch(0xFFFF, 1);
    for (id, at) in [(3, 0x9000), (3, 0xA000), (4, 0xC000), (4, 0xFFFF)] {
        match receiver.try_recv() {
            Ok(DeviceEvent::RejectedWrite { device, address }) => {
                assert_eq!(device, DeviceId(id));
                assert_eq!(address, at);
            }
            _ => panic!("expected a rejected write"),
        }
    }
    assert!(receiver.try_recv().is_err());
    assert!(finch.data.is_empty());
    assert!(phoebe.rom_data.is_empty());
}

#[test]
fn resets_have_a_line_for_the_log() {
    assert_eq!(Lfsr16::new("lfsr").with_address(0xA0).reset_line(), "lfsr @0x00a0 reset");
    assert_eq!(Mc6840::new("ptm").with_address(0xFFA0).reset_line(), "ptm @0xffa0 reset");
    assert_eq!(Phoebe::new("phoebe", 0xFFF7).reset_line(), "phoebe @0xfff7 reset");
    assert_eq!(R6551::new("acia").with_address(0x1000).reset_line(), "acia @4096 reset");
    let mut finch = Finch::new("finch", 0xFC00, 0xFFD8);
    finch.write(0xFFD8, 0x92);
    finch.reset();
    assert_eq!(finch.reset_line(), "finch @0x0012 reset");
}

#[test]
fn phoebe_patches_rom_and_keeps_two_bits() {
    let mut device = Phoebe::with_data("phoebe", 0xFFF7, vec![0; ROM_SIZE], vec![0; RAM_SIZE]);
    device.patch(0xE000, 0x42);
    assert_eq!(device.read(0xE000), 0x42);
    assert_eq!(device.rom_data[0x6000], 0x42);
    device.write(0xFFF7, 0xFE);
    assert_eq!(device.read(0xFFF7), 2);
    device.patch(0xC001, 0x43);
    assert_eq!(device.rom_data[0x4001], 0x43);
    device.reset();
    assert_eq!(device.read(0xC001), 0);
}

fn serial(mut device: R6551) -> R6551 {
    device.attach_transport(TransportPort::new(0));
    device
}

#[test]
fn r6551_reads_what_arrived_in_order() {
    let mut device = serial(R6551::new("acia"));
    device.write(2, 1);
    device.transport.as_mut().unwrap().inbound.extend([1, 2, 3]);
    let mut read = vec![];
    for _ in 0..3 {
        device.tick(2);
        device.tick(2);
        read.push(device.read(0));
    }
    assert_eq!(read, vec![1, 2, 3]);
}

#[test]
fn r6551_ticks_add_up() {
    let bytes = [9, 8, 7, 6];
    let mut whole = serial(R6551::new("acia").with_overrun(true));
    let mut parts = serial(R6551::new("acia").with_overrun(true));
    for device in [&mut whole, &mut parts] {
        device.write(2, 1);
        device.write(3, 0x1E);
        device.transport.as_mut().unwrap().inbound.extend(bytes);
        device.write(0, 0x55);
    }
    whole.tick(2500);
    for _ in 0..25 {
        parts.tick(100);
    }
    for device in [&whole, &parts] {
        assert_eq!(device.cycles_per_byte, 1041);
        assert_eq!(device.cycle_accum, 418);
        assert_eq!(device.peek(0), 8);
        assert_eq!(device.peek(1), 0x80 + 0x10 + 0x08 + 0x04);
    }
}

#[test]
fn r6551_baud_rates() {
    let expected = [
        0, 200_000, 133_333, 90_909, 74_626, 66_666, 33_333, 16_666, 8_333, 5_555, 4_166, 2_777,
        2_083, 1_388, 1_041, 520,
    ];
    for (select, cycles) in expected.iter().enumerate() {
        assert_eq!(R6551::compute_cycles_per_byte(0x10 + select as u8, 1_000_000), *cycles);
        assert_eq!(Acia6551::compute_cycles_per_byte(0x10 + select as u8), *cycles);
        assert_eq!(R6551::compute_cycles_per_byte(select as u8, 1_000_000), 0);
    }
    assert_eq!(R6551::compute_cycles_per_byte(0x11, 1 << 60), 858_993_459);
}

#[test]
fn r6551_bug_keeps_tdre_set() {
    let mut device = serial(R6551::new("acia"));
    device.write(0, 1);
    let device = device.with_tdre_bug(true);
    assert_eq!(device.peek(1), 0x10);
}

#[test]
fn mc6850_reads_what_arrived_in_order() {
    let mut device = Mc6850::new("acia");
    device.attach_transport(TransportPort::new(0));
    device.transport.as_mut().unwrap().inbound.extend([1, 2]);
    device.tick(1);
    device.transport.as_mut().unwrap().inbound.push_back(3);
    let mut read = vec![];
    for _ in 0..3 {
        read.push(device.read(1));
        device.tick(1);
    }
    assert_eq!(read, vec![1, 2, 3]);
    assert_eq!(device.peek(0), 0x02);
    device.shutdown();
    device.write(1, 0xAA);
    assert!(device.transport.as_ref().unwrap().outbound.is_empty());
}

#[test]
fn led_adapter_flags_and_enables() {
    let mut device = LedMatrix::new("leds", AddressRange::new(0xD000, 0xD007));
    device.ifr = IFR_IRQ | IFR_READY | IFR_BLIT;
    device.write(0xD006, IFR_IRQ | IFR_BLIT | 0x0F);
    assert_eq!(device.read(0xD006), IFR_IRQ | IFR_BLIT);
    assert!(device.irq_active());
    device.write(0xD005, IFR_BLIT);
    assert_eq!(device.read(0xD005), IFR_IRQ | IFR_READY);
    assert!(!device.irq_active());
    device.write(0xD007, 5);
    assert_eq!(device.blit_bytes_remaining, 4096);
    device.ifr = IFR_IRQ | IFR_FILL;
    device.write(0xD007, 6);
    assert_eq!(device.blit_bytes_remaining, 4095);
    assert_eq!(device.ifr, IFR_IRQ | IFR_FILL, "a data byte is no command");
    device.reset();
    assert_eq!(device.blit_bytes_remaining, 0);
    assert!(device.claims(0xD007));
    assert!(!device.claims(0xD008));
    assert_eq!(device.read(0xD008), 0xFF);
}
