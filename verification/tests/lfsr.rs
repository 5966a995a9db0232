use emma65::device::IoDevice;
use emma65::lfsr::Lfsr16;

const BASE: u16 = 0xD000;

fn step_device() -> Lfsr16 {
    Lfsr16::new("lfsr").with_address(BASE).with_continuous(false)
}

fn continuous_device() -> Lfsr16 {
    Lfsr16::new("lfsr").with_address(BASE).with_continuous(true)
}

fn seed(dev: &mut Lfsr16, value: u16) {
    dev.write(BASE, (value & 0xFF) as u8);
    dev.write(BASE + 1, (value >> 8) as u8);
}

fn read16(dev: &mut Lfsr16) -> u16 {
    let lo = dev.read(BASE) as u16;
    let hi = dev.read(BASE + 1) as u16;
    lo | (hi << 8)
}

/// Galois LFSR step with taps 0xB400, seed 0x0001 produces:
/// 0xB400, 0x5A00, 0x2D00, 0x1680, 0x0B40
#[test]
fn seed_test_known_sequence() {
    let mut dev = step_device();
    seed(&mut dev, 0x0001);
    assert_eq!(read16(&mut dev), 0xB400);
    assert_eq!(read16(&mut dev), 0x5A00);
    assert_eq!(read16(&mut dev), 0x2D00);
    assert_eq!(read16(&mut dev), 0x1680);
    assert_eq!(read16(&mut dev), 0x0B40);
}

/// In continuous mode tick() advances the LFSR; reads only latch, never advance.
#[test]
fn continuous_mode_tick_drives_advance() {
    let mut dev = continuous_device();
    seed(&mut dev, 0x0001);
    // 1 tick = 1 advance → state should be 0xB400
    dev.tick(1);
    assert_eq!(read16(&mut dev), 0xB400);
    // A second read should return the same latched value (no advance on read)
    assert_eq!(read16(&mut dev), 0xB400);
    // 2 more ticks → 0x5A00 → 0x2D00
    dev.tick(2);
    assert_eq!(read16(&mut dev), 0x2D00);
}

/// A zero seed is clamped to 0x0001 so the LFSR never gets stuck.
#[test]
fn stuck_zero_guard() {
    let mut dev = step_device();
    seed(&mut dev, 0x0000);
    // State must have been clamped to 0x0001; first advance → 0xB400
    assert_eq!(read16(&mut dev), 0xB400);
}

/// Multiple reads of the HIGH register return the same latched value until the
/// next LOW read.
#[test]
fn high_byte_latch_stable() {
    let mut dev = step_device();
    seed(&mut dev, 0x0001);
    let lo = dev.read(BASE);        // advance → 0xB400, latch it
    let hi1 = dev.read(BASE + 1);  // return latched high
    let hi2 = dev.read(BASE + 1);  // still latched high — no advance
    let hi3 = dev.read(BASE + 1);
    assert_eq!(lo, 0x00);
    assert_eq!(hi1, 0xB4);
    assert_eq!(hi2, 0xB4);
    assert_eq!(hi3, 0xB4);
}

/// In step mode, only LOW reads advance; HIGH reads do not.
#[test]
fn step_mode_only_low_advances() {
    let mut dev = step_device();
    seed(&mut dev, 0x0001);
    // First LOW read: advance to 0xB400
    assert_eq!(dev.read(BASE), 0x00);
    // Several HIGH reads: no advance
    for _ in 0..5 {
        dev.read(BASE + 1);
    }
    // Next LOW read: advance to 0x5A00
    assert_eq!(dev.read(BASE), 0x00);
    assert_eq!(dev.read(BASE + 1), 0x5A);
}
