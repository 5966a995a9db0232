use emma65::device::IoDevice;
use emma65::interrupts::{InterruptController, IrqSource, VectorResolver, IRQ_VECTOR};
use emma65::pic::{Pic, FOLD_SLOT, VECTOR_TABLE_BASE};

const IER_ADDR: u16 = 0xFFFF;

fn pic() -> Pic {
    Pic::new("pic").with_address(IER_ADDR)
}

fn with_active(sources: &[u32]) -> InterruptController {
    let mut ctrl = InterruptController::new();
    for &s in sources {
        ctrl.assert_irq(IrqSource(s));
    }
    ctrl
}

// --- IER register ---

#[test]
fn new_ier_reads_with_bit7_set_and_all_slots_disabled() {
    assert_eq!(pic().peek(IER_ADDR), 0x80);
}

#[test]
fn write_with_bit7_set_enables_selected_slots() {
    let mut dev = pic();
    dev.write(IER_ADDR, 0x85); // select slots 0, 2; enable
    assert_eq!(dev.peek(IER_ADDR), 0x85);
}

#[test]
fn write_with_bit7_clear_disables_selected_slots() {
    let mut dev = pic();
    dev.write(IER_ADDR, 0xFF); // enable all
    dev.write(IER_ADDR, 0x05); // select slots 0, 2; disable
    assert_eq!(dev.peek(IER_ADDR), 0x80 | (0x7F & !0x05));
}

#[test]
fn write_leaves_unselected_slots_unchanged() {
    let mut dev = pic();
    dev.write(IER_ADDR, 0x81); // enable slot 0
    dev.write(IER_ADDR, 0x84); // enable slot 2, slot 0 untouched
    assert_eq!(dev.peek(IER_ADDR), 0x80 | 0x05);
}

#[test]
fn reset_disables_all_slots() {
    let mut dev = pic();
    dev.write(IER_ADDR, 0xFF);
    dev.reset();
    assert_eq!(dev.peek(IER_ADDR), 0x80);
}

// --- irq_mask ---

#[test]
fn irq_mask_reflects_enabled_low_slots() {
    let mut dev = pic();
    dev.write(IER_ADDR, 0x85); // enable slots 0, 2
    assert_eq!(dev.irq_mask() & 0x7F, 0x05);
}

#[test]
fn irq_mask_always_recognizes_high_sources() {
    let dev = pic(); // all low slots disabled
    assert_eq!(dev.irq_mask() & !0x7Fu64, !0x7Fu64);
}

// --- resolve ---

#[test]
fn resolve_passes_through_reset_and_nmi_vectors() {
    let dev = pic();
    let ctrl = InterruptController::new();
    assert_eq!(dev.resolve(0xFFFC, &ctrl), 0xFFFC);
    assert_eq!(dev.resolve(0xFFFA, &ctrl), 0xFFFA);
}

#[test]
fn resolve_routes_enabled_low_source_to_its_own_slot() {
    let mut dev = pic();
    dev.write(IER_ADDR, 0x80 | (1 << 3)); // enable slot 3
    let ctrl = with_active(&[3]);
    assert_eq!(dev.resolve(IRQ_VECTOR, &ctrl), VECTOR_TABLE_BASE + 3 * 2);
}

#[test]
fn resolve_picks_highest_priority_among_enabled_active_low_sources() {
    let mut dev = pic();
    dev.write(IER_ADDR, 0xFF); // enable all low slots
    let ctrl = with_active(&[5, 1, 3]);
    assert_eq!(dev.resolve(IRQ_VECTOR, &ctrl), VECTOR_TABLE_BASE + 2);
}

#[test]
fn resolve_routes_high_source_to_fold_slot() {
    let dev = pic();
    let ctrl = with_active(&[40]);
    assert_eq!(dev.resolve(IRQ_VECTOR, &ctrl), VECTOR_TABLE_BASE + FOLD_SLOT * 2);
}

#[test]
fn resolve_prefers_enabled_low_source_over_high_source() {
    let mut dev = pic();
    dev.write(IER_ADDR, 0x80 | (1 << 4)); // enable slot 4
    let ctrl = with_active(&[40, 4]);
    assert_eq!(dev.resolve(IRQ_VECTOR, &ctrl), VECTOR_TABLE_BASE + 4 * 2);
}

#[test]
fn resolve_ignores_disabled_low_source_even_if_active() {
    let dev = pic();
    // slot 2 never enabled; only a high source is active alongside it
    let ctrl = with_active(&[2, 40]);
    assert_eq!(dev.resolve(IRQ_VECTOR, &ctrl), VECTOR_TABLE_BASE + FOLD_SLOT * 2);
}

// --- vector_resolver ---

#[test]
fn vector_resolver_sees_ier_writes_made_through_the_device() {
    let mut dev = pic();
    let resolver = dev.vector_resolver();
    dev.write(IER_ADDR, 0x80 | (1 << 5)); // enable slot 5
    let ctrl = with_active(&[5]);
    assert_eq!(resolver.resolve(IRQ_VECTOR, &ctrl), VECTOR_TABLE_BASE + 5 * 2);
}

#[test]
fn vector_resolver_irq_mask_tracks_device_state() {
    let mut dev = pic();
    let resolver = dev.vector_resolver();
    dev.write(IER_ADDR, 0x80 | (1 << 6)); // enable slot 6
    assert_eq!(resolver.irq_mask() & 0x7F, 1 << 6);
}
