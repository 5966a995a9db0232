use emma65::device::IoDevice;
use emma65::mc6840::{
    CompareStatus,
    Mc6840,
    Prescaler,
    Synchronizer,
    Timer,
    CTRL_CR1_ENABLE,
    CTRL_INTERNAL_RESET,
    CTRL_IRQ_ENABLE,
    CTRL_MODE_COMPARE,
    CTRL_MODE_DEFERRED_INIT,
    CTRL_MODE_GREATER,
    CTRL_MODE_MASK,
    CTRL_MODE_PULSE_WIDTH,
    CTRL_MODE_SINGLE_SHOT,
    CTRL_T3_PRESCALE,
    IRQ_COMPOSITE,
    T1,
    T2,
    T3,
};

const IRQ_TIMER_1: u8   = 0b00000001;
const IRQ_TIMER_2: u8   = 0b00000010;
const IRQ_TIMER_3: u8   = 0b00000100;
const CTRL_MODE_GENERATE: u8 = 0;
const CTRL_MODE_CONTINUOUS: u8 = 0;
const CTRL_MODE_FREQUENCY: u8 = 0;
const CTRL_MODE_IMMEDIATE_INIT: u8 = 0;
const CTRL_MODE_LESS: u8 = 0;

fn device() -> Mc6840 {
    Mc6840::new("mc6840")
}

#[test]
fn read_offset_zero_is_zero() {
    let mut device = device();
    assert_eq!(device.read(0), 0);
}

#[test]
fn read_status_register() {
    let mut device = device();
    device.timers[T1].irq_active = true;
    device.timers[T2].irq_active = true;
    device.timers[T3].irq_active = true;
    assert_eq!(device.read(1),
               IRQ_COMPOSITE | IRQ_TIMER_1 | IRQ_TIMER_2 | IRQ_TIMER_3);
}

#[test]
fn read_lsb_registers() {
    let mut device = device();
    for i in 0..3 {
        device.lsb_buffer = i as u8;
        assert_eq!(device.read(3 + 2 * i), i as u8);
    }
}

#[test]
fn read_counter_registers() {
    let mut device = device();
    for i in 0..3 {
        device.timers[i].counter = 0x55AA;
        device.lsb_buffer = 0;
        assert_eq!(device.read((2 + 2 * i) as u16), 0x55);
        assert_eq!(device.read((3 + 2 * i) as u16), 0xAA);
    }
}

#[test]
fn read_counter_resets_interrupt_when_latched() {
    let mut device = device();
    device.timers[T2].irq_active = true;
    assert_eq!(device.read(1), IRQ_COMPOSITE | IRQ_TIMER_2);
    device.read(2 + 2 * (T2 as u16));
    assert!(!device.timers[T2].irq_active, "expected IRQ not active");
}

#[test]
fn read_counter_retains_interrupt_when_not_latched() {
    let mut device = device();
    device.timers[T2].irq_active = true;
    assert!(device.irq_active(), "expected IRQ active");
    // no read of status register -> no latched status
    device.read(2 + 2 * (T2 as u16));
    assert!(device.timers[T2].irq_active, "expected IRQ active");
}

#[test]
fn write_t1_control_register() {
    let mut device = device();
    device.write(1, 0x01);
    assert!(device.cr1_enabled, "expected CR1 enabled");
    device.write(0, 0xff & !CTRL_INTERNAL_RESET);
    assert!(!device.reset_active, "expected reset not active");
    assert!(device.timers[T1].external_clock, "expected external clock");
    assert_eq!(device.timers[T1].mode, 0xff & CTRL_MODE_MASK);
    assert!(device.timers[T1].irq_enabled, "expected IRQ enabled");
    assert!(device.timers[T1].output_enabled, "expected output enabled");
}

#[test]
fn write_t1_control_register_internal_reset() {
    let mut device = device();
    device.timers[T2].irq_active = true;
    device.timers[T2].output_state = true;
    assert_eq!(device.timers[T2].latch, 0xFFFF);
    assert_eq!(device.timers[T2].counter, 0);
    device.write(1, CTRL_CR1_ENABLE);
    device.write(0, CTRL_INTERNAL_RESET);
    assert!(device.reset_active, "expected reset active");
    assert_eq!(device.timers[T2].counter, 0xFFFF);
    assert!(!device.timers[T2].irq_active, "expected IRQ not active");
    assert!(!device.timers[T2].output_state, "expected output state low");
    device.write(0, 0);
    assert!(!device.reset_active, "expected reset not active");
}

#[test]
fn write_t2_control_register() {
    let mut device = device();
    device.write(1, 0xff);
    assert!(device.cr1_enabled, "expected CR1 enabled");
    assert!(device.timers[T2].external_clock, "expected external clock");
    assert_eq!(device.timers[T2].mode, 0xff & CTRL_MODE_MASK);
    assert!(device.timers[T2].irq_enabled, "expected IRQ enabled");
    assert!(device.timers[T2].output_enabled, "expected output enabled");
}

#[test]
fn write_t3_control_register() {
    let mut device = device();
    assert!(!device.cr1_enabled, "expected CR3 enabled");
    device.write(0, 0xff & !CTRL_T3_PRESCALE);
    assert!(matches!(device.timers[T3].prescaler, None), "expected no prescaler");
    assert!(device.timers[T3].external_clock, "expected external clock");
    assert_eq!(device.timers[T3].mode, 0xff & CTRL_MODE_MASK);
    assert!(device.timers[T3].irq_enabled, "expected IRQ enabled");
    assert!(device.timers[T3].output_enabled, "expected output enabled");
}

#[test]
fn write_t3_control_register_with_prescaler() {
    let mut device = device();
    device.write(0, CTRL_T3_PRESCALE);
    assert!(matches!(device.timers[T3].prescaler, Some(_)), "expected prescaler");
}

#[test]
fn write_msb_registers() {
    let mut device = device();
    for i in 0..3 {
        device.write(2 * i + 2, i as u8);
        assert_eq!(device.msb_buffer, i as u8);
    }
}

#[test]
fn write_latch_registers() {
    let mut device = device();
    for i in 0..3 {
        device.write(2 * i + 2, 0x55);
        device.write(2 * i + 3, 0xAA);
        assert_eq!(device.timers[i as usize].latch, u16::from_le_bytes([0xAA, 0x55]));
    }
}

#[test]
fn write_latch_immediate_load() {
    let mut device = device();
    device.write(1, CTRL_MODE_GENERATE | CTRL_MODE_CONTINUOUS | CTRL_MODE_IMMEDIATE_INIT);
    device.write(2 + 2 * (T2 as u16), 0x55);
    device.write(3 + 2 * (T2 as u16), 0xAA);
    assert_eq!(device.timers[T2].latch, 0x55AA);
    assert_eq!(device.timers[T2].counter, 0x55AA);
}

#[test]
fn write_latch_deferred_init() {
    let mut device = device();
    device.timers[T2].counter = 0;
    device.write(1, CTRL_MODE_GENERATE | CTRL_MODE_CONTINUOUS | CTRL_MODE_DEFERRED_INIT);
    device.write(2 + 2 * (T2 as u16), 0x55);
    device.write(3 + 2 * (T2 as u16), 0xAA);
    assert_eq!(device.timers[T2].latch, 0x55AA);
    assert_eq!(device.timers[T2].counter, 0);
}

#[test]
fn write_mode_generate_continuous_immediate_init() {
    let mut device = device();
    device.write(1, CTRL_MODE_GENERATE | CTRL_MODE_CONTINUOUS | CTRL_MODE_IMMEDIATE_INIT);
    assert!(device.timers[T2].is_continuous());
    assert!(!device.timers[T2].is_deferred_init());
}

#[test]
fn write_mode_compare_frequency_less() {
    let mut device = device();
    device.write(1, CTRL_MODE_COMPARE | CTRL_MODE_FREQUENCY | CTRL_MODE_LESS);
    assert!(device.timers[T2].is_frequency());
    assert!(!device.timers[T2].is_compare_greater());
}

#[test]
fn write_mode_generate_continuous_deferred_init() {
    let mut device = device();
    device.write(1, CTRL_MODE_GENERATE | CTRL_MODE_CONTINUOUS | CTRL_MODE_DEFERRED_INIT);
    assert!(device.timers[T2].is_continuous());
    assert!(device.timers[T2].is_deferred_init());
}

#[test]
fn write_mode_compare_pulse_width_less() {
    let mut device = device();
    device.write(1, CTRL_MODE_COMPARE | CTRL_MODE_PULSE_WIDTH | CTRL_MODE_LESS);
    assert!(device.timers[T2].is_comparing());
    assert!(!device.timers[T2].is_frequency());
    assert!(!device.timers[T2].is_compare_greater());
}

#[test]
fn write_mode_generate_single_shot_immediate_init() {
    let mut device = device();
    device.write(1, CTRL_MODE_GENERATE | CTRL_MODE_SINGLE_SHOT | CTRL_MODE_IMMEDIATE_INIT);
    assert!(device.timers[T2].is_single_shot());
    assert!(!device.timers[T2].is_deferred_init());
}

#[test]
fn write_mode_compare_frequency_greater() {
    let mut device = device();
    device.write(1, CTRL_MODE_COMPARE | CTRL_MODE_FREQUENCY | CTRL_MODE_GREATER);
    assert!(device.timers[T2].is_frequency());
    assert!(device.timers[T2].is_compare_greater());
}

#[test]
fn write_mode_generate_single_shot_deferred_init() {
    let mut device = device();
    device.write(1, CTRL_MODE_GENERATE | CTRL_MODE_SINGLE_SHOT | CTRL_MODE_DEFERRED_INIT);
    assert!(device.timers[T2].is_single_shot());
    assert!(device.timers[T2].is_deferred_init());
}

#[test]
fn write_mode_compare_pulse_width_greater() {
    let mut device = device();
    device.write(1, CTRL_MODE_COMPARE | CTRL_MODE_PULSE_WIDTH | CTRL_MODE_GREATER);
    assert!(device.timers[T2].is_comparing());
    assert!(!device.timers[T2].is_frequency());
    assert!(device.timers[T2].is_compare_greater());
}

#[test]
fn peek_offset_zero_is_zero() {
    let device = device();
    assert_eq!(device.peek(0), 0);
}

#[test]
fn peek_status_register() {
    let mut device = device();
    device.timers[T1].irq_active = true;
    device.timers[T2].irq_active = true;
    device.timers[T3].irq_active = true;
    assert_eq!(device.read(1),
               IRQ_COMPOSITE | IRQ_TIMER_1 | IRQ_TIMER_2 | IRQ_TIMER_3);
}

#[test]
fn peek_counter_registers() {
    let mut device = device();
    for i in 0..3 {
        device.timers[i].counter = 0x55AA;
        device.lsb_buffer = 0;
        assert_eq!(device.peek((2 + 2 * i) as u16), 0x55);
        assert_eq!(device.peek((3 + 2 * i) as u16), 0xAA);
    }
}

#[test]
fn prescaler_update() {
    let mut prescaler = Prescaler::new(2);
    assert!(!prescaler.update_has_carry_out(), "expected no carry out");
    assert!(prescaler.update_has_carry_out(), "expected carry out");
    assert_eq!(prescaler.count, prescaler.divisor);
}

#[test]
fn timer_tick_in_generate_continuous_normal_count_mode() {
    let mut timer = Timer::new();
    timer.irq_enabled = true;
    assert!(!timer.output_state, "expected output state low");
    timer.mode = CTRL_MODE_GENERATE | CTRL_MODE_CONTINUOUS | CTRL_MODE_IMMEDIATE_INIT;
    timer.latch = 1;
    timer.init();
    // first tick should decrement counter
    timer.tick();
    assert_eq!(timer.counter, 0);
    // second tick should set output state high, signal interrupt, and reload counter from latch
    timer.tick();
    assert_eq!(timer.counter, timer.latch);
    assert!(timer.output_state, "expected output state high");
    assert!(timer.irq_active, "expected IRQ active");
}

#[test]
fn timer_tick_in_generate_single_shot_normal_count_mode() {
    let mut timer = Timer::new();
    timer.irq_enabled = true;
    assert!(!timer.output_state, "expected output state low");
    timer.mode = CTRL_MODE_GENERATE | CTRL_MODE_SINGLE_SHOT | CTRL_MODE_IMMEDIATE_INIT;
    timer.latch = 1;
    timer.init();
    // first tick should decrement counter and set the output high
    timer.tick();
    assert_eq!(timer.counter, 0);
    assert!(timer.output_state, "expected output state high");
    // second tick should set output state low, signal interrupt; counter remains at zero
    timer.tick();
    assert!(!timer.output_state, "expected output state low");
    assert!(timer.irq_active, "expected IRQ active");
    assert_eq!(timer.counter, 0);
}

#[test]
fn timer_tick_in_generate_continuous_dual8bit_count_mode() {
    let mut timer = Timer::new();
    timer.dual8bit_mode = true;
    timer.irq_enabled = true;
    timer.output_state = true;
    timer.mode = CTRL_MODE_GENERATE | CTRL_MODE_CONTINUOUS | CTRL_MODE_IMMEDIATE_INIT;
    timer.latch = 0x0101;
    timer.init();
    assert!(!timer.output_state, "expected output state low");
    assert_eq!(timer.counter, timer.latch);
    // first tick should zero counter LSB
    timer.tick();
    assert_eq!(timer.counter, 0x0100);
    // second tick should zero counter MSB, reload counter LSB, and set output state high
    timer.tick();
    assert_eq!(timer.counter, 0x0001);
    assert!(timer.output_state, "expected output state high");
    // third tick should zero counter LSB
    timer.tick();
    assert_eq!(timer.counter, 0x0000);
    // fourth tick should set output state low, signal interrupt, reload counter from latch
    timer.tick();
    assert!(!timer.output_state, "expected output state low");
    assert!(timer.irq_active, "expected IRQ active");
    assert_eq!(timer.counter, timer.latch);
}

#[test]
fn timer_tick_in_generate_single_shot_dual8bit_count_mode() {
    let mut timer = Timer::new();
    timer.dual8bit_mode = true;
    timer.irq_enabled = true;
    timer.output_state = true;
    timer.mode = CTRL_MODE_GENERATE | CTRL_MODE_SINGLE_SHOT | CTRL_MODE_IMMEDIATE_INIT;
    timer.latch = 0x0101;
    timer.init();
    assert!(!timer.output_state, "expected output state low");
    assert_eq!(timer.counter, timer.latch);
    // first tick should zero counter LSB
    timer.tick();
    assert_eq!(timer.counter, 0x0100);
    // second tick should zero counter MSB, reload counter LSB, and set output state high
    timer.tick();
    assert_eq!(timer.counter, 0x0001);
    assert!(timer.output_state, "expected output state high");
    // third tick should zero counter LSB
    timer.tick();
    assert_eq!(timer.counter, 0x0000);
    // fourth tick should set output state low, signal interrupt; counter remains at zero
    timer.tick();
    assert!(!timer.output_state, "expected output state low");
    assert!(timer.irq_active, "expected IRQ active");
    assert_eq!(timer.counter, 0);
}

#[test]
fn timer_tick_in_generate_mode_normal_count_with_latch_zero() {
    let mut timer = Timer::new();
    timer.mode = CTRL_MODE_GENERATE | CTRL_MODE_CONTINUOUS | CTRL_MODE_IMMEDIATE_INIT;
    timer.latch = 0;
    timer.irq_enabled = true;
    timer.init();
    assert!(!timer.is_zero(), "expected timer not zero");
    timer.tick();
    assert_eq!(timer.counter, 0xFFFF);
    let mut count = 1;
    while !timer.is_zero() {
        timer.tick();
        count += 1;
    }
    assert_eq!(count, 65536);
    // count is now N; should need N+1 to trigger IRQ
    assert!(!timer.irq_active, "expected IRQ not active");
    timer.tick();
    assert!(timer.irq_active, "expected IRQ active");
}

#[test]
fn timer_tick_in_generate_mode_dual8bit_count_with_latch_zero() {
    let mut timer = Timer::new();
    timer.mode = CTRL_MODE_GENERATE | CTRL_MODE_CONTINUOUS | CTRL_MODE_IMMEDIATE_INIT;
    timer.dual8bit_mode = true;
    timer.latch = 0;
    timer.init();
    let output_state = timer.output_state;
    timer.tick();
    assert_ne!(timer.output_state, output_state);
    timer.tick();
    assert_eq!(timer.output_state, output_state);
    timer.tick();
    assert_ne!(timer.output_state, output_state);
}

#[test]
fn timer_tick_in_generate_mode_single_shot_normal_count_deferred_init() {
    let mut timer = Timer::new();
    timer.mode = CTRL_MODE_GENERATE | CTRL_MODE_SINGLE_SHOT | CTRL_MODE_DEFERRED_INIT;
    timer.latch = 1;
    timer.gate_level = true;
    // when the timer is initialized in software, it counts down once
    timer.init();
    assert_eq!(timer.counter, 1);
    timer.tick();
    assert_eq!(timer.counter, 0);
    // it's single-shot, so it shouldn't reload
    timer.tick();
    assert_eq!(timer.counter, 0);
    // next tick clocks in the falling gate edge
    timer.gate_level = false;
    timer.tick();
    // need four ticks to recognize falling edge of gate; loop gets the first three
    for _ in 0..3 {
        timer.tick();
        assert_eq!(timer.counter, 0);
    }
    // falling edge of gate should be recognized on fourth tick
    // so timer should initialize and count down
    timer.tick();
    assert_eq!(timer.counter, 1);
    timer.tick();
    assert_eq!(timer.counter, 0);
    // since gate is edge-triggered, additional ticks won't initialize timer even
    // with gate held low
    for _ in 0..3 {
        timer.tick();
        assert_eq!(timer.counter, 0);
    }
    timer.gate_level = true;
    timer.tick();
    // next tick clocks in the falling gate edge
    timer.gate_level = false;
    timer.tick();
    // need four ticks to recognize falling edge of gate; loop gets the first three
    for _ in 0..3 {
        timer.tick();
        assert_eq!(timer.counter, 0);
    }
    // falling edge of gate should be recognized on fourth tick
    // so timer should initialize and count down
    timer.tick();
    assert_eq!(timer.counter, 1);
    timer.tick();
    assert_eq!(timer.counter, 0);
}

#[test]
fn synchronizer_latency_edge_triggered() {
    let mut sync = Synchronizer::new(1, true, true);
    // put the edge in the pipeline
    assert!(!sync.sample(false));
    // edge emerges from the pipeline
    assert!(sync.sample(false));
    assert!(!sync.sample(true));
    assert!(!sync.sample(true));
    assert!(!sync.sample(true));
    assert!(!sync.sample(false));
    assert!(sync.sample(true));
}

#[test]
fn synchronizer_latency_level_triggered() {
    let mut sync = Synchronizer::new(1, true, false);
    // first clock puts the new level in the pipeline
    assert!(sync.sample(false));
    // level emerges from the pipeline on the next clock
    assert!(!sync.sample(false));
}

fn timer_with_external_clock() -> Timer {
    let mut timer = Timer::new();
    timer.mode = CTRL_MODE_GENERATE | CTRL_MODE_SINGLE_SHOT | CTRL_MODE_DEFERRED_INIT;
    timer.external_clock = true;
    timer.latch = 1;
    timer
}

#[test]
fn external_clock_updates_timer_after_pipeline_delay() {
    let mut timer = timer_with_external_clock();
    timer.init();
    // E clocks in the external clock edge
    timer.clock_level = false;
    timer.tick();
    timer.clock_level = true;
    // need four more E clocks to recognize the external clock edge
    timer.tick();
    assert_eq!(timer.counter, 1);
    timer.tick();
    assert_eq!(timer.counter, 1);
    timer.tick();
    assert_eq!(timer.counter, 1);
    timer.tick();
    // previous E clock should have decremented the counter
    assert_eq!(timer.counter, 0);
    // subsequent E clocks shouldn't change the timer
    timer.tick();
    assert_eq!(timer.counter, 0);
    timer.tick();
    assert_eq!(timer.counter, 0);
}

#[test]
fn compare_frequency_lt_when_lt() {
    let mut timer = Timer::new();
    timer.irq_enabled = true;
    timer.set_control_register(CTRL_IRQ_ENABLE | CTRL_MODE_COMPARE | CTRL_MODE_FREQUENCY | CTRL_MODE_LESS);
    timer.latch = 3;
    timer.gate_level = true;  timer.tick();     // ?, ?, ?, H
    timer.gate_level = false; timer.tick();     // ?, ?, H, L
    timer.gate_level = true;  timer.tick();     // ?, H, L, H
    timer.gate_level = false; timer.tick();     // H, L, H, L
    timer.gate_level = true;  timer.tick();     // L, H, L, H
    assert_eq!(timer.compare_status, CompareStatus::Idle);
    timer.gate_level = true;  timer.tick();     // H, L, H, H (falling edge detected)
    // falling edge should init counter to start measurement
    assert_eq!(timer.compare_status, CompareStatus::Started);
    assert_eq!(timer.counter, 3);
    timer.gate_level = true;  timer.tick();     // L, H, H, H
    assert_eq!(timer.counter, 2);
    timer.gate_level = true;  timer.tick();     // H, H, H, H (falling edge detected)
    // not timeout => compare satisfied, raise interrupt
    assert_eq!(timer.compare_status, CompareStatus::Stopped);
    assert_eq!(timer.counter, 1);
    assert!(timer.irq_active());
    // timer should continue to decrement
    timer.gate_level = false; timer.tick();     // H, H, H, L
    assert_eq!(timer.counter, 0);
    timer.clear_irq();
    timer.gate_level = true;  timer.tick();     // H, H, L, H
    // even after IRQ cleared must continue to decrement
    // until the next negative gate edge is recognized
    assert_eq!(timer.counter, 0xFFFF);
    timer.gate_level = true;  timer.tick();     // H, L, H, H
    assert_eq!(timer.counter, 0xFFFE);
    timer.gate_level = true;  timer.tick();     // L, H, H, H
    assert_eq!(timer.counter, 0xFFFD);
    timer.gate_level = true;  timer.tick();     // H, H, H, H (falling edge detected)
    // falling edge should init counter to start measurement
    assert_eq!(timer.counter, 3);
    assert_eq!(timer.compare_status, CompareStatus::Started);
}

#[test]
fn compare_frequency_lt_when_ge() {
    let mut timer = Timer::new();
    timer.irq_enabled = true;
    timer.set_control_register(CTRL_IRQ_ENABLE | CTRL_MODE_COMPARE | CTRL_MODE_FREQUENCY | CTRL_MODE_LESS);
    timer.latch = 3;
    timer.gate_level = true;  timer.tick();     // ?, ?, ?, H
    timer.gate_level = false; timer.tick();     // ?, ?, H, L
    timer.gate_level = true;  timer.tick();     // ?, H, L, H
    timer.gate_level = true;  timer.tick();     // H, L, H, H
    timer.gate_level = true;  timer.tick();     // L, H, H, H
    assert_eq!(timer.compare_status, CompareStatus::Idle);
    timer.gate_level = true;  timer.tick();     // H, H, H, H (falling edge detected)
    // falling edge should init counter to start measurement
    assert_eq!(timer.compare_status, CompareStatus::Started);
    assert_eq!(timer.counter, 3);
    timer.gate_level = false; timer.tick();     // H, H, H, L
    assert_eq!(timer.counter, 2);
    timer.gate_level = true;  timer.tick();     // H, H, L, H
    assert_eq!(timer.counter, 1);
    timer.gate_level = true;  timer.tick();     // H, L, H, H
    assert_eq!(timer.counter, 0);
    timer.gate_level = true;  timer.tick();     // L, H, H, H
    assert_eq!(timer.compare_status, CompareStatus::Idle);
    assert_eq!(timer.counter, 0xFFFF);
    assert!(!timer.irq_active());
    timer.gate_level = true;  timer.tick();     // H, H, H, H (falling edge detected)
    // falling edge should init counter to start measurement
    assert_eq!(timer.counter, 3);
    assert_eq!(timer.compare_status, CompareStatus::Started);
}

#[test]
fn compare_frequency_gt_when_gt() {
    let mut timer = Timer::new();
    timer.irq_enabled = true;
    timer.set_control_register(CTRL_IRQ_ENABLE | CTRL_MODE_COMPARE | CTRL_MODE_FREQUENCY | CTRL_MODE_GREATER);
    timer.latch = 3;
    timer.gate_level = true;  timer.tick();     // ?, ?, ?, H
    timer.gate_level = false; timer.tick();     // ?, ?, H, L
    timer.gate_level = true;  timer.tick();     // ?, H, L, H
    timer.gate_level = true;  timer.tick();     // H, L, H, H
    timer.gate_level = true;  timer.tick();     // L, H, H, H
    assert_eq!(timer.compare_status, CompareStatus::Idle);
    timer.gate_level = true;  timer.tick();     // H, H, H, H (falling edge detected)
    // falling edge should init counter to start measurement
    assert_eq!(timer.compare_status, CompareStatus::Started);
    assert_eq!(timer.counter, 3);
    timer.gate_level = false; timer.tick();     // H, H, H, L
    assert_eq!(timer.counter, 2);
    timer.gate_level = true;  timer.tick();     // H, H, L, H
    assert_eq!(timer.counter, 1);
    timer.gate_level = false; timer.tick();     // H, L, H, L
    assert_eq!(timer.counter, 0);
    timer.gate_level = true;  timer.tick();     // L, H, L, H
    assert_eq!(timer.counter, 0xFFFF);
    assert_eq!(timer.compare_status, CompareStatus::Idle);
    assert!(timer.irq_active());
    timer.gate_level = true;  timer.tick();     // H, L, H, H (falling edge detected)
    // even after IRQ cleared must continue to decrement
    // until the next negative gate edge is recognized
    assert_eq!(timer.counter, 0xFFFE);
    timer.clear_irq();
    timer.gate_level = true;  timer.tick();     // L, H, H, H
    assert_eq!(timer.counter, 0xFFFD);
    timer.gate_level = true;  timer.tick();     // H, H, H, H (falling edge detected)
    // falling edge should init timer for measurement
    assert_eq!(timer.counter, 3);
    assert_eq!(timer.compare_status, CompareStatus::Started);
}

#[test]
fn compare_frequency_gt_when_le() {
    let mut timer = Timer::new();
    timer.irq_enabled = true;
    timer.set_control_register(CTRL_IRQ_ENABLE | CTRL_MODE_COMPARE | CTRL_MODE_FREQUENCY | CTRL_MODE_GREATER);
    timer.latch = 3;
    timer.gate_level = true;  timer.tick();     // ?, ?, ?, H
    timer.gate_level = false; timer.tick();     // ?, ?, H, L
    timer.gate_level = true;  timer.tick();     // ?, H, L, H
    timer.gate_level = true;  timer.tick();     // H, L, H, H
    timer.gate_level = false;  timer.tick();    // L, H, H, L
    assert_eq!(timer.compare_status, CompareStatus::Idle);
    timer.gate_level = true;  timer.tick();     // H, H, L, H (falling edge detected)
    // falling edge should init counter to start measurement
    assert_eq!(timer.compare_status, CompareStatus::Started);
    assert_eq!(timer.counter, 3);
    timer.gate_level = false; timer.tick();     // H, L, H, L
    assert_eq!(timer.counter, 2);
    timer.gate_level = true;  timer.tick();     // L, H, L, H
    assert_eq!(timer.counter, 1);
    timer.gate_level = true;  timer.tick();     // H, L, H, H (falling edge detected)
    // falling edge before timeout should simply reset for another measurement
    assert_eq!(timer.counter, 3);
    assert_eq!(timer.compare_status, CompareStatus::Started);
    assert!(!timer.irq_active());
}

#[test]
fn compare_pulse_width_lt_when_lt() {
    let mut timer = Timer::new();
    timer.irq_enabled = true;
    timer.set_control_register(CTRL_IRQ_ENABLE | CTRL_MODE_COMPARE | CTRL_MODE_PULSE_WIDTH | CTRL_MODE_LESS);
    timer.latch = 4;
    timer.gate_level = true;  timer.tick();     // ?, ?, ?, H
    timer.gate_level = false; timer.tick();     // ?, ?, H, L
    timer.gate_level = false; timer.tick();     // ?, H, L, L
    timer.gate_level = false; timer.tick();     // H, L, L, L
    timer.gate_level = true;  timer.tick();     // L, L, L, H
    assert_eq!(timer.compare_status, CompareStatus::Idle);
    timer.gate_level = true;  timer.tick();     // L, L, H, H (falling edge detected)
    // falling edge should init counter for measurement
    assert_eq!(timer.compare_status, CompareStatus::Started);
    assert_eq!(timer.counter, 4);
    timer.gate_level = false; timer.tick();     // L, H, H, L
    assert_eq!(timer.counter, 3);
    timer.gate_level = false; timer.tick();     // H, H, L, L
    assert_eq!(timer.counter, 2);
    timer.gate_level = false; timer.tick();     // H, L, L, L (rising edge detected)
    // not timeout => compare satisfied, raise interrupt
    assert_eq!(timer.counter, 1);
    assert_eq!(timer.compare_status, CompareStatus::Stopped);
    assert!(timer.irq_active());
    timer.gate_level = false; timer.tick();     // L, L, L, L
    // timer should continue to decrement
    timer.clear_irq();
    assert_eq!(timer.counter, 0);
    timer.gate_level = false; timer.tick();     // L, L, L, L (falling edge detected)
    // falling edge should init counter for measurement
    assert_eq!(timer.counter, 4);
    assert_eq!(timer.compare_status, CompareStatus::Started);
}

#[test]
fn compare_pulse_width_lt_when_ge() {
    let mut timer = Timer::new();
    timer.irq_enabled = true;
    timer.set_control_register(CTRL_IRQ_ENABLE | CTRL_MODE_COMPARE | CTRL_MODE_PULSE_WIDTH | CTRL_MODE_LESS);
    timer.latch = 2;
    timer.gate_level = true;  timer.tick();     // ?, ?, ?, H
    timer.gate_level = false; timer.tick();     // ?, ?, H, L
    timer.gate_level = false; timer.tick();     // ?, H, L, L
    timer.gate_level = false; timer.tick();     // H, L, L, L
    timer.gate_level = false;  timer.tick();    // L, L, L, L
    assert_eq!(timer.compare_status, CompareStatus::Idle);
    timer.gate_level = true;  timer.tick();     // L, L, L, H (falling edge detected)
    // falling edge should init counter for measurement
    assert_eq!(timer.compare_status, CompareStatus::Started);
    assert_eq!(timer.counter, 2);
    timer.gate_level = false; timer.tick();     // L, L, H, L
    assert_eq!(timer.counter, 1);
    timer.gate_level = false; timer.tick();     // L, H, L, L
    assert_eq!(timer.counter, 0);
    timer.gate_level = false; timer.tick();     // H, L, L, L
    assert_eq!(timer.compare_status, CompareStatus::Idle);
    assert!(!timer.irq_active());
    assert_eq!(timer.counter, 0xFFFF);
    timer.gate_level = false; timer.tick();     // L, L, L, L (rising edge detected)
    // rising edge doesn't init counter
    assert_eq!(timer.counter, 0xFFFE);
    timer.gate_level = false; timer.tick();     // L, L, L, L (falling edge detected)
    // falling edge should init counter for measurement
    assert_eq!(timer.counter, 2);
    assert_eq!(timer.compare_status, CompareStatus::Started);
}

#[test]
fn compare_pulse_width_gt_when_gt() {
    let mut timer = Timer::new();
    timer.irq_enabled = true;
    timer.set_control_register(CTRL_IRQ_ENABLE | CTRL_MODE_COMPARE | CTRL_MODE_PULSE_WIDTH | CTRL_MODE_GREATER);
    timer.latch = 3;
    timer.gate_level = true;  timer.tick();     // ?, ?, ?, H
    timer.gate_level = false; timer.tick();     // ?, ?, H, L
    timer.gate_level = false; timer.tick();     // ?, H, L, L
    timer.gate_level = false; timer.tick();     // H, L, L, L
    timer.gate_level = false; timer.tick();     // L, L, L, L
    assert_eq!(timer.compare_status, CompareStatus::Idle);
    timer.gate_level = false; timer.tick();     // L, L, L, L (falling edge detected)
    // falling edge should init counter for measurement
    assert_eq!(timer.compare_status, CompareStatus::Started);
    assert_eq!(timer.counter, 3);
    timer.gate_level = true;  timer.tick();     // L, L, L, H
    assert_eq!(timer.counter, 2);
    timer.gate_level = false; timer.tick();     // L, L, H, L
    assert_eq!(timer.counter, 1);
    timer.gate_level = true;  timer.tick();     // L, H, L, H
    assert_eq!(timer.counter, 0);
    timer.gate_level = true;  timer.tick();     // H, L, H, H (rising edge detected)
    assert_eq!(timer.counter, 0xFFFF);
    assert_eq!(timer.compare_status, CompareStatus::Idle);
    assert!(timer.irq_active());
    timer.gate_level = true;  timer.tick();     // L, H, H, H
    assert_eq!(timer.counter, 0xFFFE);
    timer.clear_irq();
    timer.gate_level = true;  timer.tick();     // H, H, H, H (falling edge detected)
    assert_eq!(timer.counter, 3);
    assert_eq!(timer.compare_status, CompareStatus::Started);
}

#[test]
fn compare_pulse_width_gt_when_le() {
    let mut timer = Timer::new();
    timer.irq_enabled = true;
    timer.set_control_register(CTRL_IRQ_ENABLE | CTRL_MODE_COMPARE | CTRL_MODE_PULSE_WIDTH | CTRL_MODE_GREATER);
    timer.latch = 3;
    timer.gate_level = true;  timer.tick();     // ?, ?, ?, H
    timer.gate_level = false; timer.tick();     // ?, ?, H, L
    timer.gate_level = false; timer.tick();     // ?, H, L, L
    timer.gate_level = false; timer.tick();     // H, L, L, L
    timer.gate_level = true;  timer.tick();     // L, L, L, H
    assert_eq!(timer.compare_status, CompareStatus::Idle);
    timer.gate_level = true;  timer.tick();     // L, L, H, H (falling edge detected)
    // falling edge should init counter for measurement
    assert_eq!(timer.compare_status, CompareStatus::Started);
    assert_eq!(timer.counter, 3);
    timer.gate_level = true;  timer.tick();     // L, H, H, H
    assert_eq!(timer.counter, 2);
    timer.gate_level = false; timer.tick();     // H, H, H, L
    assert_eq!(timer.counter, 1);
    timer.gate_level = true;  timer.tick();     // H, H, L, H (rising edge detected)
    assert_eq!(timer.counter, 0);
    assert_eq!(timer.compare_status, CompareStatus::Idle);
    assert!(!timer.irq_active());
    timer.gate_level = true;  timer.tick();     // H, L, H, H
    assert_eq!(timer.counter, 0xFFFF);
    timer.gate_level = true;  timer.tick();     // L, H, H, H
    assert_eq!(timer.counter, 0xFFFE);
    timer.gate_level = true;  timer.tick();     // H, H, H, H (falling edge detected)
    assert_eq!(timer.counter, 3);
    assert_eq!(timer.compare_status, CompareStatus::Started);
}
