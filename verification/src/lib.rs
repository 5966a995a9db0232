//! Memory-mapped peripherals of a 65xx-family computer.

pub mod acia6551;
pub mod address;
pub mod baud;
pub mod bytes;
pub mod console;
pub mod device;
pub mod display;
pub mod error_reporter;
pub mod finch;
pub mod frame_sink;
pub mod input_buffer;
pub mod interrupts;
pub mod keyboard;
pub mod lcd_display;
pub mod led_adapter;
pub mod led_matrix;
pub mod lfsr;
pub mod logging;
pub mod mc6840;
pub mod mc6850;
pub mod phoebe;
pub mod pic;
pub mod protocol;
pub mod protocol_manager;
pub mod r6551;
pub mod ring;
pub mod serial_laws;
pub mod text;
pub mod timer_dual;
pub mod timer_laws;
pub mod timer_period;
pub mod transport;
pub mod transport_manager;
