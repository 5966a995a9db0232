# emma65

Memory-mapped peripherals of a 65xx-family computer, as a verified library: serial interfaces, a
programmable timer, a priority interrupt controller, bank-switched memory modules, a console and a
keyboard, character, LCD and LED-matrix displays, and the protocols that connect devices with
external peripherals.

Each device is a struct with a ghost view. Pure functions on the view say what a read, a write, a
clock tick or a reset does, the executable methods are proved to do that, and the laws, which are
public proof functions, relate the operations with each other.

- `src/` the library. `device.rs` holds the trait of the devices on the bus, `transport.rs` the ends
  of the byte streams to their peripherals, `protocol/` the message codecs.
- `tests/` its tests.
- `app/` the parts of a host that are ordinary Rust.

What is not proved is what tokio's channels do with the events and frames that the library hands to
them (`error_reporter.rs`, `frame_sink.rs`, `device.rs`), and what a load of the atomic finds in which
the interrupt controller publishes its enable register (`pic.rs`). Proved is which channel is handed
what, which value is handed to the atomic, and what is made of whatever a load of it finds.
