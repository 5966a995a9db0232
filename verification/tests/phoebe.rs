use emma65::address::RomWritePolicy;
use emma65::device::{DeviceEvent, DeviceId, IoDevice};
use emma65::phoebe::{Phoebe, RAM_SIZE, ROM_SIZE, SELECTION_MASK};
use tokio::sync::mpsc;

const DEVICE_NAME: &str = "phoebe";
const CTRL_REGISTER_ADDRESS: u16 = 0xFFF7;

fn device() -> Phoebe {
    let rom_data: Vec<u8> = vec![0xFF; ROM_SIZE];
    let ram_data: Vec<u8> = vec![0; RAM_SIZE];
    Phoebe::with_data(DEVICE_NAME, CTRL_REGISTER_ADDRESS, rom_data, ram_data)
}

#[test]
fn effective_address_ram() {
    let device = device();
    assert_eq!(device.effective_address(0x0000), (false, 0x0000));
    assert_eq!(device.effective_address(0xBFFF), (false, 0xBFFF));
}

#[test]
fn effective_address_window() {
    let mut device = device();
    device.selected_bank = 0;
    assert_eq!(device.effective_address(0xC000), (true, 0x0000));
    assert_eq!(device.effective_address(0xDFFF), (true, 0x1FFF));
    device.selected_bank = 1;
    assert_eq!(device.effective_address(0xC000), (true, 0x2000));
    assert_eq!(device.effective_address(0xDFFF), (true, 0x3FFF));
    device.selected_bank = 2;
    assert_eq!(device.effective_address(0xC000), (true, 0x4000));
    assert_eq!(device.effective_address(0xDFFF), (true, 0x5FFF));
    device.selected_bank = 3;
    assert_eq!(device.effective_address(0xC000), (false, 0xC000));
    assert_eq!(device.effective_address(0xDFFF), (false, 0xDFFF));
}

#[test]
fn effective_address_rom() {
    let device = device();
    assert_eq!(device.effective_address(0xE000), (true, 0x6000));
    assert_eq!(device.effective_address(0xFFFF), (true, 0x7FFF));
}

#[test]
fn phoebe_peek_control_register() {
    let mut device = device();
    device.set_control_register(SELECTION_MASK);
    assert_eq!(device.peek(CTRL_REGISTER_ADDRESS), SELECTION_MASK);
}

#[test]
fn peek_ram() {
    let mut device = device();
    device.ram_data[0] = 0x55;
    assert_eq!(device.peek(0), 0x55);
}

#[test]
fn peek_window() {
    let mut device = device();
    device.selected_bank = 1;
    device.rom_data[0x2000] = 0x55;
    assert_eq!(device.peek(0xC000), 0x55);
}

#[test]
fn peek_rom() {
    let mut device = device();
    device.rom_data[0x6000] = 0x55;
    assert_eq!(device.peek(0xE000), 0x55);
}

#[test]
fn phoebe_write_ram() {
    let mut device = device();
    device.selected_bank = SELECTION_MASK;
    device.write(0x0000, 0xFF);
    assert_eq!(device.ram_data[0x0000], 0xFF);
    device.write(0xBFFF, 0xFF);
    assert_eq!(device.ram_data[0xBFFF], 0xFF);
}

#[test]
fn phoebe_write_rom_ignored_when_policy_is_none() {
    let mut device = device();
    device.write(0xFFFF, 0);
    assert_eq!(device.rom_data[0x7FFF], 0xFF);
}

#[test]
fn phoebe_write_rom_ignored_when_policy_is_ignore() {
    let mut device = device();
    device.set_write_policy(RomWritePolicy::Ignore);
    device.write(0xFFFF, 0);
    assert_eq!(device.rom_data[0x7FFF], 0xFF);
}

#[test]
fn phoebe_write_rom_reports_rejected_write_when_policy_is_error() {
    let device_id = DeviceId(0);
    let mut device = device();
    let (tx, mut rx) = mpsc::unbounded_channel::<DeviceEvent>();
    device.set_error_sender(tx, device_id);
    device.set_write_policy(RomWritePolicy::Error);

    device.write(0xFFFF, 0);

    match rx.try_recv() {
        Ok(event) => {
            assert!(matches!(event, DeviceEvent::RejectedWrite{ address: 0xFFFF, .. }));
        }
        Err(e) => panic!("Expected a DeviceEvent, but channel was empty: {:?}", e),
    }
}

#[test]
fn reset_restores_default_bank() {
    let mut device = device();
    device.set_control_register(SELECTION_MASK);
    device.reset();
    assert_eq!(device.control_register(), 0);
}
