use rust_adb::device::device_present;
use rust_adb::device::get_device_props_command;
use rust_adb::device::parse_device_line;
use rust_adb::device::parse_device_list;
use rust_adb::device::set_device_prop_command;
use rust_adb::Device;

#[test]
fn device_line_with_annotations() {
    let d = parse_device_line(
        "emulator-5554 device product:sdk_gphone64 model:Pixel_6 device:emu64 transport_id:1",
    )
    .unwrap();
    assert_eq!(d.serial, "emulator-5554");
    assert_eq!(d.state, "device");
    assert_eq!(d.product.as_deref(), Some("sdk_gphone64"));
    assert_eq!(d.model.as_deref(), Some("Pixel_6"));
    assert_eq!(d.device.as_deref(), Some("emu64"));
    assert_eq!(d.transport_id.as_deref(), Some("1"));
}

#[test]
fn device_line_minimal() {
    let d = parse_device_line("0123456789ABCDEF unauthorized").unwrap();
    assert_eq!(d.serial, "0123456789ABCDEF");
    assert_eq!(d.state, "unauthorized");
    assert_eq!(d.product, None);
    assert_eq!(d.model, None);
}

#[test]
fn device_line_too_short() {
    assert_eq!(parse_device_line("lonely"), None);
    assert_eq!(parse_device_line(""), None);
}

#[test]
fn device_line_later_annotation_wins() {
    let d = parse_device_line("serial device model:first model:second").unwrap();
    assert_eq!(d.model.as_deref(), Some("second"));
}

#[test]
fn device_line_ignores_malformed_annotations() {
    let d = parse_device_line("serial device odd:pair:here model:ok plain").unwrap();
    assert_eq!(d.model.as_deref(), Some("ok"));
    assert_eq!(d.product, None);
}

#[test]
fn device_list_skips_header_and_blanks() {
    let out = "List of devices attached\nemulator-5554 device\n\nserialB offline model:M\n";
    let devices = parse_device_list(out);
    assert_eq!(devices.len(), 2);
    assert_eq!(devices[0].serial, "emulator-5554");
    assert_eq!(devices[1].serial, "serialB");
    assert_eq!(devices[1].state, "offline");
    assert_eq!(devices[1].model.as_deref(), Some("M"));
}

#[test]
fn device_list_empty_output() {
    assert_eq!(parse_device_list("").len(), 0);
    assert_eq!(parse_device_list("List of devices attached\n").len(), 0);
}

#[test]
fn device_presence() {
    let devices: Vec<Device> = parse_device_list("header\na device\nb offline\n");
    assert!(device_present(&devices, "a"));
    assert!(device_present(&devices, "b"));
    assert!(!device_present(&devices, "c"));
}

#[test]
fn device_prop_commands() {
    assert_eq!(get_device_props_command("serial1"), "-s serial1 shell getprop");
    assert_eq!(
        set_device_prop_command("serial1", "persist.x", "1"),
        "-s serial1 shell setprop persist.x 1"
    );
}
