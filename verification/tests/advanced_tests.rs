use rust_adb::advanced_device::build_network_info;
use rust_adb::advanced_device::create_device_backup_command;
use rust_adb::advanced_device::enable_device_mirroring_command;
use rust_adb::advanced_device::extract_ip_from_network_info;
use rust_adb::advanced_device::extract_memory_value;
use rust_adb::advanced_device::parse_memory_info;
use rust_adb::advanced_device::parse_storage_info;
use rust_adb::advanced_device::reboot_recovery_command;
use rust_adb::advanced_device::set_location_mock_command;
use rust_adb::file_ops::pull_file_command;
use rust_adb::file_ops::pull_output_ok;
use rust_adb::file_ops::push_file_command;
use rust_adb::file_ops::push_output_ok;
use rust_adb::file_ops::screenshot_command;
use rust_adb::file_ops::shell_command_line;
use rust_adb::input::send_keyevent_command;
use rust_adb::input::send_text_command;
use rust_adb::input::send_touch_event_command;
use rust_adb::input::source_name;
use rust_adb::input::swipe_command;
use rust_adb::input::tap_command;
use rust_adb::screen_recording::record_output_ok;
use rust_adb::screen_recording::screen_record_command;
use rust_adb::ADBError;
use rust_adb::InputSource;
use rust_adb::ScreenRecordOptions;
use rust_adb::TouchEvent;

#[test]
fn storage_info_from_df() {
    let out = "\
Filesystem      1K-blocks    Used Available Use% Mounted on
/dev/block/dm-0   5000000 3000000   2000000  60% /
/dev/block/dm-1  50000000 20000000 30000000  40% /data
";
    let s = parse_storage_info(out);
    assert_eq!(s.total, 50000000);
    assert_eq!(s.used, 20000000);
    assert_eq!(s.available, 30000000);
    let none = parse_storage_info("no data partition");
    assert_eq!(none.total, 0);
}

#[test]
fn memory_info_from_meminfo() {
    let out = "MemTotal:        8000000 kB\nMemFree:         1000000 kB\nMemAvailable:    4000000 kB\n";
    let m = parse_memory_info(out);
    assert_eq!(m.total, 8000000);
    assert_eq!(m.available, 4000000);
    assert_eq!(extract_memory_value("MemTotal:  123 kB"), 123);
    assert_eq!(extract_memory_value("MemTotal:"), 0);
}

#[test]
fn ip_from_connectivity_dump() {
    let out = "line one\n  ipaddr=10.1.2.3 \nrest";
    assert_eq!(extract_ip_from_network_info(out).as_deref(), Some("10.1.2.3"));
    assert_eq!(extract_ip_from_network_info("ipaddr without equals"), None);
    assert_eq!(extract_ip_from_network_info("nothing"), None);
}

#[test]
fn network_info_assembly() {
    let info = build_network_info("Wi-Fi is enabled", "mobile\nipaddr=10.0.0.9");
    assert!(info.wifi_connected);
    assert!(info.mobile_connected);
    assert_eq!(info.ip_address.as_deref(), Some("10.0.0.9"));
}

#[test]
fn advanced_commands() {
    assert_eq!(
        enable_device_mirroring_command("d", Some(2)),
        "-s d shell am start -n com.android.systemui/.screenrecord.ScreenRecordService --ei display 2"
    );
    assert_eq!(
        enable_device_mirroring_command("d", None),
        "-s d shell am start -n com.android.systemui/.screenrecord.ScreenRecordService --ei display 0"
    );
    assert_eq!(
        create_device_backup_command("d", "/tmp/b.ab", false, false),
        "-s d backup -noapk -noshared -f /tmp/b.ab"
    );
    assert_eq!(create_device_backup_command("d", "/tmp/b.ab", true, true), "-s d backup -f /tmp/b.ab");
    assert_eq!(set_location_mock_command("d", true), "-s d shell settings put secure mock_location 1");
    assert_eq!(reboot_recovery_command("d"), "-s d reboot recovery");
}

#[test]
fn file_transfer_commands_and_predicates() {
    assert_eq!(push_file_command("d", "/l", "/r"), "-s d push /l /r");
    assert_eq!(pull_file_command("d", "/r", "/l"), "-s d pull /r /l");
    assert_eq!(shell_command_line("d", "ls /"), "-s d shell ls /");
    assert_eq!(screenshot_command("d"), "-s d exec-out screencap -p");
    assert!(push_output_ok("1 file pushed, 0 skipped"));
    assert!(push_output_ok("transferred 1.2 MB/s"));
    assert!(!push_output_ok("failed"));
    assert!(pull_output_ok("1 file pulled"));
    assert!(!pull_output_ok("pushed"));
}

#[test]
fn input_commands() {
    assert_eq!(send_keyevent_command("d", 26), "-s d shell input keyevent 26");
    assert_eq!(send_keyevent_command("d", -3), "-s d shell input keyevent -3");
    assert_eq!(send_text_command("d", "hello"), "-s d shell input text hello");
    assert_eq!(tap_command("d", 100, 250), "-s d shell input tap 100 250");
    assert_eq!(swipe_command("d", 0, 0, 10, 20, None), "-s d shell input swipe 0 0 10 20");
    assert_eq!(
        swipe_command("d", 0, 0, 10, 20, Some(300)),
        "-s d shell input swipe 0 0 10 20 300"
    );
    assert_eq!(source_name(InputSource::Mouse), "mouse");
    let event = TouchEvent { x: 5, y: 6, pressure: Some(7), size: None };
    assert_eq!(
        send_touch_event_command("d", &event, InputSource::Touchscreen),
        "-s d shell sendevent touchscreen 5 6 7"
    );
    let plain = TouchEvent { x: 5, y: 6, pressure: None, size: Some(2) };
    assert_eq!(
        send_touch_event_command("d", &plain, InputSource::Joystick),
        "-s d shell sendevent joystick 5 6 2"
    );
}

#[test]
fn screen_record_assembly() {
    let options = ScreenRecordOptions {
        bit_rate: Some(8),
        resolution: Some((1920, 1080)),
        time_limit: Some(30),
        rotate: Some(true),
        verbose: None,
        bugreport: Some(false),
    };
    assert_eq!(
        screen_record_command("d", "/sdcard/v.mp4", &options),
        "-s d shell screenrecord --bit-rate 8000000 --size 1920x1080 --time-limit 30 --rotate /sdcard/v.mp4"
    );
    let defaults = ScreenRecordOptions::default();
    assert_eq!(
        screen_record_command("d", "/sdcard/v.mp4", &defaults),
        "-s d shell screenrecord /sdcard/v.mp4"
    );
    assert!(record_output_ok(""));
    assert!(record_output_ok("recording started"));
    assert!(!record_output_ok("some error"));
}

#[test]
fn error_messages() {
    assert_eq!(
        ADBError::CommandFailed("no device".to_string()).message(),
        "Command failed: no device"
    );
    assert_eq!(ADBError::Timeout("30s".to_string()).message(), "Timeout error: 30s");
    assert_eq!(ADBError::Parse("bad line".to_string()).message(), "Parse error: bad line");
    assert_eq!(ADBError::DeviceNotFound("x".to_string()).message(), "Device not found: x");
    assert_eq!(ADBError::IO("broken pipe".to_string()).message(), "IO error: broken pipe");
}
