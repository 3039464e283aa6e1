use rust_adb::system_info::extract_prop_value;
use rust_adb::system_info::extract_value;
use rust_adb::system_info::get_battery_info_command;
use rust_adb::system_info::parse_battery_info;
use rust_adb::system_info::parse_int_value;
use rust_adb::system_info::parse_system_info;

#[test]
fn prop_value_extraction() {
    assert_eq!(extract_prop_value("[ro.build.version.release]: [13]"), "13");
    assert_eq!(extract_prop_value("no brackets here"), "");
    assert_eq!(extract_prop_value("[k]: [v]]]"), "v");
}

#[test]
fn plain_value_extraction() {
    assert_eq!(extract_value("status: Charging"), "Charging");
    assert_eq!(extract_value("nocolon"), "");
    assert_eq!(parse_int_value("level: 42"), 42);
    assert_eq!(parse_int_value("level: abc"), 0);
    assert_eq!(parse_int_value("bare"), 0);
    assert_eq!(parse_int_value("current now: -1500"), -1500);
}

#[test]
fn system_info_from_props() {
    let props = "\
[ro.build.version.release]: [13]
[ro.build.version.sdk]: [33]
[ro.product.cpu.abi]: [arm64-v8a]
[ro.build.version.security_patch]: [2023-05-05]
[ro.build.fingerprint]: [google/raven/raven:13/TQ2A/release-keys]
[ro.bootloader]: [slider-1.2]
[ro.crypto.state]: [encrypted]
";
    let info = parse_system_info(props);
    assert_eq!(info.android_version, "13");
    assert_eq!(info.sdk_version, "33");
    assert_eq!(info.device_arch, "arm64-v8a");
    assert_eq!(info.security_patch, "2023-05-05");
    assert_eq!(info.build_fingerprint, "google/raven/raven:13/TQ2A/release-keys");
    assert_eq!(info.bootloader, "slider-1.2");
    assert_eq!(info.encryption_state, "encrypted");
    assert_eq!(info.kernel_version, "");
    assert_eq!(info.baseband, "");
    assert_eq!(info.system_partition, "");
}

#[test]
fn battery_info_from_dump() {
    let dump = "\
Current Battery Service state:
  AC powered: false
  USB powered: true
  level: 87
  temperature: 271
  voltage: 4123
  current now: -200000
  status: 2
  health: 2
  plugged: 2
  technology: Li-ion
  capacity: 4300
";
    let b = parse_battery_info(dump);
    assert_eq!(b.level, 87);
    assert_eq!(b.temperature, 271);
    assert_eq!(b.voltage, 4123);
    assert_eq!(b.current, Some(-200000));
    assert_eq!(b.status, "2");
    assert_eq!(b.health, "2");
    assert!(b.is_charging);
    assert_eq!(b.power_source, "USB");
    assert_eq!(b.technology, "Li-ion");
    assert_eq!(b.capacity, Some(4300));
}

#[test]
fn battery_power_sources() {
    assert_eq!(parse_battery_info("plugged: 1").power_source, "AC");
    assert_eq!(parse_battery_info("plugged: 4").power_source, "Wireless");
    assert_eq!(parse_battery_info("plugged: 9").power_source, "Unknown");
    let unplugged = parse_battery_info("plugged: 0");
    assert!(!unplugged.is_charging);
    assert_eq!(unplugged.power_source, "Unknown");
}

#[test]
fn battery_defaults_on_empty_dump() {
    let b = parse_battery_info("");
    assert_eq!(b.level, 0);
    assert_eq!(b.temperature, 0);
    assert_eq!(b.current, None);
    assert_eq!(b.capacity, None);
    assert!(!b.is_charging);
    assert_eq!(b.status, "");
}

#[test]
fn battery_command() {
    assert_eq!(get_battery_info_command("dev"), "-s dev shell dumpsys battery");
}
