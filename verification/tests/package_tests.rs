use rust_adb::package::get_package_info_command;
use rust_adb::package::get_package_list_command;
use rust_adb::package::install_app_command;
use rust_adb::package::parse_detailed_package_info;
use rust_adb::package::parse_package_line;
use rust_adb::package::parse_package_list;
use rust_adb::package::uninstall_app_command;

#[test]
fn package_line_valid() {
    let p = parse_package_line("package:/data/app/com.example.app/base.apk=com.example.app")
        .unwrap();
    assert_eq!(p.name, "com.example.app");
    assert_eq!(p.version_code, "");
    assert_eq!(p.version_name, "");
    assert!(!p.is_system);
    assert_eq!(p.install_time, None);
    assert_eq!(p.size, None);
}

#[test]
fn package_line_invalid() {
    assert!(parse_package_line("no equals sign").is_none());
    assert!(parse_package_line("a=b=c").is_none());
}

#[test]
fn package_list_output() {
    let out = "package:/data/a.apk=com.a\nnoise\npackage:/data/b.apk=com.b\n";
    let ps = parse_package_list(out);
    assert_eq!(ps.len(), 2);
    assert_eq!(ps[0].name, "com.a");
    assert_eq!(ps[1].name, "com.b");
}

#[test]
fn detailed_package_info_fields() {
    let dump = "\
Packages:
  Package [com.example.app] (12345):
    codePath=/system/app/Example
    versionCode=42 minSdk=29 targetSdk=33
    versionName=1.2.3
    firstInstallTime=2023-01-01 10:00:00
    lastUpdateTime=2023-06-01 12:00:00
";
    let p = parse_detailed_package_info(dump, "com.example.app");
    assert_eq!(p.name, "com.example.app");
    assert_eq!(p.version_code, "42 minSdk");
    assert_eq!(p.version_name, "1.2.3");
    assert!(p.is_system);
    assert_eq!(p.install_time.as_deref(), Some("2023-01-01 10:00:00"));
    assert_eq!(p.update_time.as_deref(), Some("2023-06-01 12:00:00"));
    assert_eq!(p.size, Some(0));
}

#[test]
fn detailed_package_info_not_system() {
    let dump = "codePath=/data/app/Example\nversionName=9";
    let p = parse_detailed_package_info(dump, "com.x");
    assert!(!p.is_system);
    assert_eq!(p.version_name, "9");
    assert_eq!(p.version_code, "");
}

#[test]
fn package_commands() {
    assert_eq!(get_package_list_command("d"), "-s d shell pm list packages -f");
    assert_eq!(get_package_info_command("d", "com.a"), "-s d shell dumpsys package com.a");
    assert_eq!(install_app_command("d", "/tmp/a.apk"), "-s d install -r /tmp/a.apk");
    assert_eq!(uninstall_app_command("d", "com.a"), "-s d uninstall com.a");
}
