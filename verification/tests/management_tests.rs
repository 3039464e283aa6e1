use rust_adb::device_management::add_apk_size;
use rust_adb::device_management::apk_paths;
use rust_adb::device_management::backup_app_data_command;
use rust_adb::device_management::extract_permission_from_line;
use rust_adb::device_management::find_process_pid;
use rust_adb::device_management::grant_permission_command;
use rust_adb::device_management::kill_process_command;
use rust_adb::device_management::parse_app_permissions;
use rust_adb::device_management::parse_processes;
use rust_adb::device_management::set_component_state_command;
use rust_adb::device_management::start_app_command;
use rust_adb::device_management::start_app_failed;
use rust_adb::device_management::stat_size_command;

#[test]
fn permission_extraction() {
    assert_eq!(
        extract_permission_from_line("    android.permission.CAMERA: granted=true").as_deref(),
        Some("CAMERA:")
    );
    assert_eq!(extract_permission_from_line("nothing relevant"), None);
}

#[test]
fn app_permissions_split() {
    let dump = "\
    android.permission.CAMERA: granted=true
    android.permission.RECORD_AUDIO: granted=false
    android.permission.INTERNET: granted=true
    unrelated line
";
    let p = parse_app_permissions(dump, "com.example");
    assert_eq!(p.package_name, "com.example");
    assert_eq!(p.granted_permissions, vec!["CAMERA:", "INTERNET:"]);
    assert_eq!(p.denied_permissions, vec!["RECORD_AUDIO:"]);
    assert_eq!(p.requested_permissions, vec!["CAMERA:", "INTERNET:", "RECORD_AUDIO:"]);
    assert!(p.permissions.is_empty());
}

#[test]
fn process_table_parsing() {
    let out = "\
USER PID PPID VSZ RSS WCHAN ADDR S NAME
root 1 0 10000 2000 0 0 S init
u0_a10 1234 100 500000 80000 0 0 S com.example.app
shell bad-pid 1 2 3 4 5 6 name
short line
";
    let ps = parse_processes(out);
    assert_eq!(ps.len(), 2);
    assert_eq!(ps[0].pid, 1);
    assert_eq!(ps[0].user, "root");
    assert_eq!(ps[0].status, "S");
    assert_eq!(ps[0].name, "init");
    assert_eq!(ps[0].memory_usage, 0);
    assert_eq!(ps[1].pid, 1234);
    assert_eq!(ps[1].name, "com.example.app");
}

#[test]
fn process_pid_lookup() {
    let ps = parse_processes("HDR\nroot 1 0 0 0 0 0 S init\nu0 77 0 0 0 0 0 S com.app.main\n");
    assert_eq!(find_process_pid(&ps, "com.app"), Some(77));
    assert_eq!(find_process_pid(&ps, "init"), Some(1));
    assert_eq!(find_process_pid(&ps, "absent"), None);
}

#[test]
fn apk_path_listing() {
    let out = "package:/data/app/base.apk\nother\npackage: /data/app/split.apk \n";
    assert_eq!(apk_paths(out), vec!["/data/app/base.apk", "/data/app/split.apk"]);
}

#[test]
fn apk_size_accumulation() {
    assert_eq!(add_apk_size(10, " 4096 \n"), 4106);
    assert_eq!(add_apk_size(10, "not a size"), 10);
}

#[test]
fn start_app_failure_detection() {
    assert!(start_app_failed("** No activities found, error: monkey aborted"));
    assert!(!start_app_failed("Events injected: 1"));
}

#[test]
fn management_commands() {
    assert_eq!(
        grant_permission_command("d", "com.a", "android.permission.CAMERA"),
        "-s d shell pm grant com.a android.permission.CAMERA"
    );
    assert_eq!(kill_process_command("d", 4321), "-s d shell kill 4321");
    assert_eq!(stat_size_command("d", "/a/b.apk"), "-s d shell stat -c%s /a/b.apk");
    assert_eq!(
        backup_app_data_command("d", "com.a", "/tmp/b.ab"),
        "-s d backup -f /tmp/b.ab -apk com.a"
    );
    assert_eq!(set_component_state_command("d", "com.a/.M", true), "-s d shell pm enable com.a/.M");
    assert_eq!(
        set_component_state_command("d", "com.a/.M", false),
        "-s d shell pm disable com.a/.M"
    );
    assert_eq!(
        start_app_command("d", "com.a"),
        "-s d shell monkey -p com.a -c android.intent.category.LAUNCHER 1"
    );
}
