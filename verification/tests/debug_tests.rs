use rust_adb::debug::cpu_total_token;
use rust_adb::debug::dumpheap_command;
use rust_adb::debug::get_logcat_presets;
use rust_adb::debug::jdwp_forward_command;
use rust_adb::debug::logcat_clear_command;
use rust_adb::debug::logcat_command;
use rust_adb::debug::parse_battery_level;
use rust_adb::debug::parse_memory_usage;
use rust_adb::debug::parse_network_stats;
use rust_adb::debug::parse_pid_output;
use rust_adb::debug::second_field;
use rust_adb::debug::start_trace_command;
use rust_adb::LogcatOptions;
use rust_adb::LogcatPreset;

#[test]
fn preset_error_only() {
    let p = LogcatPreset::error_only();
    assert_eq!(p.name, "errors");
    assert_eq!(p.description, "Show only error messages");
    assert_eq!(p.options.filters, vec!["*:E"]);
    assert_eq!(p.options.format.as_deref(), Some("time"));
    assert_eq!(p.options.buffer, None);
    assert!(!p.options.clear);
    assert!(!p.options.dump);
}

#[test]
fn preset_app_specific() {
    let p = LogcatPreset::app_specific("com.example");
    assert_eq!(p.name, "app_com.example");
    assert_eq!(p.description, "Show logs for package: com.example");
    assert_eq!(p.options.filters, vec!["com.example"]);
}

#[test]
fn preset_system_performance() {
    let p = LogcatPreset::system_performance();
    assert_eq!(p.name, "performance");
    assert_eq!(p.options.buffer.as_deref(), Some("system"));
    assert_eq!(
        p.options.filters,
        vec!["ActivityManager:I", "WindowManager:I", "SystemUI:I"]
    );
}

#[test]
fn preset_network_debug() {
    let p = LogcatPreset::network_debug();
    assert_eq!(p.name, "network");
    assert_eq!(
        p.options.filters,
        vec!["ConnectivityService:D", "NetworkManagement:D", "WifiStateMachine:D"]
    );
}

#[test]
fn preset_list() {
    let ps = get_logcat_presets();
    assert_eq!(ps.len(), 3);
    assert_eq!(ps[0].name, "errors");
    assert_eq!(ps[1].name, "performance");
    assert_eq!(ps[2].name, "network");
}

#[test]
fn logcat_command_assembly() {
    let options = LogcatOptions {
        buffer: Some("system".to_string()),
        format: Some("time".to_string()),
        filters: vec!["ActivityManager:I".to_string(), "*:S".to_string()],
        clear: true,
        dump: true,
    };
    assert_eq!(
        logcat_command("emu", &options),
        "-s emu logcat -b system -v time -d ActivityManager:I *:S"
    );
    let default_options = LogcatOptions::default();
    assert_eq!(logcat_command("emu", &default_options), "-s emu logcat -v time");
    assert_eq!(logcat_clear_command("emu"), "-s emu logcat -c");
}

#[test]
fn network_stats_from_proc() {
    let out = "\
Inter-|   Receive                                                |  Transmit
 face |bytes    packets errs drop fifo frame compressed multicast|bytes    packets errs drop fifo colls carrier compressed
    lo:  100      2    0    0    0     0          0         0      100      2    0    0    0     0       0          0
 wlan0: 123456    789    0    0    0     0          0         0    65432    321    0    0    0     0       0          0
";
    let stats = parse_network_stats(out);
    assert_eq!(stats.rx_bytes, 123456);
    assert_eq!(stats.rx_packets, 789);
    assert_eq!(stats.tx_bytes, 65432);
    assert_eq!(stats.tx_packets, 321);
}

#[test]
fn network_stats_absent_interface() {
    let stats = parse_network_stats("lo: 1 2 3\n");
    assert_eq!(stats.rx_bytes, 0);
    assert_eq!(stats.tx_packets, 0);
}

#[test]
fn cpu_token_extraction() {
    let out = "Load: 1.2 / 1.1 / 0.9\n 13% TOTAL: a b c d e f 27.5% x\n";
    assert_eq!(cpu_total_token(out).as_deref(), Some("27.5"));
    assert_eq!(cpu_total_token("no totals here"), None);
}

#[test]
fn memory_usage_extraction() {
    // the figure is read from the fifth column of the matching line
    let out = "header\nsummary of Used RAM: 123456K (others)\n";
    assert_eq!(parse_memory_usage(out), 123456);
    assert_eq!(parse_memory_usage("nothing"), 0);
}

#[test]
fn battery_level_extraction() {
    assert_eq!(parse_battery_level("noise\n  level: 55\n  level: 77\n"), 55);
    assert_eq!(parse_battery_level("no level anywhere"), 0);
    assert_eq!(parse_battery_level("level: x"), 0);
}

#[test]
fn pid_helpers() {
    assert_eq!(second_field("u0_a1 4321 rest of line").as_deref(), Some("4321"));
    assert_eq!(second_field("only"), None);
    assert_eq!(parse_pid_output(" 987 \n"), Some(987));
    assert_eq!(parse_pid_output("abc"), None);
}

#[test]
fn debug_commands() {
    assert_eq!(jdwp_forward_command("d", "4321"), "-s d forward tcp:8700 jdwp:4321");
    assert_eq!(dumpheap_command("d", 42, "/sdcard/h.hprof"), "-s d shell am dumpheap 42 /sdcard/h.hprof");
    assert_eq!(
        start_trace_command("d", 15),
        "-s d shell atrace --async_start -b 16000 -t 15 -c"
    );
}
