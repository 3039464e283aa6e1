//! System and battery snapshots, parsed from the property listing and the
//! battery dump.  Battery temperature is kept in tenths of a degree and
//! voltage in millivolts, exactly as the dump reports them.

use vstd::prelude::*;
use vstd::string::*;
use crate::text::contains_seq;
use crate::text::lines_of;
use crate::text::parse_i32;
use crate::text::parse_i32_of;
use crate::text::split_char_of;
use crate::text::split_lines;
use crate::text::split_on_char;
use crate::text::split_on_str;
use crate::text::split_str_of;
use crate::text::starts_with_seq;
use crate::text::str_contains;
use crate::text::str_starts_with;
use crate::text::strip_trailing_of;
use crate::text::trim_end_matches_char;
use crate::text::trim_str;
use crate::text::trimmed;

verus! {

/// The build and platform facts that the property listing yields.
#[derive(Debug, Clone, PartialEq, Eq)]
pub struct SystemInfo {
    pub android_version: String,
    pub sdk_version: String,
    pub device_arch: String,
    pub security_patch: String,
    pub build_fingerprint: String,
    pub kernel_version: String,
    pub bootloader: String,
    pub baseband: String,
    pub system_partition: String,
    pub encryption_state: String,
}

pub ghost struct SystemInfoView {
    pub android_version: Seq<char>,
    pub sdk_version: Seq<char>,
    pub device_arch: Seq<char>,
    pub security_patch: Seq<char>,
    pub build_fingerprint: Seq<char>,
    pub kernel_version: Seq<char>,
    pub bootloader: Seq<char>,
    pub baseband: Seq<char>,
    pub system_partition: Seq<char>,
    pub encryption_state: Seq<char>,
}

impl DeepView for SystemInfo {
    type V = SystemInfoView;

    open spec fn deep_view(&self) -> SystemInfoView {
        SystemInfoView {
            android_version: self.android_version@,
            sdk_version: self.sdk_version@,
            device_arch: self.device_arch@,
            security_patch: self.security_patch@,
            build_fingerprint: self.build_fingerprint@,
            kernel_version: self.kernel_version@,
            bootloader: self.bootloader@,
            baseband: self.baseband@,
            system_partition: self.system_partition@,
            encryption_state: self.encryption_state@,
        }
    }
}

/// A battery snapshot.  `temperature` is in tenths of a degree and
/// `voltage` in millivolts, the raw integers of the battery dump.
#[derive(Debug, Clone, PartialEq, Eq)]
pub struct BatteryInfo {
    pub level: i32,
    pub temperature: i32,
    pub voltage: i32,
    pub current: Option<i32>,
    pub status: String,
    pub health: String,
    pub is_charging: bool,
    pub power_source: String,
    pub technology: String,
    pub capacity: Option<i32>,
}

pub ghost struct BatteryInfoView {
    pub level: int,
    pub temperature: int,
    pub voltage: int,
    pub current: Option<int>,
    pub status: Seq<char>,
    pub health: Seq<char>,
    pub is_charging: bool,
    pub power_source: Seq<char>,
    pub technology: Seq<char>,
    pub capacity: Option<int>,
}

impl DeepView for BatteryInfo {
    type V = BatteryInfoView;

    open spec fn deep_view(&self) -> BatteryInfoView {
        BatteryInfoView {
            level: self.level as int,
            temperature: self.temperature as int,
            voltage: self.voltage as int,
            current: match self.current {
                Some(v) => Some(v as int),
                None => None,
            },
            status: self.status@,
            health: self.health@,
            is_charging: self.is_charging,
            power_source: self.power_source@,
            technology: self.technology@,
            capacity: match self.capacity {
                Some(v) => Some(v as int),
                None => None,
            },
        }
    }
}

/// The value of a `[key]: [value]` property line: what stands after the
/// first `]: [`, with trailing right brackets removed; empty when the
/// line has no such separator.
pub open spec fn extract_prop_value_of(l: Seq<char>) -> Seq<char> {
    let ps = split_str_of(l, "]: ["@);
    if ps.len() >= 2 {
        strip_trailing_of(ps[1], ']')
    } else {
        Seq::empty()
    }
}

pub fn extract_prop_value(line: &str) -> (r: String)
    ensures
        r@ == extract_prop_value_of(line@),
{
    proof {
        reveal_strlit("]: [");
    }
    let ps = split_on_str(line, "]: [");
    if ps.len() >= 2 {
        proof {
            assert(ps.deep_view()[1] == ps@[1]@);
        }
        trim_end_matches_char(ps[1].as_str(), ']')
    } else {
        String::new()
    }
}

/// The trimmed text after the first colon of a `key: value` line; empty
/// when the line has no colon.
pub open spec fn extract_value_of(l: Seq<char>) -> Seq<char> {
    let ps = split_char_of(l, ':');
    if ps.len() >= 2 {
        trimmed(ps[1])
    } else {
        Seq::empty()
    }
}

pub fn extract_value(line: &str) -> (r: String)
    ensures
        r@ == extract_value_of(line@),
{
    let ps = split_on_char(line, ':');
    if ps.len() >= 2 {
        proof {
            assert(ps.deep_view()[1] == ps@[1]@);
        }
        trim_str(ps[1].as_str())
    } else {
        String::new()
    }
}

/// The number after the first colon of a `key: value` line, zero when
/// there is no colon or the text is not a number in range.
pub open spec fn parse_int_value_of(l: Seq<char>) -> int {
    let ps = split_char_of(l, ':');
    if ps.len() >= 2 {
        match parse_i32_of(trimmed(ps[1])) {
            Some(v) => v as int,
            None => 0,
        }
    } else {
        0
    }
}

pub fn parse_int_value(line: &str) -> (r: i32)
    ensures
        r as int == parse_int_value_of(line@),
{
    let ps = split_on_char(line, ':');
    if ps.len() >= 2 {
        proof {
            assert(ps.deep_view()[1] == ps@[1]@);
        }
        let t = trim_str(ps[1].as_str());
        match parse_i32(t.as_str()) {
            Some(v) => v,
            None => 0,
        }
    } else {
        0
    }
}

pub open spec fn empty_system_info_view() -> SystemInfoView {
    SystemInfoView {
        android_version: Seq::empty(),
        sdk_version: Seq::empty(),
        device_arch: Seq::empty(),
        security_patch: Seq::empty(),
        build_fingerprint: Seq::empty(),
        kernel_version: Seq::empty(),
        bootloader: Seq::empty(),
        baseband: Seq::empty(),
        system_partition: Seq::empty(),
        encryption_state: Seq::empty(),
    }
}

/// How one property line changes the snapshot being filled: the first
/// recognised key name the line contains decides the field.
pub open spec fn sysinfo_step(st: SystemInfoView, l: Seq<char>) -> SystemInfoView {
    if contains_seq(l, "[ro.build.version.release]"@) {
        SystemInfoView { android_version: extract_prop_value_of(l), ..st }
    } else if contains_seq(l, "[ro.build.version.sdk]"@) {
        SystemInfoView { sdk_version: extract_prop_value_of(l), ..st }
    } else if contains_seq(l, "[ro.product.cpu.abi]"@) {
        SystemInfoView { device_arch: extract_prop_value_of(l), ..st }
    } else if contains_seq(l, "[ro.build.version.security_patch]"@) {
        SystemInfoView { security_patch: extract_prop_value_of(l), ..st }
    } else if contains_seq(l, "[ro.build.fingerprint]"@) {
        SystemInfoView { build_fingerprint: extract_prop_value_of(l), ..st }
    } else if contains_seq(l, "[ro.build.version.kernel]"@) {
        SystemInfoView { kernel_version: extract_prop_value_of(l), ..st }
    } else if contains_seq(l, "[ro.bootloader]"@) {
        SystemInfoView { bootloader: extract_prop_value_of(l), ..st }
    } else if contains_seq(l, "[ro.build.expect.baseband]"@) {
        SystemInfoView { baseband: extract_prop_value_of(l), ..st }
    } else if contains_seq(l, "[ro.build.system_root_image]"@) {
        SystemInfoView { system_partition: extract_prop_value_of(l), ..st }
    } else if contains_seq(l, "[ro.crypto.state]"@) {
        SystemInfoView { encryption_state: extract_prop_value_of(l), ..st }
    } else {
        st
    }
}

pub open spec fn sysinfo_scan(ls: Seq<Seq<char>>, i: int, st: SystemInfoView) -> SystemInfoView
    decreases ls.len() - i,
    when 0 <= i <= ls.len()
{
    if i >= ls.len() {
        st
    } else {
        sysinfo_scan(ls, i + 1, sysinfo_step(st, ls[i]))
    }
}

/// The snapshot that a whole property listing describes.
pub open spec fn system_info_of(out: Seq<char>) -> SystemInfoView {
    sysinfo_scan(lines_of(out), 0, empty_system_info_view())
}

pub fn parse_system_info(props: &str) -> (r: SystemInfo)
    ensures
        r.deep_view() == system_info_of(props@),
{
    let lines = split_lines(props);
    let ghost ls = lines_of(props@);
    let mut info = SystemInfo {
        android_version: String::new(),
        sdk_version: String::new(),
        device_arch: String::new(),
        security_patch: String::new(),
        build_fingerprint: String::new(),
        kernel_version: String::new(),
        bootloader: String::new(),
        baseband: String::new(),
        system_partition: String::new(),
        encryption_state: String::new(),
    };
    let n = lines.len();
    let mut i: usize = 0;
    while i < n
        invariant
            lines.deep_view() == ls,
            n == ls.len(),
            n == lines@.len(),
            0 <= i <= n,
            sysinfo_scan(ls, i as int, info.deep_view()) == system_info_of(props@),
        decreases n - i,
    {
        proof {
            assert(lines.deep_view()[i as int] == lines@[i as int]@);
        }
        let line = lines[i].as_str();
        if str_contains(line, "[ro.build.version.release]") {
            info.android_version = extract_prop_value(line);
        } else if str_contains(line, "[ro.build.version.sdk]") {
            info.sdk_version = extract_prop_value(line);
        } else if str_contains(line, "[ro.product.cpu.abi]") {
            info.device_arch = extract_prop_value(line);
        } else if str_contains(line, "[ro.build.version.security_patch]") {
            info.security_patch = extract_prop_value(line);
        } else if str_contains(line, "[ro.build.fingerprint]") {
            info.build_fingerprint = extract_prop_value(line);
        } else if str_contains(line, "[ro.build.version.kernel]") {
            info.kernel_version = extract_prop_value(line);
        } else if str_contains(line, "[ro.bootloader]") {
            info.bootloader = extract_prop_value(line);
        } else if str_contains(line, "[ro.build.expect.baseband]") {
            info.baseband = extract_prop_value(line);
        } else if str_contains(line, "[ro.build.system_root_image]") {
            info.system_partition = extract_prop_value(line);
        } else if str_contains(line, "[ro.crypto.state]") {
            info.encryption_state = extract_prop_value(line);
        }
        i += 1;
    }
    info
}

/// The charging source that a `plugged:` value names.
pub open spec fn plug_source_of(v: int) -> Seq<char> {
    if v == 1 {
        "AC"@
    } else if v == 2 {
        "USB"@
    } else if v == 4 {
        "Wireless"@
    } else {
        "Unknown"@
    }
}

pub open spec fn empty_battery_info_view() -> BatteryInfoView {
    BatteryInfoView {
        level: 0,
        temperature: 0,
        voltage: 0,
        current: None,
        status: Seq::empty(),
        health: Seq::empty(),
        is_charging: false,
        power_source: Seq::empty(),
        technology: Seq::empty(),
        capacity: None,
    }
}

/// How one trimmed line of the battery dump changes the snapshot being
/// filled: the first recognised key the line starts with decides the
/// field; a `plugged:` line sets both the charging flag and its source.
pub open spec fn battery_step(st: BatteryInfoView, l: Seq<char>) -> BatteryInfoView {
    let t = trimmed(l);
    if starts_with_seq(t, "level:"@) {
        BatteryInfoView { level: parse_int_value_of(t), ..st }
    } else if starts_with_seq(t, "temperature:"@) {
        BatteryInfoView { temperature: parse_int_value_of(t), ..st }
    } else if starts_with_seq(t, "voltage:"@) {
        BatteryInfoView { voltage: parse_int_value_of(t), ..st }
    } else if starts_with_seq(t, "current now:"@) {
        BatteryInfoView { current: Some(parse_int_value_of(t)), ..st }
    } else if starts_with_seq(t, "status:"@) {
        BatteryInfoView { status: extract_value_of(t), ..st }
    } else if starts_with_seq(t, "health:"@) {
        BatteryInfoView { health: extract_value_of(t), ..st }
    } else if starts_with_seq(t, "plugged:"@) {
        BatteryInfoView {
            is_charging: parse_int_value_of(t) != 0,
            power_source: plug_source_of(parse_int_value_of(t)),
            ..st
        }
    } else if starts_with_seq(t, "technology:"@) {
        BatteryInfoView { technology: extract_value_of(t), ..st }
    } else if starts_with_seq(t, "capacity:"@) {
        BatteryInfoView { capacity: Some(parse_int_value_of(t)), ..st }
    } else {
        st
    }
}

pub open spec fn battery_scan(ls: Seq<Seq<char>>, i: int, st: BatteryInfoView) -> BatteryInfoView
    decreases ls.len() - i,
    when 0 <= i <= ls.len()
{
    if i >= ls.len() {
        st
    } else {
        battery_scan(ls, i + 1, battery_step(st, ls[i]))
    }
}

/// The snapshot that a whole battery dump describes.
pub open spec fn battery_info_of(out: Seq<char>) -> BatteryInfoView {
    battery_scan(lines_of(out), 0, empty_battery_info_view())
}

pub fn parse_battery_info(output: &str) -> (r: BatteryInfo)
    ensures
        r.deep_view() == battery_info_of(output@),
{
    let lines = split_lines(output);
    let ghost ls = lines_of(output@);
    let mut info = BatteryInfo {
        level: 0,
        temperature: 0,
        voltage: 0,
        current: None,
        status: String::new(),
        health: String::new(),
        is_charging: false,
        power_source: String::new(),
        technology: String::new(),
        capacity: None,
    };
    let n = lines.len();
    let mut i: usize = 0;
    while i < n
        invariant
            lines.deep_view() == ls,
            n == ls.len(),
            n == lines@.len(),
            0 <= i <= n,
            battery_scan(ls, i as int, info.deep_view()) == battery_info_of(output@),
        decreases n - i,
    {
        proof {
            assert(lines.deep_view()[i as int] == lines@[i as int]@);
        }
        let t = trim_str(lines[i].as_str());
        let line = t.as_str();
        if str_starts_with(line, "level:") {
            info.level = parse_int_value(line);
        } else if str_starts_with(line, "temperature:") {
            info.temperature = parse_int_value(line);
        } else if str_starts_with(line, "voltage:") {
            info.voltage = parse_int_value(line);
        } else if str_starts_with(line, "current now:") {
            info.current = Some(parse_int_value(line));
        } else if str_starts_with(line, "status:") {
            info.status = extract_value(line);
        } else if str_starts_with(line, "health:") {
            info.health = extract_value(line);
        } else if str_starts_with(line, "plugged:") {
            let v = parse_int_value(line);
            info.is_charging = v != 0;
            info.power_source = if v == 1 {
                "AC".to_owned()
            } else if v == 2 {
                "USB".to_owned()
            } else if v == 4 {
                "Wireless".to_owned()
            } else {
                "Unknown".to_owned()
            };
        } else if str_starts_with(line, "technology:") {
            info.technology = extract_value(line);
        } else if str_starts_with(line, "capacity:") {
            info.capacity = Some(parse_int_value(line));
        }
        i += 1;
    }
    info
}

/// The argument string that dumps the battery state of a device.
pub fn get_battery_info_command(device: &str) -> (r: String)
    ensures
        r@ == "-s "@ + device@ + " shell dumpsys battery"@,
{
    let mut s = "-s ".to_owned();
    s.append(device);
    s.append(" shell dumpsys battery");
    s
}

} // verus!
