//! Storage, memory and network snapshots of a device, and the argument
//! strings of mirroring, backup and reboot commands.

use vstd::prelude::*;
use vstd::string::*;
use crate::debug::u64_field_or_zero;
use crate::text::append_i32_dec;
use crate::text::contains_seq;
use crate::text::fields_of;
use crate::text::int_str_of;
use crate::text::lines_of;
use crate::text::parse_u64;
use crate::text::split_char_of;
use crate::text::split_fields;
use crate::text::split_lines;
use crate::text::split_on_char;
use crate::text::starts_with_seq;
use crate::text::str_contains;
use crate::text::str_starts_with;
use crate::text::trim_str;
use crate::text::trimmed;

verus! {

/// The data-partition figures of a filesystem table, in kilobytes.
#[derive(Debug, Clone, PartialEq, Eq)]
pub struct StorageInfo {
    pub total: u64,
    pub used: u64,
    pub available: u64,
}

/// The totals of the kernel memory listing, in kilobytes.
#[derive(Debug, Clone, PartialEq, Eq)]
pub struct MemoryInfo {
    pub total: u64,
    pub available: u64,
}

/// A reduced network snapshot.
#[derive(Debug, Clone, PartialEq, Eq)]
pub struct NetworkInfo {
    pub wifi_connected: bool,
    pub mobile_connected: bool,
    pub ip_address: Option<String>,
}

pub ghost struct NetworkInfoView {
    pub wifi_connected: bool,
    pub mobile_connected: bool,
    pub ip_address: Option<Seq<char>>,
}

impl DeepView for NetworkInfo {
    type V = NetworkInfoView;

    open spec fn deep_view(&self) -> NetworkInfoView {
        NetworkInfoView {
            wifi_connected: self.wifi_connected,
            mobile_connected: self.mobile_connected,
            ip_address: self.ip_address.deep_view(),
        }
    }
}

/// The first line at or after `i` that names the data partition.
pub open spec fn first_data_line(ls: Seq<Seq<char>>, i: int) -> Option<Seq<char>>
    decreases ls.len() - i,
    when 0 <= i <= ls.len()
{
    if i >= ls.len() {
        None
    } else if contains_seq(ls[i], "/data"@) {
        Some(ls[i])
    } else {
        first_data_line(ls, i + 1)
    }
}

/// The storage figures of the first data-partition line of a filesystem
/// table: its second to fourth columns as numbers; zeros when the line
/// is missing or short.
pub open spec fn storage_info_of(out: Seq<char>) -> (StorageInfo) {
    match first_data_line(lines_of(out), 0) {
        Some(l) => {
            let ps = fields_of(l);
            if ps.len() >= 4 {
                StorageInfo {
                    total: u64_field_or_zero(ps[1]),
                    used: u64_field_or_zero(ps[2]),
                    available: u64_field_or_zero(ps[3]),
                }
            } else {
                StorageInfo { total: 0, used: 0, available: 0 }
            }
        },
        None => StorageInfo { total: 0, used: 0, available: 0 },
    }
}

pub fn parse_storage_info(output: &str) -> (r: StorageInfo)
    ensures
        r == storage_info_of(output@),
{
    let lines = split_lines(output);
    let ghost ls = lines_of(output@);
    let n = lines.len();
    let mut i: usize = 0;
    while i < n
        invariant
            lines.deep_view() == ls,
            n == ls.len(),
            n == lines@.len(),
            0 <= i <= n,
            ls == lines_of(output@),
            first_data_line(ls, 0) == first_data_line(ls, i as int),
        decreases n - i,
    {
        proof {
            assert(lines.deep_view()[i as int] == lines@[i as int]@);
        }
        let line = lines[i].as_str();
        if str_contains(line, "/data") {
            proof {
                assert(first_data_line(ls, i as int) == Some(ls[i as int]));
            }
            let parts = split_fields(line);
            proof {
                assert(parts.deep_view() == fields_of(ls[i as int]));
                assert(parts.deep_view().len() == parts@.len());
            }
            if parts.len() >= 4 {
                proof {
                    assert(parts.deep_view()[1] == parts@[1]@);
                    assert(parts.deep_view()[2] == parts@[2]@);
                    assert(parts.deep_view()[3] == parts@[3]@);
                }
                let total = match parse_u64(parts[1].as_str()) {
                    Some(v) => v,
                    None => 0,
                };
                let used = match parse_u64(parts[2].as_str()) {
                    Some(v) => v,
                    None => 0,
                };
                let available = match parse_u64(parts[3].as_str()) {
                    Some(v) => v,
                    None => 0,
                };
                return StorageInfo { total, used, available };
            }
            return StorageInfo { total: 0, used: 0, available: 0 };
        }
        i += 1;
    }
    StorageInfo { total: 0, used: 0, available: 0 }
}

/// The number in the second column of a memory listing line; zero when
/// the column is missing or not a number.
pub open spec fn memory_value_of(l: Seq<char>) -> u64 {
    let ws = fields_of(l);
    if ws.len() >= 2 {
        u64_field_or_zero(ws[1])
    } else {
        0
    }
}

pub fn extract_memory_value(line: &str) -> (r: u64)
    ensures
        r == memory_value_of(line@),
{
    let ws = split_fields(line);
    if ws.len() >= 2 {
        proof {
            assert(ws.deep_view()[1] == ws@[1]@);
        }
        match parse_u64(ws[1].as_str()) {
            Some(v) => v,
            None => 0,
        }
    } else {
        0
    }
}

/// How one line of the kernel memory listing changes the totals: a
/// total line sets the total, an available line the available figure.
pub open spec fn meminfo_step(st: MemoryInfo, l: Seq<char>) -> MemoryInfo {
    if starts_with_seq(l, "MemTotal:"@) {
        MemoryInfo { total: memory_value_of(l), ..st }
    } else if starts_with_seq(l, "MemAvailable:"@) {
        MemoryInfo { available: memory_value_of(l), ..st }
    } else {
        st
    }
}

pub open spec fn meminfo_scan(ls: Seq<Seq<char>>, i: int, st: MemoryInfo) -> MemoryInfo
    decreases ls.len() - i,
    when 0 <= i <= ls.len()
{
    if i >= ls.len() {
        st
    } else {
        meminfo_scan(ls, i + 1, meminfo_step(st, ls[i]))
    }
}

/// The totals that a whole kernel memory listing describes.
pub open spec fn memory_info_of(out: Seq<char>) -> MemoryInfo {
    meminfo_scan(lines_of(out), 0, MemoryInfo { total: 0, available: 0 })
}

pub fn parse_memory_info(output: &str) -> (r: MemoryInfo)
    ensures
        r == memory_info_of(output@),
{
    let lines = split_lines(output);
    let ghost ls = lines_of(output@);
    let mut info = MemoryInfo { total: 0, available: 0 };
    let n = lines.len();
    let mut i: usize = 0;
    while i < n
        invariant
            lines.deep_view() == ls,
            n == ls.len(),
            n == lines@.len(),
            0 <= i <= n,
            meminfo_scan(ls, i as int, info) == memory_info_of(output@),
        decreases n - i,
    {
        proof {
            assert(lines.deep_view()[i as int] == lines@[i as int]@);
        }
        let line = lines[i].as_str();
        if str_starts_with(line, "MemTotal:") {
            info.total = extract_memory_value(line);
        } else if str_starts_with(line, "MemAvailable:") {
            info.available = extract_memory_value(line);
        }
        i += 1;
    }
    info
}

/// The first line at or after `i` that mentions an interface address
/// assignment.
pub open spec fn first_ipaddr_line(ls: Seq<Seq<char>>, i: int) -> Option<Seq<char>>
    decreases ls.len() - i,
    when 0 <= i <= ls.len()
{
    if i >= ls.len() {
        None
    } else if contains_seq(ls[i], "ipaddr"@) {
        Some(ls[i])
    } else {
        first_ipaddr_line(ls, i + 1)
    }
}

/// The address named by the first address-assignment line of a
/// connectivity dump: the trimmed text after its first equals sign.
pub open spec fn network_ip_of(out: Seq<char>) -> Option<Seq<char>> {
    match first_ipaddr_line(lines_of(out), 0) {
        Some(l) => {
            let ps = split_char_of(l, '=');
            if ps.len() >= 2 {
                Some(trimmed(ps[1]))
            } else {
                None
            }
        },
        None => None,
    }
}

pub fn extract_ip_from_network_info(network_info: &str) -> (r: Option<String>)
    ensures
        r is None <==> network_ip_of(network_info@) is None,
        r matches Some(ip) ==> network_ip_of(network_info@) == Some(ip@),
{
    let lines = split_lines(network_info);
    let ghost ls = lines_of(network_info@);
    let n = lines.len();
    let mut i: usize = 0;
    while i < n
        invariant
            lines.deep_view() == ls,
            n == ls.len(),
            n == lines@.len(),
            0 <= i <= n,
            ls == lines_of(network_info@),
            first_ipaddr_line(ls, 0) == first_ipaddr_line(ls, i as int),
        decreases n - i,
    {
        proof {
            assert(lines.deep_view()[i as int] == lines@[i as int]@);
        }
        let line = lines[i].as_str();
        if str_contains(line, "ipaddr") {
            proof {
                assert(first_ipaddr_line(ls, i as int) == Some(ls[i as int]));
            }
            let ps = split_on_char(line, '=');
            proof {
                assert(ps.deep_view() == split_char_of(ls[i as int], '='));
                assert(ps.deep_view().len() == ps@.len());
            }
            if ps.len() >= 2 {
                proof {
                    assert(ps.deep_view()[1] == ps@[1]@);
                }
                return Some(trim_str(ps[1].as_str()));
            }
            return None;
        }
        i += 1;
    }
    None
}

/// The reduced network snapshot assembled from the wireless and
/// connectivity dumps.
pub fn build_network_info(wifi_info: &str, network_info: &str) -> (r: NetworkInfo)
    ensures
        r.deep_view().wifi_connected == contains_seq(wifi_info@, "Wi-Fi is enabled"@),
        r.deep_view().mobile_connected == contains_seq(network_info@, "mobile"@),
        r.deep_view().ip_address == network_ip_of(network_info@),
{
    NetworkInfo {
        wifi_connected: str_contains(wifi_info, "Wi-Fi is enabled"),
        mobile_connected: str_contains(network_info, "mobile"),
        ip_address: extract_ip_from_network_info(network_info),
    }
}

/// The mirroring argument string; a missing display choice means the
/// first display.
pub open spec fn mirroring_command_of(device: Seq<char>, display_id: Option<i32>) -> Seq<char> {
    let display: int = match display_id {
        Some(d) => d as int,
        None => 0,
    };
    "-s "@ + device
        + " shell am start -n com.android.systemui/.screenrecord.ScreenRecordService --ei display "@
        + int_str_of(display)
}

pub fn enable_device_mirroring_command(device: &str, display_id: Option<i32>) -> (r: String)
    ensures
        r@ == mirroring_command_of(device@, display_id),
{
    let display: i32 = match display_id {
        Some(d) => d,
        None => 0,
    };
    let mut s = "-s ".to_owned();
    s.append(device);
    s.append(
        " shell am start -n com.android.systemui/.screenrecord.ScreenRecordService --ei display ",
    );
    append_i32_dec(&mut s, display);
    s
}

/// The argument string that stops the mirroring service.
pub fn disable_device_mirroring_command(device: &str) -> (r: String)
    ensures
        r@ == "-s "@ + device@ + " shell am force-stop com.android.systemui"@,
{
    let mut s = "-s ".to_owned();
    s.append(device);
    s.append(" shell am force-stop com.android.systemui");
    s
}

/// The full-backup argument string: package files and shared storage
/// each left out when not asked for, then the output file.
pub open spec fn device_backup_command_of(
    device: Seq<char>,
    output_path: Seq<char>,
    include_apks: bool,
    include_shared: bool,
) -> Seq<char> {
    let a = "-s "@ + device + " backup"@;
    let b = if !include_apks {
        a + " -noapk"@
    } else {
        a
    };
    let c = if !include_shared {
        b + " -noshared"@
    } else {
        b
    };
    c + " -f "@ + output_path
}

pub fn create_device_backup_command(
    device: &str,
    output_path: &str,
    include_apks: bool,
    include_shared: bool,
) -> (r: String)
    ensures
        r@ == device_backup_command_of(device@, output_path@, include_apks, include_shared),
{
    let mut s = "-s ".to_owned();
    s.append(device);
    s.append(" backup");
    if !include_apks {
        s.append(" -noapk");
    }
    if !include_shared {
        s.append(" -noshared");
    }
    s.append(" -f ");
    s.append(output_path);
    s
}

/// The argument string that restores a device from a backup file.
pub fn restore_device_backup_command(device: &str, backup_path: &str) -> (r: String)
    ensures
        r@ == "-s "@ + device@ + " restore "@ + backup_path@,
{
    let mut s = "-s ".to_owned();
    s.append(device);
    s.append(" restore ");
    s.append(backup_path);
    s
}

/// The argument string that lists the filesystem table.
pub fn storage_info_command(device: &str) -> (r: String)
    ensures
        r@ == "-s "@ + device@ + " shell df"@,
{
    let mut s = "-s ".to_owned();
    s.append(device);
    s.append(" shell df");
    s
}

/// The argument string that reads the kernel memory listing.
pub fn memory_info_command(device: &str) -> (r: String)
    ensures
        r@ == "-s "@ + device@ + " shell cat /proc/meminfo"@,
{
    let mut s = "-s ".to_owned();
    s.append(device);
    s.append(" shell cat /proc/meminfo");
    s
}

/// The argument string that turns position mocking on or off.
pub fn set_location_mock_command(device: &str, enabled: bool) -> (r: String)
    ensures
        enabled ==> r@ == "-s "@ + device@ + " shell settings put secure mock_location "@ + "1"@,
        !enabled ==> r@ == "-s "@ + device@ + " shell settings put secure mock_location "@ + "0"@,
{
    let mut s = "-s ".to_owned();
    s.append(device);
    s.append(" shell settings put secure mock_location ");
    if enabled {
        s.append("1");
    } else {
        s.append("0");
    }
    s
}

/// The argument string that restarts a device.
pub fn reboot_device_command(device: &str) -> (r: String)
    ensures
        r@ == "-s "@ + device@ + " reboot"@,
{
    let mut s = "-s ".to_owned();
    s.append(device);
    s.append(" reboot");
    s
}

/// The argument string that restarts a device into recovery.
pub fn reboot_recovery_command(device: &str) -> (r: String)
    ensures
        r@ == "-s "@ + device@ + " reboot recovery"@,
{
    let mut s = "-s ".to_owned();
    s.append(device);
    s.append(" reboot recovery");
    s
}

/// The argument string that restarts a device into its loader.
pub fn reboot_bootloader_command(device: &str) -> (r: String)
    ensures
        r@ == "-s "@ + device@ + " reboot bootloader"@,
{
    let mut s = "-s ".to_owned();
    s.append(device);
    s.append(" reboot bootloader");
    s
}

} // verus!
