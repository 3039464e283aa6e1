//! Debugging helpers: logcat invocation options and presets, the
//! performance-output parsers, and the argument strings of the debug
//! commands.

use vstd::prelude::*;
use vstd::string::*;
use crate::text::append_u64_dec;
use crate::text::contains_seq;
use crate::text::dec_str_of;
use crate::text::fields_of;
use crate::text::lines_of;
use crate::text::parse_u32;
use crate::text::parse_u32_of;
use crate::text::parse_u64;
use crate::text::parse_u64_of;
use crate::text::split_char_of;
use crate::text::split_fields;
use crate::text::split_lines;
use crate::text::split_on_char;
use crate::text::str_contains;
use crate::text::strip_trailing_of;
use crate::text::trim_end_matches_char;
use crate::text::trim_str;
use crate::text::trimmed;
use crate::system_info::parse_int_value;
use crate::system_info::parse_int_value_of;

verus! {

/// How a logcat run is shaped: buffer, output format, filter specs, and
/// whether to clear first or dump and exit.
#[derive(Debug, Clone, PartialEq, Eq)]
pub struct LogcatOptions {
    pub buffer: Option<String>,
    pub format: Option<String>,
    pub filters: Vec<String>,
    pub clear: bool,
    pub dump: bool,
}

pub ghost struct LogcatOptionsView {
    pub buffer: Option<Seq<char>>,
    pub format: Option<Seq<char>>,
    pub filters: Seq<Seq<char>>,
    pub clear: bool,
    pub dump: bool,
}

impl DeepView for LogcatOptions {
    type V = LogcatOptionsView;

    open spec fn deep_view(&self) -> LogcatOptionsView {
        LogcatOptionsView {
            buffer: self.buffer.deep_view(),
            format: self.format.deep_view(),
            filters: self.filters.deep_view(),
            clear: self.clear,
            dump: self.dump,
        }
    }
}

impl Default for LogcatOptions {
    /// The default logcat shape: time-stamped format, no buffer choice,
    /// no filters, no clearing, no dump.
    fn default() -> (r: LogcatOptions)
        ensures
            r.deep_view().buffer is None,
            r.deep_view().format == Some("time"@),
            r.deep_view().filters == Seq::<Seq<char>>::empty(),
            !r.deep_view().clear,
            !r.deep_view().dump,
    {
        let r = LogcatOptions {
            buffer: None,
            format: Some("time".to_owned()),
            filters: Vec::new(),
            clear: false,
            dump: false,
        };
        proof {
            assert(r.filters.deep_view() =~= Seq::<Seq<char>>::empty());
        }
        r
    }
}

/// A named logcat shape.
#[derive(Debug, Clone, PartialEq, Eq)]
pub struct LogcatPreset {
    pub name: String,
    pub description: String,
    pub options: LogcatOptions,
}

pub ghost struct LogcatPresetView {
    pub name: Seq<char>,
    pub description: Seq<char>,
    pub options: LogcatOptionsView,
}

impl DeepView for LogcatPreset {
    type V = LogcatPresetView;

    open spec fn deep_view(&self) -> LogcatPresetView {
        LogcatPresetView {
            name: self.name@,
            description: self.description@,
            options: self.options.deep_view(),
        }
    }
}

pub open spec fn is_error_only_preset(p: LogcatPresetView) -> bool {
    &&& p.name == "errors"@
    &&& p.description == "Show only error messages"@
    &&& p.options.buffer is None
    &&& p.options.format == Some("time"@)
    &&& p.options.filters == seq!["*:E"@]
    &&& !p.options.clear
    &&& !p.options.dump
}

pub open spec fn is_app_specific_preset(p: LogcatPresetView, package: Seq<char>) -> bool {
    &&& p.name == "app_"@ + package
    &&& p.description == "Show logs for package: "@ + package
    &&& p.options.buffer is None
    &&& p.options.format == Some("time"@)
    &&& p.options.filters == seq![package]
    &&& !p.options.clear
    &&& !p.options.dump
}

pub open spec fn is_system_performance_preset(p: LogcatPresetView) -> bool {
    &&& p.name == "performance"@
    &&& p.description == "Show system performance related logs"@
    &&& p.options.buffer == Some("system"@)
    &&& p.options.format == Some("time"@)
    &&& p.options.filters == seq!["ActivityManager:I"@, "WindowManager:I"@, "SystemUI:I"@]
    &&& !p.options.clear
    &&& !p.options.dump
}

pub open spec fn is_network_debug_preset(p: LogcatPresetView) -> bool {
    &&& p.name == "network"@
    &&& p.description == "Show network related logs"@
    &&& p.options.buffer is None
    &&& p.options.format == Some("time"@)
    &&& p.options.filters == seq![
        "ConnectivityService:D"@,
        "NetworkManagement:D"@,
        "WifiStateMachine:D"@,
    ]
    &&& !p.options.clear
    &&& !p.options.dump
}

impl LogcatPreset {
    /// The preset that shows only error messages.
    pub fn error_only() -> (r: LogcatPreset)
        ensures
            is_error_only_preset(r.deep_view()),
    {
        let mut filters: Vec<String> = Vec::new();
        filters.push("*:E".to_owned());
        let r = LogcatPreset {
            name: "errors".to_owned(),
            description: "Show only error messages".to_owned(),
            options: LogcatOptions {
                buffer: None,
                format: Some("time".to_owned()),
                filters,
                clear: false,
                dump: false,
            },
        };
        proof {
            assert(r.options.filters.deep_view() =~= seq!["*:E"@]);
        }
        r
    }

    /// The preset that shows the logs of one package.
    pub fn app_specific(package: &str) -> (r: LogcatPreset)
        ensures
            is_app_specific_preset(r.deep_view(), package@),
    {
        let mut name = "app_".to_owned();
        name.append(package);
        let mut description = "Show logs for package: ".to_owned();
        description.append(package);
        let mut filters: Vec<String> = Vec::new();
        filters.push(package.to_owned());
        let r = LogcatPreset {
            name,
            description,
            options: LogcatOptions {
                buffer: None,
                format: Some("time".to_owned()),
                filters,
                clear: false,
                dump: false,
            },
        };
        proof {
            assert(r.options.filters.deep_view() =~= seq![package@]);
        }
        r
    }

    /// The preset that follows system performance logs.
    pub fn system_performance() -> (r: LogcatPreset)
        ensures
            is_system_performance_preset(r.deep_view()),
    {
        let mut filters: Vec<String> = Vec::new();
        filters.push("ActivityManager:I".to_owned());
        filters.push("WindowManager:I".to_owned());
        filters.push("SystemUI:I".to_owned());
        let r = LogcatPreset {
            name: "performance".to_owned(),
            description: "Show system performance related logs".to_owned(),
            options: LogcatOptions {
                buffer: Some("system".to_owned()),
                format: Some("time".to_owned()),
                filters,
                clear: false,
                dump: false,
            },
        };
        proof {
            assert(r.options.filters.deep_view() =~= seq![
                "ActivityManager:I"@,
                "WindowManager:I"@,
                "SystemUI:I"@,
            ]);
        }
        r
    }

    /// The preset that follows network logs.
    pub fn network_debug() -> (r: LogcatPreset)
        ensures
            is_network_debug_preset(r.deep_view()),
    {
        let mut filters: Vec<String> = Vec::new();
        filters.push("ConnectivityService:D".to_owned());
        filters.push("NetworkManagement:D".to_owned());
        filters.push("WifiStateMachine:D".to_owned());
        let r = LogcatPreset {
            name: "network".to_owned(),
            description: "Show network related logs".to_owned(),
            options: LogcatOptions {
                buffer: None,
                format: Some("time".to_owned()),
                filters,
                clear: false,
                dump: false,
            },
        };
        proof {
            assert(r.options.filters.deep_view() =~= seq![
                "ConnectivityService:D"@,
                "NetworkManagement:D"@,
                "WifiStateMachine:D"@,
            ]);
        }
        r
    }
}

/// The built-in presets, in their fixed order.
pub fn get_logcat_presets() -> (r: Vec<LogcatPreset>)
    ensures
        r.deep_view().len() == 3,
        is_error_only_preset(r.deep_view()[0]),
        is_system_performance_preset(r.deep_view()[1]),
        is_network_debug_preset(r.deep_view()[2]),
{
    let mut out: Vec<LogcatPreset> = Vec::new();
    out.push(LogcatPreset::error_only());
    out.push(LogcatPreset::system_performance());
    out.push(LogcatPreset::network_debug());
    out
}

/// The filter part of a logcat argument string: each filter after one
/// space, in order.
pub open spec fn logcat_filters_str(fs: Seq<Seq<char>>, i: int) -> Seq<char>
    decreases fs.len() - i,
    when 0 <= i <= fs.len()
{
    if i >= fs.len() {
        Seq::empty()
    } else {
        " "@ + fs[i] + logcat_filters_str(fs, i + 1)
    }
}

/// The full logcat argument string for a device and an option set; the
/// clear flag is not part of it, a separate clearing command serves it.
pub open spec fn logcat_command_of(device: Seq<char>, o: LogcatOptionsView) -> Seq<char> {
    "-s "@ + device + " logcat"@ + (match o.buffer {
        Some(b) => " -b "@ + b,
        None => Seq::empty(),
    }) + (match o.format {
        Some(f) => " -v "@ + f,
        None => Seq::empty(),
    }) + (if o.dump {
        " -d"@
    } else {
        Seq::empty()
    }) + logcat_filters_str(o.filters, 0)
}

pub fn logcat_command(device: &str, options: &LogcatOptions) -> (r: String)
    ensures
        r@ == logcat_command_of(device@, options.deep_view()),
{
    let mut s = "-s ".to_owned();
    s.append(device);
    s.append(" logcat");
    match &options.buffer {
        Some(b) => {
            s.append(" -b ");
            s.append(b.as_str());
        },
        None => {},
    }
    match &options.format {
        Some(f) => {
            s.append(" -v ");
            s.append(f.as_str());
        },
        None => {},
    }
    if options.dump {
        s.append(" -d");
    }
    let ghost head = s@;
    let ghost fs = options.filters.deep_view();
    let n = options.filters.len();
    let mut i: usize = 0;
    while i < n
        invariant
            fs == options.filters.deep_view(),
            n == fs.len(),
            n == options.filters@.len(),
            0 <= i <= n,
            head + logcat_filters_str(fs, 0) == s@ + logcat_filters_str(fs, i as int),
        decreases n - i,
    {
        proof {
            assert(options.filters.deep_view()[i as int] == options.filters@[i as int]@);
        }
        s.append(" ");
        s.append(options.filters[i].as_str());
        proof {
            assert(s@ + logcat_filters_str(fs, i + 1) =~= head + logcat_filters_str(fs, 0));
        }
        i += 1;
    }
    proof {
        assert(s@ + Seq::<char>::empty() =~= s@);
        assert(s@ =~= logcat_command_of(device@, options.deep_view()));
    }
    s
}

/// The argument string that clears the log buffers of a device.
pub fn logcat_clear_command(device: &str) -> (r: String)
    ensures
        r@ == "-s "@ + device@ + " logcat -c"@,
{
    let mut s = "-s ".to_owned();
    s.append(device);
    s.append(" logcat -c");
    s
}

/// Per-interface traffic counters.
#[derive(Debug, Clone, PartialEq, Eq)]
pub struct NetworkStats {
    pub rx_bytes: u64,
    pub tx_bytes: u64,
    pub rx_packets: u64,
    pub tx_packets: u64,
}

pub ghost struct NetworkStatsView {
    pub rx_bytes: u64,
    pub tx_bytes: u64,
    pub rx_packets: u64,
    pub tx_packets: u64,
}

impl DeepView for NetworkStats {
    type V = NetworkStatsView;

    open spec fn deep_view(&self) -> NetworkStatsView {
        NetworkStatsView {
            rx_bytes: self.rx_bytes,
            tx_bytes: self.tx_bytes,
            rx_packets: self.rx_packets,
            tx_packets: self.tx_packets,
        }
    }
}

/// The first line at or after `i` that holds the text `pat`.
pub open spec fn first_line_containing(ls: Seq<Seq<char>>, i: int, pat: Seq<char>) -> Option<
    Seq<char>,
>
    decreases ls.len() - i,
    when 0 <= i <= ls.len()
{
    if i >= ls.len() {
        None
    } else if contains_seq(ls[i], pat) {
        Some(ls[i])
    } else {
        first_line_containing(ls, i + 1, pat)
    }
}

pub open spec fn zero_network_stats() -> NetworkStatsView {
    NetworkStatsView { rx_bytes: 0, tx_bytes: 0, rx_packets: 0, tx_packets: 0 }
}

pub open spec fn u64_field_or_zero(s: Seq<char>) -> u64 {
    match parse_u64_of(s) {
        Some(v) => v,
        None => 0,
    }
}

/// The counters one interface line carries in the fixed columns of the
/// kernel network table, when the line has enough columns.
pub open spec fn stats_of_line(l: Seq<char>) -> NetworkStatsView {
    let ps = fields_of(l);
    if ps.len() >= 11 {
        NetworkStatsView {
            rx_bytes: u64_field_or_zero(ps[1]),
            rx_packets: u64_field_or_zero(ps[2]),
            tx_bytes: u64_field_or_zero(ps[9]),
            tx_packets: u64_field_or_zero(ps[10]),
        }
    } else {
        zero_network_stats()
    }
}

/// The first line at or after `i` that names a wired or wireless
/// interface.
pub open spec fn first_interface_line(ls: Seq<Seq<char>>, i: int) -> Option<Seq<char>>
    decreases ls.len() - i,
    when 0 <= i <= ls.len()
{
    if i >= ls.len() {
        None
    } else if contains_seq(ls[i], "eth0:"@) || contains_seq(ls[i], "wlan0:"@) {
        Some(ls[i])
    } else {
        first_interface_line(ls, i + 1)
    }
}

/// The counters that a whole kernel network table reports for the first
/// wired or wireless interface; zeros when no such line is found.
pub open spec fn network_stats_of(out: Seq<char>) -> NetworkStatsView {
    match first_interface_line(lines_of(out), 0) {
        Some(l) => stats_of_line(l),
        None => zero_network_stats(),
    }
}

pub fn parse_network_stats(output: &str) -> (r: NetworkStats)
    ensures
        r.deep_view() == network_stats_of(output@),
{
    let lines = split_lines(output);
    let ghost ls = lines_of(output@);
    let n = lines.len();
    let mut i: usize = 0;
    while i < n
        invariant
            lines.deep_view() == ls,
            n == ls.len(),
            n == lines@.len(),
            0 <= i <= n,
            ls == lines_of(output@),
            first_interface_line(ls, 0) == first_interface_line(ls, i as int),
        decreases n - i,
    {
        proof {
            assert(lines.deep_view()[i as int] == lines@[i as int]@);
        }
        let line = lines[i].as_str();
        if str_contains(line, "eth0:") || str_contains(line, "wlan0:") {
            proof {
                assert(first_interface_line(ls, i as int) == Some(ls[i as int]));
            }
            let parts = split_fields(line);
            proof {
                assert(parts.deep_view() == fields_of(ls[i as int]));
                assert(parts.deep_view().len() == parts@.len());
            }
            if parts.len() >= 11 {
                proof {
                    assert(parts.deep_view()[1] == parts@[1]@);
                    assert(parts.deep_view()[2] == parts@[2]@);
                    assert(parts.deep_view()[9] == parts@[9]@);
                    assert(parts.deep_view()[10] == parts@[10]@);
                }
                let rx_bytes = match parse_u64(parts[1].as_str()) {
                    Some(v) => v,
                    None => 0,
                };
                let rx_packets = match parse_u64(parts[2].as_str()) {
                    Some(v) => v,
                    None => 0,
                };
                let tx_bytes = match parse_u64(parts[9].as_str()) {
                    Some(v) => v,
                    None => 0,
                };
                let tx_packets = match parse_u64(parts[10].as_str()) {
                    Some(v) => v,
                    None => 0,
                };
                return NetworkStats { rx_bytes, tx_bytes, rx_packets, tx_packets };
            }
            return NetworkStats { rx_bytes: 0, tx_bytes: 0, rx_packets: 0, tx_packets: 0 };
        }
        i += 1;
    }
    NetworkStats { rx_bytes: 0, tx_bytes: 0, rx_packets: 0, tx_packets: 0 }
}

/// The total-row percentage token of a processor usage dump: the ninth
/// column of the first line holding `TOTAL`, trailing percent signs
/// removed.  What it denotes is left to the caller.
pub open spec fn cpu_total_token_of(out: Seq<char>) -> Option<Seq<char>> {
    match first_line_containing(lines_of(out), 0, "TOTAL"@) {
        Some(l) => {
            let ps = fields_of(l);
            if ps.len() >= 9 {
                Some(strip_trailing_of(ps[8], '%'))
            } else {
                None
            }
        },
        None => None,
    }
}

pub fn cpu_total_token(output: &str) -> (r: Option<String>)
    ensures
        r is None <==> cpu_total_token_of(output@) is None,
        r matches Some(t) ==> cpu_total_token_of(output@) == Some(t@),
{
    let lines = split_lines(output);
    let ghost ls = lines_of(output@);
    let n = lines.len();
    let mut i: usize = 0;
    while i < n
        invariant
            lines.deep_view() == ls,
            n == ls.len(),
            n == lines@.len(),
            0 <= i <= n,
            ls == lines_of(output@),
            first_line_containing(ls, 0, "TOTAL"@) == first_line_containing(ls, i as int, "TOTAL"@),
        decreases n - i,
    {
        proof {
            assert(lines.deep_view()[i as int] == lines@[i as int]@);
        }
        let line = lines[i].as_str();
        if str_contains(line, "TOTAL") {
            proof {
                assert(first_line_containing(ls, i as int, "TOTAL"@) == Some(ls[i as int]));
            }
            let parts = split_fields(line);
            proof {
                assert(parts.deep_view() == fields_of(ls[i as int]));
                assert(parts.deep_view().len() == parts@.len());
            }
            if parts.len() >= 9 {
                proof {
                    assert(parts.deep_view()[8] == parts@[8]@);
                }
                return Some(trim_end_matches_char(parts[8].as_str(), '%'));
            }
            return None;
        }
        i += 1;
    }
    None
}

/// The used-memory figure of a memory dump: the number before the first
/// `K` in the fifth column of the first line holding `Used RAM:`; zero
/// when absent or not a number.
pub open spec fn memory_usage_of(out: Seq<char>) -> u64 {
    match first_line_containing(lines_of(out), 0, "Used RAM:"@) {
        Some(l) => {
            let ps = fields_of(l);
            if ps.len() >= 5 {
                u64_field_or_zero(split_char_of(ps[4], 'K')[0])
            } else {
                0
            }
        },
        None => 0,
    }
}

pub fn parse_memory_usage(output: &str) -> (r: u64)
    ensures
        r == memory_usage_of(output@),
{
    let lines = split_lines(output);
    let ghost ls = lines_of(output@);
    let n = lines.len();
    let mut i: usize = 0;
    while i < n
        invariant
            lines.deep_view() == ls,
            n == ls.len(),
            n == lines@.len(),
            0 <= i <= n,
            ls == lines_of(output@),
            first_line_containing(ls, 0, "Used RAM:"@) == first_line_containing(
                ls,
                i as int,
                "Used RAM:"@,
            ),
        decreases n - i,
    {
        proof {
            assert(lines.deep_view()[i as int] == lines@[i as int]@);
        }
        let line = lines[i].as_str();
        if str_contains(line, "Used RAM:") {
            proof {
                assert(first_line_containing(ls, i as int, "Used RAM:"@) == Some(ls[i as int]));
            }
            let parts = split_fields(line);
            proof {
                assert(parts.deep_view() == fields_of(ls[i as int]));
                assert(parts.deep_view().len() == parts@.len());
            }
            if parts.len() >= 5 {
                proof {
                    assert(parts.deep_view()[4] == parts@[4]@);
                }
                let pieces = split_on_char(parts[4].as_str(), 'K');
                proof {
                    crate::text::lemma_split_char_nonempty(parts@[4]@, 'K', 0, Seq::empty());
                    assert(pieces.deep_view().len() >= 1);
                    assert(pieces@.len() >= 1);
                    assert(pieces.deep_view()[0] == pieces@[0]@);
                }
                return match parse_u64(pieces[0].as_str()) {
                    Some(v) => v,
                    None => 0,
                };
            }
            return 0;
        }
        i += 1;
    }
    0
}

/// The battery level of a battery dump: the number after the colon of
/// the first `level:` line that has a colon; zero when none is found.
pub open spec fn battery_level_of(ls: Seq<Seq<char>>, i: int) -> int
    decreases ls.len() - i,
    when 0 <= i <= ls.len()
{
    if i >= ls.len() {
        0
    } else if contains_seq(ls[i], "level:"@) && split_char_of(ls[i], ':').len() >= 2 {
        parse_int_value_of(ls[i])
    } else {
        battery_level_of(ls, i + 1)
    }
}

pub fn parse_battery_level(output: &str) -> (r: i32)
    ensures
        r as int == battery_level_of(lines_of(output@), 0),
{
    let lines = split_lines(output);
    let ghost ls = lines_of(output@);
    let n = lines.len();
    let mut i: usize = 0;
    while i < n
        invariant
            lines.deep_view() == ls,
            n == ls.len(),
            n == lines@.len(),
            0 <= i <= n,
            ls == lines_of(output@),
            battery_level_of(ls, 0) == battery_level_of(ls, i as int),
        decreases n - i,
    {
        proof {
            assert(lines.deep_view()[i as int] == lines@[i as int]@);
        }
        let line = lines[i].as_str();
        if str_contains(line, "level:") {
            let pieces = split_on_char(line, ':');
            proof {
                assert(pieces.deep_view() == split_char_of(ls[i as int], ':'));
                assert(pieces.deep_view().len() == pieces@.len());
            }
            if pieces.len() >= 2 {
                proof {
                    assert(battery_level_of(ls, i as int) == parse_int_value_of(ls[i as int]));
                }
                return parse_int_value(line);
            }
        }
        i += 1;
    }
    0
}

/// The second whitespace-separated field of an output, as a process
/// lookup reads a pid column.
pub open spec fn second_field_of(out: Seq<char>) -> Option<Seq<char>> {
    let ws = fields_of(out);
    if ws.len() >= 2 {
        Some(ws[1])
    } else {
        None
    }
}

pub fn second_field(output: &str) -> (r: Option<String>)
    ensures
        r is None <==> second_field_of(output@) is None,
        r matches Some(t) ==> second_field_of(output@) == Some(t@),
{
    let ws = split_fields(output);
    if ws.len() >= 2 {
        proof {
            assert(ws.deep_view()[1] == ws@[1]@);
        }
        Some(ws[1].clone())
    } else {
        None
    }
}

/// The pid that a pid-lookup output names: its trimmed text as a number.
pub fn parse_pid_output(output: &str) -> (r: Option<u32>)
    ensures
        r == parse_u32_of(trimmed(output@)),
{
    let t = trim_str(output);
    parse_u32(t.as_str())
}

/// The argument string that greps the process table for a name.
pub fn ps_grep_command(device: &str, process: &str) -> (r: String)
    ensures
        r@ == "-s "@ + device@ + " shell ps | grep "@ + process@,
{
    let mut s = "-s ".to_owned();
    s.append(device);
    s.append(" shell ps | grep ");
    s.append(process);
    s
}

/// The argument string that forwards the debugger port to a process.
pub fn jdwp_forward_command(device: &str, pid: &str) -> (r: String)
    ensures
        r@ == "-s "@ + device@ + " forward tcp:8700 jdwp:"@ + pid@,
{
    let mut s = "-s ".to_owned();
    s.append(device);
    s.append(" forward tcp:8700 jdwp:");
    s.append(pid);
    s
}

/// The argument string that removes the debugger port forward.
pub fn stop_debug_command(device: &str) -> (r: String)
    ensures
        r@ == "-s "@ + device@ + " forward --remove tcp:8700"@,
{
    let mut s = "-s ".to_owned();
    s.append(device);
    s.append(" forward --remove tcp:8700");
    s
}

/// The argument string that looks up the pid of a package.
pub fn pidof_command(device: &str, package_name: &str) -> (r: String)
    ensures
        r@ == "-s "@ + device@ + " shell pidof "@ + package_name@,
{
    let mut s = "-s ".to_owned();
    s.append(device);
    s.append(" shell pidof ");
    s.append(package_name);
    s
}

/// The argument string that captures a heap dump of a process.
pub fn dumpheap_command(device: &str, pid: u32, output_path: &str) -> (r: String)
    ensures
        r@ == "-s "@ + device@ + " shell am dumpheap "@ + dec_str_of(pid as int) + " "@
            + output_path@,
{
    let mut s = "-s ".to_owned();
    s.append(device);
    s.append(" shell am dumpheap ");
    append_u64_dec(&mut s, pid as u64);
    s.append(" ");
    s.append(output_path);
    s
}

/// The argument string that dumps processor usage.
pub fn cpuinfo_command(device: &str) -> (r: String)
    ensures
        r@ == "-s "@ + device@ + " shell dumpsys cpuinfo"@,
{
    let mut s = "-s ".to_owned();
    s.append(device);
    s.append(" shell dumpsys cpuinfo");
    s
}

/// The argument string that dumps memory usage.
pub fn meminfo_command(device: &str) -> (r: String)
    ensures
        r@ == "-s "@ + device@ + " shell dumpsys meminfo"@,
{
    let mut s = "-s ".to_owned();
    s.append(device);
    s.append(" shell dumpsys meminfo");
    s
}

/// The argument string that reads the kernel network counters.
pub fn proc_net_dev_command(device: &str) -> (r: String)
    ensures
        r@ == "-s "@ + device@ + " shell cat /proc/net/dev"@,
{
    let mut s = "-s ".to_owned();
    s.append(device);
    s.append(" shell cat /proc/net/dev");
    s
}

/// The argument string that starts method profiling for a package.
pub fn start_method_profiling_command(device: &str, package_name: &str) -> (r: String)
    ensures
        r@ == "-s "@ + device@ + " shell am profile start "@ + package_name@
            + " /sdcard/profile.trace"@,
{
    let mut s = "-s ".to_owned();
    s.append(device);
    s.append(" shell am profile start ");
    s.append(package_name);
    s.append(" /sdcard/profile.trace");
    s
}

/// The argument string that stops method profiling for a package.
pub fn stop_method_profiling_command(device: &str, package_name: &str) -> (r: String)
    ensures
        r@ == "-s "@ + device@ + " shell am profile stop "@ + package_name@,
{
    let mut s = "-s ".to_owned();
    s.append(device);
    s.append(" shell am profile stop ");
    s.append(package_name);
    s
}

/// The argument string that turns the trace tags on.
pub fn enable_trace_tags_command(device: &str) -> (r: String)
    ensures
        r@ == "-s "@ + device@ + " shell setprop debug.atrace.tags.enabled 1"@,
{
    let mut s = "-s ".to_owned();
    s.append(device);
    s.append(" shell setprop debug.atrace.tags.enabled 1");
    s
}

/// The argument string that starts an asynchronous system trace for a
/// number of seconds.
pub fn start_trace_command(device: &str, duration_secs: u32) -> (r: String)
    ensures
        r@ == "-s "@ + device@ + " shell atrace --async_start -b 16000 -t "@ + dec_str_of(
            duration_secs as int,
        ) + " -c"@,
{
    let mut s = "-s ".to_owned();
    s.append(device);
    s.append(" shell atrace --async_start -b 16000 -t ");
    append_u64_dec(&mut s, duration_secs as u64);
    s.append(" -c");
    s
}

/// The argument string that reads the not-responding traces.
pub fn get_anr_traces_command(device: &str) -> (r: String)
    ensures
        r@ == "-s "@ + device@ + " shell cat /data/anr/traces.txt"@,
{
    let mut s = "-s ".to_owned();
    s.append(device);
    s.append(" shell cat /data/anr/traces.txt");
    s
}

/// The argument string that removes the not-responding traces.
pub fn clear_anr_traces_command(device: &str) -> (r: String)
    ensures
        r@ == "-s "@ + device@ + " shell rm -f /data/anr/traces.txt"@,
{
    let mut s = "-s ".to_owned();
    s.append(device);
    s.append(" shell rm -f /data/anr/traces.txt");
    s
}

} // verus!
