//! App and process management: permission listings, process tables, app
//! data sizes, and the argument strings of the management commands.

use vstd::prelude::*;
use vstd::string::*;
use crate::text::contains_seq;
use crate::text::fields_of;
use crate::text::lines_of;
use crate::text::parse_u32_of;
use crate::text::parse_u64_of;
use crate::text::split_fields;
use crate::text::split_lines;
use crate::text::split_on_str;
use crate::text::split_str_of;
use crate::text::starts_with_seq;
use crate::text::str_contains;
use crate::text::strip_prefix_str;
use crate::text::parse_u32;
use crate::text::parse_u64;
use crate::text::append_u64_dec;
use crate::text::dec_str_of;
use crate::text::trim_str;
use crate::text::trimmed;

verus! {

/// The summed size of an app's package files, in bytes.
#[derive(Debug, Clone, PartialEq, Eq)]
pub struct AppDataSize {
    pub total_size: u64,
}

/// A reduced build-facts record.
#[derive(Debug, Clone, PartialEq, Eq)]
pub struct SystemInfo {
    pub android_version: String,
    pub sdk_version: String,
    pub device_arch: String,
    pub security_patch: String,
    pub build_fingerprint: String,
}

/// The permission state of one app: what was granted and what was denied,
/// and their union as the requested set.
#[derive(Debug, Clone, PartialEq, Eq)]
pub struct AppPermissions {
    pub package_name: String,
    pub permissions: Vec<String>,
    pub requested_permissions: Vec<String>,
    pub granted_permissions: Vec<String>,
    pub denied_permissions: Vec<String>,
}

pub ghost struct AppPermissionsView {
    pub package_name: Seq<char>,
    pub permissions: Seq<Seq<char>>,
    pub requested_permissions: Seq<Seq<char>>,
    pub granted_permissions: Seq<Seq<char>>,
    pub denied_permissions: Seq<Seq<char>>,
}

impl DeepView for AppPermissions {
    type V = AppPermissionsView;

    open spec fn deep_view(&self) -> AppPermissionsView {
        AppPermissionsView {
            package_name: self.package_name@,
            permissions: self.permissions.deep_view(),
            requested_permissions: self.requested_permissions.deep_view(),
            granted_permissions: self.granted_permissions.deep_view(),
            denied_permissions: self.denied_permissions.deep_view(),
        }
    }
}

/// One running process, as one line of the process table describes it.
#[derive(Debug, Clone, PartialEq, Eq)]
pub struct ProcessInfo {
    pub pid: u32,
    pub name: String,
    pub user: String,
    pub memory_usage: u64,
    pub status: String,
}

pub ghost struct ProcessInfoView {
    pub pid: u32,
    pub name: Seq<char>,
    pub user: Seq<char>,
    pub memory_usage: u64,
    pub status: Seq<char>,
}

impl DeepView for ProcessInfo {
    type V = ProcessInfoView;

    open spec fn deep_view(&self) -> ProcessInfoView {
        ProcessInfoView {
            pid: self.pid,
            name: self.name@,
            user: self.user@,
            memory_usage: self.memory_usage,
            status: self.status@,
        }
    }
}

/// The permission name on a dump line: the first whitespace-free piece
/// after the first `permission.` marker.
pub open spec fn permission_of_line(l: Seq<char>) -> Option<Seq<char>> {
    let ps = split_str_of(l, "permission."@);
    if ps.len() >= 2 {
        let ws = fields_of(ps[1]);
        if ws.len() >= 1 {
            Some(ws[0])
        } else {
            None
        }
    } else {
        None
    }
}

pub fn extract_permission_from_line(line: &str) -> (r: Option<String>)
    ensures
        r is None <==> permission_of_line(line@) is None,
        r matches Some(p) ==> permission_of_line(line@) == Some(p@),
{
    proof {
        reveal_strlit("permission.");
    }
    let ps = split_on_str(line, "permission.");
    if ps.len() >= 2 {
        proof {
            assert(ps.deep_view()[1] == ps@[1]@);
        }
        let ws = split_fields(ps[1].as_str());
        if ws.len() >= 1 {
            proof {
                assert(ws.deep_view()[0] == ws@[0]@);
            }
            Some(ws[0].clone())
        } else {
            None
        }
    } else {
        None
    }
}

/// The permissions of the dump lines that report a grant.
pub open spec fn granted_of_lines(ls: Seq<Seq<char>>, i: int) -> Seq<Seq<char>>
    decreases ls.len() - i,
    when 0 <= i <= ls.len()
{
    if i >= ls.len() {
        Seq::empty()
    } else if contains_seq(ls[i], "granted=true"@) {
        match permission_of_line(ls[i]) {
            Some(p) => seq![p] + granted_of_lines(ls, i + 1),
            None => granted_of_lines(ls, i + 1),
        }
    } else {
        granted_of_lines(ls, i + 1)
    }
}

/// The permissions of the dump lines that report a denial and not a
/// grant.
pub open spec fn denied_of_lines(ls: Seq<Seq<char>>, i: int) -> Seq<Seq<char>>
    decreases ls.len() - i,
    when 0 <= i <= ls.len()
{
    if i >= ls.len() {
        Seq::empty()
    } else if !contains_seq(ls[i], "granted=true"@) && contains_seq(ls[i], "granted=false"@) {
        match permission_of_line(ls[i]) {
            Some(p) => seq![p] + denied_of_lines(ls, i + 1),
            None => denied_of_lines(ls, i + 1),
        }
    } else {
        denied_of_lines(ls, i + 1)
    }
}

fn clone_string_vec_into(dst: &mut Vec<String>, src: &Vec<String>)
    ensures
        final(dst).deep_view() == old(dst).deep_view() + src.deep_view(),
{
    let n = src.len();
    let mut i: usize = 0;
    proof {
        assert(old(dst).deep_view() + src.deep_view().take(0) =~= old(dst).deep_view());
    }
    while i < n
        invariant
            n == src@.len(),
            0 <= i <= n,
            dst.deep_view() == old(dst).deep_view() + src.deep_view().take(i as int),
        decreases n - i,
    {
        let ghost prev = dst.deep_view();
        dst.push(src[i].clone());
        proof {
            assert(src.deep_view()[i as int] == src@[i as int]@);
            assert(dst.deep_view() =~= prev.push(src@[i as int]@));
            assert(old(dst).deep_view() + src.deep_view().take(i + 1) =~= prev.push(
                src@[i as int]@,
            ));
        }
        i += 1;
    }
    proof {
        assert(src.deep_view().take(n as int) =~= src.deep_view());
    }
}

/// The permission state that a whole package dump describes for the named
/// package: grants and denials as the lines report them, the requested
/// set their concatenation, and the plain permission list left empty.
pub fn parse_app_permissions(dumpsys_output: &str, package_name: &str) -> (r: AppPermissions)
    ensures
        r.deep_view().package_name == package_name@,
        r.deep_view().permissions == Seq::<Seq<char>>::empty(),
        r.deep_view().granted_permissions == granted_of_lines(lines_of(dumpsys_output@), 0),
        r.deep_view().denied_permissions == denied_of_lines(lines_of(dumpsys_output@), 0),
        r.deep_view().requested_permissions == granted_of_lines(lines_of(dumpsys_output@), 0)
            + denied_of_lines(lines_of(dumpsys_output@), 0),
{
    let lines = split_lines(dumpsys_output);
    let ghost ls = lines_of(dumpsys_output@);
    let mut granted: Vec<String> = Vec::new();
    let mut denied: Vec<String> = Vec::new();
    let n = lines.len();
    let mut i: usize = 0;
    proof {
        assert(granted.deep_view() =~= Seq::<Seq<char>>::empty());
        assert(denied.deep_view() =~= Seq::<Seq<char>>::empty());
        assert(granted.deep_view() + granted_of_lines(ls, 0) =~= granted_of_lines(ls, 0));
        assert(denied.deep_view() + denied_of_lines(ls, 0) =~= denied_of_lines(ls, 0));
    }
    while i < n
        invariant
            lines.deep_view() == ls,
            n == ls.len(),
            n == lines@.len(),
            0 <= i <= n,
            granted_of_lines(ls, 0) == granted.deep_view() + granted_of_lines(ls, i as int),
            denied_of_lines(ls, 0) == denied.deep_view() + denied_of_lines(ls, i as int),
        decreases n - i,
    {
        proof {
            assert(lines.deep_view()[i as int] == lines@[i as int]@);
        }
        let line = lines[i].as_str();
        if str_contains(line, "granted=true") {
            match extract_permission_from_line(line) {
                Some(p) => {
                    let ghost prev = granted.deep_view();
                    granted.push(p);
                    proof {
                        assert(granted.deep_view() =~= prev.push(
                            permission_of_line(ls[i as int]).unwrap(),
                        ));
                        assert(prev + (seq![permission_of_line(ls[i as int]).unwrap()]
                            + granted_of_lines(ls, i + 1)) =~= granted.deep_view()
                            + granted_of_lines(ls, i + 1));
                    }
                },
                None => {},
            }
        } else if str_contains(line, "granted=false") {
            match extract_permission_from_line(line) {
                Some(p) => {
                    let ghost prev = denied.deep_view();
                    denied.push(p);
                    proof {
                        assert(denied.deep_view() =~= prev.push(
                            permission_of_line(ls[i as int]).unwrap(),
                        ));
                        assert(prev + (seq![permission_of_line(ls[i as int]).unwrap()]
                            + denied_of_lines(ls, i + 1)) =~= denied.deep_view()
                            + denied_of_lines(ls, i + 1));
                    }
                },
                None => {},
            }
        }
        i += 1;
    }
    proof {
        assert(granted.deep_view() + Seq::<Seq<char>>::empty() =~= granted.deep_view());
        assert(denied.deep_view() + Seq::<Seq<char>>::empty() =~= denied.deep_view());
    }
    let mut requested: Vec<String> = Vec::new();
    clone_string_vec_into(&mut requested, &granted);
    clone_string_vec_into(&mut requested, &denied);
    proof {
        assert(Seq::<Seq<char>>::empty() + granted.deep_view() =~= granted.deep_view());
    }
    AppPermissions {
        package_name: package_name.to_owned(),
        permissions: Vec::new(),
        requested_permissions: requested,
        granted_permissions: granted,
        denied_permissions: denied,
    }
}

/// The process one table line describes: user, pid, status and name from
/// the fixed columns, when the line has enough columns and a numeric pid.
pub open spec fn process_of_line(l: Seq<char>) -> Option<ProcessInfoView> {
    let ps = fields_of(l);
    if ps.len() >= 9 {
        match parse_u32_of(ps[1]) {
            Some(pid) => Some(
                ProcessInfoView {
                    pid: pid,
                    name: ps[8],
                    user: ps[0],
                    memory_usage: 0,
                    status: ps[7],
                },
            ),
            None => None,
        }
    } else {
        None
    }
}

pub open spec fn processes_of_lines(ls: Seq<Seq<char>>, i: int) -> Seq<ProcessInfoView>
    decreases ls.len() - i,
    when 0 <= i <= ls.len()
{
    if i >= ls.len() {
        Seq::empty()
    } else {
        match process_of_line(ls[i]) {
            Some(p) => seq![p] + processes_of_lines(ls, i + 1),
            None => processes_of_lines(ls, i + 1),
        }
    }
}

/// The processes of a whole table output, its header line passed over.
pub open spec fn processes_of_output(out: Seq<char>) -> Seq<ProcessInfoView> {
    let ls = lines_of(out);
    if ls.len() < 1 {
        Seq::empty()
    } else {
        processes_of_lines(ls, 1)
    }
}

pub fn parse_processes(ps_output: &str) -> (r: Vec<ProcessInfo>)
    ensures
        r.deep_view() == processes_of_output(ps_output@),
{
    let lines = split_lines(ps_output);
    let ghost ls = lines_of(ps_output@);
    let mut out: Vec<ProcessInfo> = Vec::new();
    let n = lines.len();
    proof {
        assert(out.deep_view() =~= Seq::<ProcessInfoView>::empty());
    }
    if n < 1 {
        return out;
    }
    let mut i: usize = 1;
    proof {
        assert(out.deep_view() + processes_of_lines(ls, 1) =~= processes_of_lines(ls, 1));
    }
    while i < n
        invariant
            lines.deep_view() == ls,
            n == ls.len(),
            n == lines@.len(),
            1 <= i <= n,
            processes_of_output(ps_output@) == out.deep_view() + processes_of_lines(ls, i as int),
        decreases n - i,
    {
        proof {
            assert(lines.deep_view()[i as int] == lines@[i as int]@);
        }
        let parts = split_fields(lines[i].as_str());
        if parts.len() >= 9 {
            proof {
                assert(parts.deep_view()[0] == parts@[0]@);
                assert(parts.deep_view()[1] == parts@[1]@);
                assert(parts.deep_view()[7] == parts@[7]@);
                assert(parts.deep_view()[8] == parts@[8]@);
            }
            match parse_u32(parts[1].as_str()) {
                Some(pid) => {
                    let p = ProcessInfo {
                        pid,
                        name: parts[8].clone(),
                        user: parts[0].clone(),
                        memory_usage: 0,
                        status: parts[7].clone(),
                    };
                    let ghost prev = out.deep_view();
                    out.push(p);
                    proof {
                        assert(out.deep_view() =~= prev.push(p.deep_view()));
                        assert(prev + (seq![p.deep_view()] + processes_of_lines(ls, i + 1)) =~= out
                            .deep_view() + processes_of_lines(ls, i + 1));
                    }
                },
                None => {},
            }
        }
        i += 1;
    }
    proof {
        assert(out.deep_view() + Seq::<ProcessInfoView>::empty() =~= out.deep_view());
    }
    out
}

/// The pid of the first listed process whose name holds the given text.
pub open spec fn first_pid_with_name(ps: Seq<ProcessInfoView>, i: int, name: Seq<char>) -> Option<
    u32,
>
    decreases ps.len() - i,
    when 0 <= i <= ps.len()
{
    if i >= ps.len() {
        None
    } else if contains_seq(ps[i].name, name) {
        Some(ps[i].pid)
    } else {
        first_pid_with_name(ps, i + 1, name)
    }
}

pub fn find_process_pid(processes: &Vec<ProcessInfo>, process_name: &str) -> (r: Option<u32>)
    ensures
        r == first_pid_with_name(processes.deep_view(), 0, process_name@),
{
    let n = processes.len();
    let mut i: usize = 0;
    while i < n
        invariant
            n == processes@.len(),
            n == processes.deep_view().len(),
            0 <= i <= n,
            first_pid_with_name(processes.deep_view(), 0, process_name@) == first_pid_with_name(
                processes.deep_view(),
                i as int,
                process_name@,
            ),
        decreases n - i,
    {
        proof {
            assert(processes.deep_view()[i as int] == processes@[i as int].deep_view());
        }
        if str_contains(processes[i].name.as_str(), process_name) {
            return Some(processes[i].pid);
        }
        i += 1;
    }
    None
}

/// The package file paths of a `pm path` output: the trimmed remainder of
/// every line that starts with the `package:` marker.
pub open spec fn apk_paths_of_lines(ls: Seq<Seq<char>>, i: int) -> Seq<Seq<char>>
    decreases ls.len() - i,
    when 0 <= i <= ls.len()
{
    if i >= ls.len() {
        Seq::empty()
    } else if starts_with_seq(ls[i], "package:"@) {
        seq![trimmed(ls[i].skip("package:"@.len() as int))] + apk_paths_of_lines(ls, i + 1)
    } else {
        apk_paths_of_lines(ls, i + 1)
    }
}

pub fn apk_paths(pm_path_output: &str) -> (r: Vec<String>)
    ensures
        r.deep_view() == apk_paths_of_lines(lines_of(pm_path_output@), 0),
{
    let lines = split_lines(pm_path_output);
    let ghost ls = lines_of(pm_path_output@);
    let mut out: Vec<String> = Vec::new();
    let n = lines.len();
    let mut i: usize = 0;
    proof {
        assert(out.deep_view() =~= Seq::<Seq<char>>::empty());
        assert(out.deep_view() + apk_paths_of_lines(ls, 0) =~= apk_paths_of_lines(ls, 0));
    }
    while i < n
        invariant
            lines.deep_view() == ls,
            n == ls.len(),
            n == lines@.len(),
            0 <= i <= n,
            apk_paths_of_lines(ls, 0) == out.deep_view() + apk_paths_of_lines(ls, i as int),
        decreases n - i,
    {
        proof {
            assert(lines.deep_view()[i as int] == lines@[i as int]@);
        }
        match strip_prefix_str(lines[i].as_str(), "package:") {
            Some(rest) => {
                let path = trim_str(rest.as_str());
                let ghost prev = out.deep_view();
                out.push(path);
                proof {
                    assert(ls[i as int].skip("package:"@.len() as int) =~= ls[i as int].subrange(
                        "package:"@.len() as int,
                        ls[i as int].len() as int,
                    ));
                    assert(out.deep_view() =~= prev.push(path@));
                    assert(prev + (seq![trimmed(ls[i as int].skip("package:"@.len() as int))]
                        + apk_paths_of_lines(ls, i + 1)) =~= out.deep_view() + apk_paths_of_lines(
                        ls,
                        i + 1,
                    ));
                }
            },
            None => {},
        }
        i += 1;
    }
    proof {
        assert(out.deep_view() + Seq::<Seq<char>>::empty() =~= out.deep_view());
    }
    out
}

/// The running total of package file sizes after one size query: the
/// trimmed output is added when it parses as a number, else nothing is.
pub fn add_apk_size(total: u64, size_output: &str) -> (r: u64)
    requires
        parse_u64_of(trimmed(size_output@)) matches Some(v) ==> total + v <= u64::MAX,
    ensures
        r as int == total + (match parse_u64_of(trimmed(size_output@)) {
            Some(v) => v as int,
            None => 0,
        }),
{
    let t = trim_str(size_output);
    match parse_u64(t.as_str()) {
        Some(v) => total + v,
        None => total,
    }
}

/// Whether an app-start output reports a failure.
pub fn start_app_failed(output: &str) -> (r: bool)
    ensures
        r == contains_seq(output@, "error"@),
{
    str_contains(output, "error")
}

/// The argument string that grants one permission to a package.
pub fn grant_permission_command(device: &str, package_name: &str, permission: &str) -> (r: String)
    ensures
        r@ == "-s "@ + device@ + " shell pm grant "@ + package_name@ + " "@ + permission@,
{
    let mut s = "-s ".to_owned();
    s.append(device);
    s.append(" shell pm grant ");
    s.append(package_name);
    s.append(" ");
    s.append(permission);
    s
}

/// The argument string that revokes one permission from a package.
pub fn revoke_permission_command(device: &str, package_name: &str, permission: &str) -> (r: String)
    ensures
        r@ == "-s "@ + device@ + " shell pm revoke "@ + package_name@ + " "@ + permission@,
{
    let mut s = "-s ".to_owned();
    s.append(device);
    s.append(" shell pm revoke ");
    s.append(package_name);
    s.append(" ");
    s.append(permission);
    s
}

/// The argument string that resets the permissions of a package.
pub fn reset_permissions_command(device: &str, package_name: &str) -> (r: String)
    ensures
        r@ == "-s "@ + device@ + " shell pm reset-permissions "@ + package_name@,
{
    let mut s = "-s ".to_owned();
    s.append(device);
    s.append(" shell pm reset-permissions ");
    s.append(package_name);
    s
}

/// The argument string that lists the running processes.
pub fn get_running_processes_command(device: &str) -> (r: String)
    ensures
        r@ == "-s "@ + device@ + " shell ps"@,
{
    let mut s = "-s ".to_owned();
    s.append(device);
    s.append(" shell ps");
    s
}

/// The argument string that kills a process by pid.
pub fn kill_process_command(device: &str, pid: u32) -> (r: String)
    ensures
        r@ == "-s "@ + device@ + " shell kill "@ + dec_str_of(pid as int),
{
    let mut s = "-s ".to_owned();
    s.append(device);
    s.append(" shell kill ");
    append_u64_dec(&mut s, pid as u64);
    s
}

/// The argument string that lists the package files of a package.
pub fn pm_path_command(device: &str, package_name: &str) -> (r: String)
    ensures
        r@ == "-s "@ + device@ + " shell pm path "@ + package_name@,
{
    let mut s = "-s ".to_owned();
    s.append(device);
    s.append(" shell pm path ");
    s.append(package_name);
    s
}

/// The argument string that asks for the byte size of one file.
pub fn stat_size_command(device: &str, path: &str) -> (r: String)
    ensures
        r@ == "-s "@ + device@ + " shell stat -c%s "@ + path@,
{
    let mut s = "-s ".to_owned();
    s.append(device);
    s.append(" shell stat -c%s ");
    s.append(path);
    s
}

/// The argument string that backs up one app with its package file.
pub fn backup_app_data_command(device: &str, package_name: &str, output_path: &str) -> (r: String)
    ensures
        r@ == "-s "@ + device@ + " backup -f "@ + output_path@ + " -apk "@ + package_name@,
{
    let mut s = "-s ".to_owned();
    s.append(device);
    s.append(" backup -f ");
    s.append(output_path);
    s.append(" -apk ");
    s.append(package_name);
    s
}

/// The argument string that restores app data from a backup file.
pub fn restore_app_data_command(device: &str, backup_path: &str) -> (r: String)
    ensures
        r@ == "-s "@ + device@ + " restore "@ + backup_path@,
{
    let mut s = "-s ".to_owned();
    s.append(device);
    s.append(" restore ");
    s.append(backup_path);
    s
}

/// The argument string that enables or disables one app component.
pub fn set_component_state_command(device: &str, component: &str, enabled: bool) -> (r: String)
    ensures
        enabled ==> r@ == "-s "@ + device@ + " shell pm "@ + "enable"@ + " "@ + component@,
        !enabled ==> r@ == "-s "@ + device@ + " shell pm "@ + "disable"@ + " "@ + component@,
{
    let mut s = "-s ".to_owned();
    s.append(device);
    s.append(" shell pm ");
    if enabled {
        s.append("enable");
    } else {
        s.append("disable");
    }
    s.append(" ");
    s.append(component);
    s
}

/// The argument string that shows the component resolver table of a
/// package.
pub fn get_component_states_command(device: &str, package_name: &str) -> (r: String)
    ensures
        r@ == "-s "@ + device@ + " shell dumpsys package "@ + package_name@
            + " | grep -A 10 'Activity Resolver Table'"@,
{
    let mut s = "-s ".to_owned();
    s.append(device);
    s.append(" shell dumpsys package ");
    s.append(package_name);
    s.append(" | grep -A 10 'Activity Resolver Table'");
    s
}

/// The argument string that lists the third-party packages.
pub fn list_third_party_packages_command(device: &str) -> (r: String)
    ensures
        r@ == "-s "@ + device@ + " shell pm list packages -3"@,
{
    let mut s = "-s ".to_owned();
    s.append(device);
    s.append(" shell pm list packages -3");
    s
}

/// The argument string that force-stops a package.
pub fn force_stop_command(device: &str, package_name: &str) -> (r: String)
    ensures
        r@ == "-s "@ + device@ + " shell am force-stop "@ + package_name@,
{
    let mut s = "-s ".to_owned();
    s.append(device);
    s.append(" shell am force-stop ");
    s.append(package_name);
    s
}

/// The argument string that launches a package through its launcher
/// category.
pub fn start_app_command(device: &str, package_name: &str) -> (r: String)
    ensures
        r@ == "-s "@ + device@ + " shell monkey -p "@ + package_name@
            + " -c android.intent.category.LAUNCHER 1"@,
{
    let mut s = "-s ".to_owned();
    s.append(device);
    s.append(" shell monkey -p ");
    s.append(package_name);
    s.append(" -c android.intent.category.LAUNCHER 1");
    s
}

/// The argument string that clears the data of a package.
pub fn clear_app_data_command(device: &str, package_name: &str) -> (r: String)
    ensures
        r@ == "-s "@ + device@ + " shell pm clear "@ + package_name@,
{
    let mut s = "-s ".to_owned();
    s.append(device);
    s.append(" shell pm clear ");
    s.append(package_name);
    s
}

/// The argument string that dumps usage statistics between two instants,
/// given in milliseconds since the epoch.
pub fn app_usage_stats_command(device: &str, start_time_ms: u64, end_time_ms: u64) -> (r: String)
    ensures
        r@ == "-s "@ + device@ + " shell dumpsys usagestats --proto "@ + dec_str_of(
            start_time_ms as int,
        ) + " "@ + dec_str_of(end_time_ms as int),
{
    let mut s = "-s ".to_owned();
    s.append(device);
    s.append(" shell dumpsys usagestats --proto ");
    append_u64_dec(&mut s, start_time_ms);
    s.append(" ");
    append_u64_dec(&mut s, end_time_ms);
    s
}

} // verus!
