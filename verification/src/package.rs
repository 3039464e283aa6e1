//! Package records: the name-only records of the package list, and the
//! fuller records that the package-detail dump yields.

use vstd::prelude::*;
use vstd::string::*;
use crate::text::contains_seq;
use crate::text::lines_of;
use crate::text::split_char_of;
use crate::text::split_lines;
use crate::text::split_on_char;
use crate::text::starts_with_seq;
use crate::text::str_contains;
use crate::text::str_starts_with;
use crate::text::trim_str;
use crate::text::trimmed;

verus! {

/// One installed package, as the package list or the package-detail dump
/// describes it.
#[derive(Debug, Clone, PartialEq, Eq)]
pub struct PackageInfo {
    pub name: String,
    pub version_code: String,
    pub version_name: String,
    pub is_system: bool,
    pub install_time: Option<String>,
    pub update_time: Option<String>,
    pub size: Option<u64>,
}

pub ghost struct PackageInfoView {
    pub name: Seq<char>,
    pub version_code: Seq<char>,
    pub version_name: Seq<char>,
    pub is_system: bool,
    pub install_time: Option<Seq<char>>,
    pub update_time: Option<Seq<char>>,
    pub size: Option<u64>,
}

impl DeepView for PackageInfo {
    type V = PackageInfoView;

    open spec fn deep_view(&self) -> PackageInfoView {
        PackageInfoView {
            name: self.name@,
            version_code: self.version_code@,
            version_name: self.version_name@,
            is_system: self.is_system,
            install_time: self.install_time.deep_view(),
            update_time: self.update_time.deep_view(),
            size: self.size,
        }
    }
}

/// The name-only record that one package-list line describes: the part
/// after the equals sign, when the line has exactly one.
pub open spec fn package_of_line(l: Seq<char>) -> Option<PackageInfoView> {
    let ps = split_char_of(l, '=');
    if ps.len() == 2 {
        Some(
            PackageInfoView {
                name: ps[1],
                version_code: Seq::empty(),
                version_name: Seq::empty(),
                is_system: false,
                install_time: None,
                update_time: None,
                size: None,
            },
        )
    } else {
        None
    }
}

pub fn parse_package_line(line: &str) -> (r: Option<PackageInfo>)
    ensures
        r is None <==> package_of_line(line@) is None,
        r matches Some(p) ==> package_of_line(line@) == Some(p.deep_view()),
{
    let parts = split_on_char(line, '=');
    if parts.len() != 2 {
        return None;
    }
    proof {
        assert(parts.deep_view()[1] == parts@[1]@);
    }
    Some(
        PackageInfo {
            name: parts[1].clone(),
            version_code: String::new(),
            version_name: String::new(),
            is_system: false,
            install_time: None,
            update_time: None,
            size: None,
        },
    )
}

/// The records of a whole package-list output: each line contributing its
/// record if it has one.
pub open spec fn packages_of_lines(ls: Seq<Seq<char>>, i: int) -> Seq<PackageInfoView>
    decreases ls.len() - i,
    when 0 <= i <= ls.len()
{
    if i >= ls.len() {
        Seq::empty()
    } else {
        match package_of_line(ls[i]) {
            Some(p) => seq![p] + packages_of_lines(ls, i + 1),
            None => packages_of_lines(ls, i + 1),
        }
    }
}

pub open spec fn packages_of_output(out: Seq<char>) -> Seq<PackageInfoView> {
    packages_of_lines(lines_of(out), 0)
}

pub fn parse_package_list(output: &str) -> (r: Vec<PackageInfo>)
    ensures
        r.deep_view() == packages_of_output(output@),
{
    let lines = split_lines(output);
    let ghost ls = lines_of(output@);
    let mut out: Vec<PackageInfo> = Vec::new();
    let n = lines.len();
    let mut i: usize = 0;
    proof {
        assert(out.deep_view() =~= Seq::<PackageInfoView>::empty());
        assert(out.deep_view() + packages_of_lines(ls, 0) =~= packages_of_lines(ls, 0));
    }
    while i < n
        invariant
            lines.deep_view() == ls,
            n == ls.len(),
            n == lines@.len(),
            0 <= i <= n,
            packages_of_output(output@) == out.deep_view() + packages_of_lines(ls, i as int),
        decreases n - i,
    {
        proof {
            assert(lines.deep_view()[i as int] == lines@[i as int]@);
        }
        match parse_package_line(lines[i].as_str()) {
            Some(p) => {
                let ghost prev = out.deep_view();
                out.push(p);
                proof {
                    assert(out.deep_view() =~= prev.push(p.deep_view()));
                    assert(prev + (seq![p.deep_view()] + packages_of_lines(ls, i + 1)) =~= out
                        .deep_view() + packages_of_lines(ls, i + 1));
                }
            },
            None => {},
        }
        i += 1;
    }
    proof {
        assert(out.deep_view() + Seq::<PackageInfoView>::empty() =~= out.deep_view());
    }
    out
}

/// How one trimmed line of the package-detail dump changes the record
/// being filled.
pub open spec fn detail_step(st: PackageInfoView, l: Seq<char>) -> PackageInfoView {
    let t = trimmed(l);
    let ps = split_char_of(t, '=');
    if starts_with_seq(t, "versionCode="@) {
        if ps.len() >= 2 {
            PackageInfoView { version_code: trimmed(ps[1]), ..st }
        } else {
            st
        }
    } else if starts_with_seq(t, "versionName="@) {
        if ps.len() >= 2 {
            PackageInfoView { version_name: trimmed(ps[1]), ..st }
        } else {
            st
        }
    } else if starts_with_seq(t, "firstInstallTime="@) {
        if ps.len() >= 2 {
            PackageInfoView { install_time: Some(trimmed(ps[1])), ..st }
        } else {
            st
        }
    } else if starts_with_seq(t, "lastUpdateTime="@) {
        if ps.len() >= 2 {
            PackageInfoView { update_time: Some(trimmed(ps[1])), ..st }
        } else {
            st
        }
    } else if contains_seq(t, "codePath="@) && contains_seq(t, "/system/"@) {
        PackageInfoView { is_system: true, ..st }
    } else {
        st
    }
}

pub open spec fn detail_scan(ls: Seq<Seq<char>>, i: int, st: PackageInfoView) -> PackageInfoView
    decreases ls.len() - i,
    when 0 <= i <= ls.len()
{
    if i >= ls.len() {
        st
    } else {
        detail_scan(ls, i + 1, detail_step(st, ls[i]))
    }
}

pub open spec fn empty_package_view(name: Seq<char>) -> PackageInfoView {
    PackageInfoView {
        name: name,
        version_code: Seq::empty(),
        version_name: Seq::empty(),
        is_system: false,
        install_time: None,
        update_time: None,
        size: None,
    }
}

/// The record that a whole package-detail dump describes, its size left
/// as the zero placeholder the scan ends with.
pub open spec fn package_detail_of(out: Seq<char>, name: Seq<char>) -> PackageInfoView {
    let st = detail_scan(lines_of(out), 0, empty_package_view(name));
    PackageInfoView { size: Some(0u64), ..st }
}

pub fn parse_detailed_package_info(dumpsys_output: &str, package_name: &str) -> (r: PackageInfo)
    ensures
        r.deep_view() == package_detail_of(dumpsys_output@, package_name@),
{
    let lines = split_lines(dumpsys_output);
    let ghost ls = lines_of(dumpsys_output@);
    let mut info = PackageInfo {
        name: package_name.to_owned(),
        version_code: String::new(),
        version_name: String::new(),
        is_system: false,
        install_time: None,
        update_time: None,
        size: None,
    };
    let n = lines.len();
    let mut i: usize = 0;
    while i < n
        invariant
            lines.deep_view() == ls,
            n == ls.len(),
            n == lines@.len(),
            0 <= i <= n,
            detail_scan(ls, i as int, info.deep_view()) == detail_scan(
                ls,
                0,
                empty_package_view(package_name@),
            ),
        decreases n - i,
    {
        proof {
            assert(lines.deep_view()[i as int] == lines@[i as int]@);
        }
        let t = trim_str(lines[i].as_str());
        if str_starts_with(t.as_str(), "versionCode=") {
            let ps = split_on_char(t.as_str(), '=');
            if ps.len() >= 2 {
                proof {
                    assert(ps.deep_view()[1] == ps@[1]@);
                }
                info.version_code = trim_str(ps[1].as_str());
            }
        } else if str_starts_with(t.as_str(), "versionName=") {
            let ps = split_on_char(t.as_str(), '=');
            if ps.len() >= 2 {
                proof {
                    assert(ps.deep_view()[1] == ps@[1]@);
                }
                info.version_name = trim_str(ps[1].as_str());
            }
        } else if str_starts_with(t.as_str(), "firstInstallTime=") {
            let ps = split_on_char(t.as_str(), '=');
            if ps.len() >= 2 {
                proof {
                    assert(ps.deep_view()[1] == ps@[1]@);
                }
                info.install_time = Some(trim_str(ps[1].as_str()));
            }
        } else if str_starts_with(t.as_str(), "lastUpdateTime=") {
            let ps = split_on_char(t.as_str(), '=');
            if ps.len() >= 2 {
                proof {
                    assert(ps.deep_view()[1] == ps@[1]@);
                }
                info.update_time = Some(trim_str(ps[1].as_str()));
            }
        } else if str_contains(t.as_str(), "codePath=") && str_contains(t.as_str(), "/system/") {
            info.is_system = true;
        }
        i += 1;
    }
    info.size = Some(0);
    info
}

/// The argument string that lists the installed packages with their files.
pub fn get_package_list_command(device: &str) -> (r: String)
    ensures
        r@ == "-s "@ + device@ + " shell pm list packages -f"@,
{
    let mut s = "-s ".to_owned();
    s.append(device);
    s.append(" shell pm list packages -f");
    s
}

/// The argument string that dumps the details of one package.
pub fn get_package_info_command(device: &str, package_name: &str) -> (r: String)
    ensures
        r@ == "-s "@ + device@ + " shell dumpsys package "@ + package_name@,
{
    let mut s = "-s ".to_owned();
    s.append(device);
    s.append(" shell dumpsys package ");
    s.append(package_name);
    s
}

/// The argument string that installs an app, replacing any present copy.
pub fn install_app_command(device: &str, apk_path: &str) -> (r: String)
    ensures
        r@ == "-s "@ + device@ + " install -r "@ + apk_path@,
{
    let mut s = "-s ".to_owned();
    s.append(device);
    s.append(" install -r ");
    s.append(apk_path);
    s
}

/// The argument string that uninstalls a package.
pub fn uninstall_app_command(device: &str, package_name: &str) -> (r: String)
    ensures
        r@ == "-s "@ + device@ + " uninstall "@ + package_name@,
{
    let mut s = "-s ".to_owned();
    s.append(device);
    s.append(" uninstall ");
    s.append(package_name);
    s
}

} // verus!
