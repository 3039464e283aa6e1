//! Wireless connections and port forwarding: the argument strings of the
//! connection commands, the predicates that read their outputs, and the
//! parsers of the network diagnostics.

use vstd::prelude::*;
use vstd::string::*;
use crate::text::append_u64_dec;
use crate::text::contains_seq;
use crate::text::dec_str_of;
use crate::text::fields_of;
use crate::text::lines_of;
use crate::text::split_char_of;
use crate::text::split_fields;
use crate::text::split_lines;
use crate::text::split_on_char;
use crate::text::str_contains;
use crate::text::trim_str;
use crate::text::trimmed;

verus! {

/// A network snapshot of a device: radio states, the connected network
/// kinds, and the raw routing table text.
#[derive(Debug, Clone, PartialEq, Eq)]
pub struct NetworkDiagnostics {
    pub wifi_enabled: bool,
    pub mobile_data_enabled: bool,
    pub connected_networks: Vec<String>,
    pub ip_routes: String,
}

pub ghost struct NetworkDiagnosticsView {
    pub wifi_enabled: bool,
    pub mobile_data_enabled: bool,
    pub connected_networks: Seq<Seq<char>>,
    pub ip_routes: Seq<char>,
}

impl DeepView for NetworkDiagnostics {
    type V = NetworkDiagnosticsView;

    open spec fn deep_view(&self) -> NetworkDiagnosticsView {
        NetworkDiagnosticsView {
            wifi_enabled: self.wifi_enabled,
            mobile_data_enabled: self.mobile_data_enabled,
            connected_networks: self.connected_networks.deep_view(),
            ip_routes: self.ip_routes@,
        }
    }
}

/// The network kinds named by the connected network-agent lines, in
/// order: wireless, mobile or wired, whichever each line names first.
pub open spec fn networks_of_lines(ls: Seq<Seq<char>>, i: int) -> Seq<Seq<char>>
    decreases ls.len() - i,
    when 0 <= i <= ls.len()
{
    if i >= ls.len() {
        Seq::empty()
    } else if contains_seq(ls[i], "NetworkAgentInfo"@) && contains_seq(ls[i], "CONNECTED"@) {
        if contains_seq(ls[i], "WIFI"@) {
            seq!["WiFi"@] + networks_of_lines(ls, i + 1)
        } else if contains_seq(ls[i], "MOBILE"@) {
            seq!["Mobile"@] + networks_of_lines(ls, i + 1)
        } else if contains_seq(ls[i], "ETHERNET"@) {
            seq!["Ethernet"@] + networks_of_lines(ls, i + 1)
        } else {
            networks_of_lines(ls, i + 1)
        }
    } else {
        networks_of_lines(ls, i + 1)
    }
}

pub fn parse_connected_networks(network_info: &str) -> (r: Vec<String>)
    ensures
        r.deep_view() == networks_of_lines(lines_of(network_info@), 0),
{
    let lines = split_lines(network_info);
    let ghost ls = lines_of(network_info@);
    let mut out: Vec<String> = Vec::new();
    let n = lines.len();
    let mut i: usize = 0;
    proof {
        assert(out.deep_view() =~= Seq::<Seq<char>>::empty());
        assert(out.deep_view() + networks_of_lines(ls, 0) =~= networks_of_lines(ls, 0));
    }
    while i < n
        invariant
            lines.deep_view() == ls,
            n == ls.len(),
            n == lines@.len(),
            0 <= i <= n,
            networks_of_lines(ls, 0) == out.deep_view() + networks_of_lines(ls, i as int),
        decreases n - i,
    {
        proof {
            assert(lines.deep_view()[i as int] == lines@[i as int]@);
        }
        let line = lines[i].as_str();
        if str_contains(line, "NetworkAgentInfo") && str_contains(line, "CONNECTED") {
            let kind: Option<&str> = if str_contains(line, "WIFI") {
                Some("WiFi")
            } else if str_contains(line, "MOBILE") {
                Some("Mobile")
            } else if str_contains(line, "ETHERNET") {
                Some("Ethernet")
            } else {
                None
            };
            match kind {
                Some(k) => {
                    let ghost prev = out.deep_view();
                    out.push(k.to_owned());
                    proof {
                        assert(out.deep_view() =~= prev.push(k@));
                        assert(prev + (seq![k@] + networks_of_lines(ls, i + 1)) =~= out.deep_view()
                            + networks_of_lines(ls, i + 1));
                    }
                },
                None => {},
            }
        }
        i += 1;
    }
    proof {
        assert(out.deep_view() + Seq::<Seq<char>>::empty() =~= out.deep_view());
    }
    out
}

/// The network snapshot assembled from the three raw outputs: the
/// wireless dump, the connectivity dump, and the routing table.
pub fn build_network_diagnostics(wifi_info: &str, network_info: &str, ip_info: &str) -> (r:
    NetworkDiagnostics)
    ensures
        r.deep_view().wifi_enabled == contains_seq(wifi_info@, "Wi-Fi is enabled"@),
        r.deep_view().mobile_data_enabled == contains_seq(network_info@, "MOBILE"@),
        r.deep_view().connected_networks == networks_of_lines(lines_of(network_info@), 0),
        r.deep_view().ip_routes == ip_info@,
{
    NetworkDiagnostics {
        wifi_enabled: str_contains(wifi_info, "Wi-Fi is enabled"),
        mobile_data_enabled: str_contains(network_info, "MOBILE"),
        connected_networks: parse_connected_networks(network_info),
        ip_routes: ip_info.to_owned(),
    }
}

/// The first line at or after `i` that carries an address and is not the
/// loopback line.
pub open spec fn first_inet_line(ls: Seq<Seq<char>>, i: int) -> Option<Seq<char>>
    decreases ls.len() - i,
    when 0 <= i <= ls.len()
{
    if i >= ls.len() {
        None
    } else if contains_seq(ls[i], "inet "@) && !contains_seq(ls[i], "127.0.0.1"@) {
        Some(ls[i])
    } else {
        first_inet_line(ls, i + 1)
    }
}

/// The address of an interface listing: on the first non-loopback
/// address line, the second field up to its first slash.
pub open spec fn device_ip_of(out: Seq<char>) -> Option<Seq<char>> {
    match first_inet_line(lines_of(out), 0) {
        Some(l) => {
            let ws = fields_of(l);
            if ws.len() >= 2 {
                Some(split_char_of(ws[1], '/')[0])
            } else {
                None
            }
        },
        None => None,
    }
}

pub fn extract_device_ip(output: &str) -> (r: Option<String>)
    ensures
        r is None <==> device_ip_of(output@) is None,
        r matches Some(ip) ==> device_ip_of(output@) == Some(ip@),
{
    let lines = split_lines(output);
    let ghost ls = lines_of(output@);
    let n = lines.len();
    let mut i: usize = 0;
    while i < n
        invariant
            lines.deep_view() == ls,
            n == ls.len(),
            n == lines@.len(),
            0 <= i <= n,
            ls == lines_of(output@),
            first_inet_line(ls, 0) == first_inet_line(ls, i as int),
        decreases n - i,
    {
        proof {
            assert(lines.deep_view()[i as int] == lines@[i as int]@);
        }
        let line = lines[i].as_str();
        if str_contains(line, "inet ") && !str_contains(line, "127.0.0.1") {
            proof {
                assert(first_inet_line(ls, i as int) == Some(ls[i as int]));
            }
            let ws = split_fields(line);
            proof {
                assert(ws.deep_view() == fields_of(ls[i as int]));
                assert(ws.deep_view().len() == ws@.len());
            }
            if ws.len() >= 2 {
                proof {
                    assert(ws.deep_view()[1] == ws@[1]@);
                }
                let pieces = split_on_char(ws[1].as_str(), '/');
                proof {
                    crate::text::lemma_split_char_nonempty(ws@[1]@, '/', 0, Seq::empty());
                    assert(pieces.deep_view().len() >= 1);
                    assert(pieces.deep_view().len() == pieces@.len());
                    assert(pieces.deep_view()[0] == pieces@[0]@);
                }
                return Some(pieces[0].clone());
            }
            return None;
        }
        i += 1;
    }
    None
}

/// The ninth whitespace-separated field of a routing-table line, where a
/// wireless route names the device address.
pub open spec fn route_ip_of(out: Seq<char>) -> Option<Seq<char>> {
    let ws = fields_of(out);
    if ws.len() >= 9 {
        Some(ws[8])
    } else {
        None
    }
}

pub fn extract_route_ip(output: &str) -> (r: Option<String>)
    ensures
        r is None <==> route_ip_of(output@) is None,
        r matches Some(ip) ==> route_ip_of(output@) == Some(ip@),
{
    let ws = split_fields(output);
    if ws.len() >= 9 {
        proof {
            assert(ws.deep_view()[8] == ws@[8]@);
        }
        Some(ws[8].clone())
    } else {
        None
    }
}

/// Whether a connect output reports a connection.  A disconnect report
/// also holds the word, as the caller's check does not tell them apart.
pub fn connect_output_ok(output: &str) -> (r: bool)
    ensures
        r == contains_seq(output@, "connected"@),
{
    str_contains(output, "connected")
}

/// Whether a disconnect output reports a disconnection.
pub fn disconnect_output_ok(output: &str) -> (r: bool)
    ensures
        r == contains_seq(output@, "disconnected"@),
{
    str_contains(output, "disconnected")
}

/// Whether a network-mode output reports the restart into network mode.
pub fn tcpip_output_ok(output: &str) -> (r: bool)
    ensures
        r == contains_seq(output@, "restarting in TCP mode"@),
{
    str_contains(output, "restarting in TCP mode")
}

/// Whether a cable-mode output reports the restart into cable mode.
pub fn usb_output_ok(output: &str) -> (r: bool)
    ensures
        r == contains_seq(output@, "restarting in USB mode"@),
{
    str_contains(output, "restarting in USB mode")
}

/// Whether a port-status output names the network debugging port.
pub fn tcp_port_active(status: &str) -> (r: bool)
    ensures
        r == contains_seq(trimmed(status@), "5555"@),
{
    let t = trim_str(status);
    str_contains(t.as_str(), "5555")
}

/// Whether a reachability probe output reports success, which the probe
/// signals by printing nothing.
pub fn connectivity_output_ok(output: &str) -> (r: bool)
    ensures
        r == (output@.len() == 0),
{
    output.unicode_len() == 0
}

/// The argument string that forwards a local port to a device port.
pub fn forward_port_command(device: &str, local_port: u16, remote_port: u16) -> (r: String)
    ensures
        r@ == "-s "@ + device@ + " forward tcp:"@ + dec_str_of(local_port as int) + " tcp:"@
            + dec_str_of(remote_port as int),
{
    let mut s = "-s ".to_owned();
    s.append(device);
    s.append(" forward tcp:");
    append_u64_dec(&mut s, local_port as u64);
    s.append(" tcp:");
    append_u64_dec(&mut s, remote_port as u64);
    s
}

/// The argument string that removes one port forward.
pub fn remove_port_forward_command(device: &str, local_port: u16) -> (r: String)
    ensures
        r@ == "-s "@ + device@ + " forward --remove tcp:"@ + dec_str_of(local_port as int),
{
    let mut s = "-s ".to_owned();
    s.append(device);
    s.append(" forward --remove tcp:");
    append_u64_dec(&mut s, local_port as u64);
    s
}

/// The argument string that forwards a device port back to a local port.
pub fn reverse_forward_port_command(device: &str, remote_port: u16, local_port: u16) -> (r: String)
    ensures
        r@ == "-s "@ + device@ + " reverse tcp:"@ + dec_str_of(remote_port as int) + " tcp:"@
            + dec_str_of(local_port as int),
{
    let mut s = "-s ".to_owned();
    s.append(device);
    s.append(" reverse tcp:");
    append_u64_dec(&mut s, remote_port as u64);
    s.append(" tcp:");
    append_u64_dec(&mut s, local_port as u64);
    s
}

/// The argument string that removes one reverse port forward.
pub fn remove_reverse_forward_command(device: &str, remote_port: u16) -> (r: String)
    ensures
        r@ == "-s "@ + device@ + " reverse --remove tcp:"@ + dec_str_of(remote_port as int),
{
    let mut s = "-s ".to_owned();
    s.append(device);
    s.append(" reverse --remove tcp:");
    append_u64_dec(&mut s, remote_port as u64);
    s
}

/// The argument string that lists the port forwards of a device.
pub fn list_forwards_command(device: &str) -> (r: String)
    ensures
        r@ == "-s "@ + device@ + " forward --list"@,
{
    let mut s = "-s ".to_owned();
    s.append(device);
    s.append(" forward --list");
    s
}

/// The argument string that lists the reverse port forwards of a device.
pub fn list_reverse_forwards_command(device: &str) -> (r: String)
    ensures
        r@ == "-s "@ + device@ + " reverse --list"@,
{
    let mut s = "-s ".to_owned();
    s.append(device);
    s.append(" reverse --list");
    s
}

/// The argument string that connects to a device over the network.
pub fn connect_command(ip: &str, port: u16) -> (r: String)
    ensures
        r@ == "connect "@ + ip@ + ":"@ + dec_str_of(port as int),
{
    let mut s = "connect ".to_owned();
    s.append(ip);
    s.append(":");
    append_u64_dec(&mut s, port as u64);
    s
}

/// The argument string that disconnects from a device on the network.
pub fn disconnect_command(ip: &str, port: u16) -> (r: String)
    ensures
        r@ == "disconnect "@ + ip@ + ":"@ + dec_str_of(port as int),
{
    let mut s = "disconnect ".to_owned();
    s.append(ip);
    s.append(":");
    append_u64_dec(&mut s, port as u64);
    s
}

/// The argument string that restarts a device into network debugging on
/// the standard port.
pub fn tcpip_command(device: &str) -> (r: String)
    ensures
        r@ == "-s "@ + device@ + " tcpip 5555"@,
{
    let mut s = "-s ".to_owned();
    s.append(device);
    s.append(" tcpip 5555");
    s
}

/// The argument string that restarts a device into cable debugging.
pub fn usb_mode_command(device: &str) -> (r: String)
    ensures
        r@ == "-s "@ + device@ + " usb"@,
{
    let mut s = "-s ".to_owned();
    s.append(device);
    s.append(" usb");
    s
}

/// The probe argument string that tests reachability of a host, with a
/// port only when one is given.
pub open spec fn test_connectivity_command_of(
    device: Seq<char>,
    host: Seq<char>,
    port: Option<u16>,
) -> Seq<char> {
    let head = "-s "@ + device + " shell nc -z -w5 "@ + host;
    match port {
        Some(p) => head + ":"@ + dec_str_of(p as int),
        None => head,
    }
}

pub fn test_connectivity_command(device: &str, host: &str, port: Option<u16>) -> (r: String)
    ensures
        r@ == test_connectivity_command_of(device@, host@, port),
{
    let mut s = "-s ".to_owned();
    s.append(device);
    s.append(" shell nc -z -w5 ");
    s.append(host);
    match port {
        Some(p) => {
            s.append(":");
            append_u64_dec(&mut s, p as u64);
        },
        None => {},
    }
    s
}

} // verus!
