use rust_adb::retry::connect_decision;
use rust_adb::retry::next_attempt;
use rust_adb::retry::ConnectDecision;
use rust_adb::retry::RetryDecision;
use rust_adb::wireless::build_network_diagnostics;
use rust_adb::wireless::connect_command;
use rust_adb::wireless::connect_output_ok;
use rust_adb::wireless::disconnect_command;
use rust_adb::wireless::disconnect_output_ok;
use rust_adb::wireless::extract_device_ip;
use rust_adb::wireless::extract_route_ip;
use rust_adb::wireless::forward_port_command;
use rust_adb::wireless::parse_connected_networks;
use rust_adb::wireless::remove_port_forward_command;
use rust_adb::wireless::reverse_forward_port_command;
use rust_adb::wireless::tcp_port_active;
use rust_adb::wireless::tcpip_command;
use rust_adb::wireless::tcpip_output_ok;
use rust_adb::wireless::test_connectivity_command;
use rust_adb::wireless::usb_output_ok;

#[test]
fn connection_predicates() {
    assert!(connect_output_ok("connected to 192.168.1.2:5555"));
    assert!(connect_output_ok("already connected"));
    assert!(connect_output_ok("disconnected"));
    assert!(!connect_output_ok("failed to connect"));
    assert!(disconnect_output_ok("disconnected 192.168.1.2:5555"));
    assert!(!disconnect_output_ok("connected"));
    assert!(tcpip_output_ok("restarting in TCP mode port: 5555"));
    assert!(!tcpip_output_ok("error"));
    assert!(usb_output_ok("restarting in USB mode"));
    assert!(tcp_port_active(" 5555 \n"));
    assert!(!tcp_port_active(""));
}

#[test]
fn device_ip_from_interface_listing() {
    let out = "\
1: lo: <LOOPBACK,UP> mtu 65536
    inet 127.0.0.1/8 scope host lo
2: wlan0: <BROADCAST,UP> mtu 1500
    inet 192.168.1.42/24 brd 192.168.1.255 scope global wlan0
";
    assert_eq!(extract_device_ip(out).as_deref(), Some("192.168.1.42"));
    assert_eq!(extract_device_ip("nothing"), None);
}

#[test]
fn route_ip_field() {
    let out = "default via 192.168.1.1 dev wlan0 proto dhcp src 192.168.1.42 metric 600";
    assert_eq!(extract_route_ip(out).as_deref(), Some("192.168.1.42"));
    assert_eq!(extract_route_ip("too short"), None);
}

#[test]
fn connected_network_kinds() {
    let out = "\
NetworkAgentInfo [WIFI () - 100] CONNECTED
NetworkAgentInfo [MOBILE (LTE) - 101] CONNECTED
NetworkAgentInfo [WIFI () - 102] DISCONNECTED
NetworkAgentInfo [ETHERNET () - 103] CONNECTED
other line WIFI CONNECTED
";
    // a disconnect report still holds the word CONNECTED, as the scan sees it
    assert_eq!(parse_connected_networks(out), vec!["WiFi", "Mobile", "WiFi", "Ethernet"]);
}

#[test]
fn network_diagnostics_assembly() {
    let d = build_network_diagnostics(
        "Wi-Fi is enabled",
        "NetworkAgentInfo [MOBILE] CONNECTED\nMOBILE data",
        "default via 10.0.0.1",
    );
    assert!(d.wifi_enabled);
    assert!(d.mobile_data_enabled);
    assert_eq!(d.connected_networks, vec!["Mobile"]);
    assert_eq!(d.ip_routes, "default via 10.0.0.1");
}

#[test]
fn wireless_commands() {
    assert_eq!(forward_port_command("d", 8080, 9090), "-s d forward tcp:8080 tcp:9090");
    assert_eq!(remove_port_forward_command("d", 8080), "-s d forward --remove tcp:8080");
    assert_eq!(reverse_forward_port_command("d", 9, 10), "-s d reverse tcp:9 tcp:10");
    assert_eq!(connect_command("192.168.1.2", 5555), "connect 192.168.1.2:5555");
    assert_eq!(disconnect_command("192.168.1.2", 5555), "disconnect 192.168.1.2:5555");
    assert_eq!(tcpip_command("d"), "-s d tcpip 5555");
    assert_eq!(test_connectivity_command("d", "example.com", Some(443)), "-s d shell nc -z -w5 example.com:443");
    assert_eq!(test_connectivity_command("d", "example.com", None), "-s d shell nc -z -w5 example.com");
}

#[test]
fn command_retry_policy() {
    assert_eq!(next_attempt(0), RetryDecision::Retry { attempt: 1, delay_ms: 100 });
    assert_eq!(next_attempt(1), RetryDecision::Retry { attempt: 2, delay_ms: 200 });
    assert_eq!(next_attempt(2), RetryDecision::GiveUp);
    assert_eq!(next_attempt(7), RetryDecision::GiveUp);
}

#[test]
fn wireless_connect_policy() {
    assert_eq!(connect_decision(1, 0, "connected to x"), ConnectDecision::Connected);
    assert_eq!(connect_decision(1, 10001, "nope"), ConnectDecision::TimedOut);
    assert_eq!(connect_decision(2, 500, "nope"), ConnectDecision::RetryAfter(2000));
    assert_eq!(connect_decision(5, 500, "nope"), ConnectDecision::GiveUp);
    assert_eq!(connect_decision(5, 500, "connected"), ConnectDecision::Connected);
}
