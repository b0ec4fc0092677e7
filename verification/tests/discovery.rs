use shareflow::control::DeviceInfo;
use shareflow::discovery::{
    announce, broadcast_addresses, in_excluded_range, is_virtual_adapter, participates,
    select_local_ip, Interface, Ipv4, Listener,
};
use shareflow::identity::{dash_spaces, device_id, local_device, prefixed_id};
use shareflow::protocol::Message;
use shareflow::transport::Transport;

fn ip(a: u8, b: u8, c: u8, d: u8) -> Ipv4 {
    Ipv4 { a, b, c, d }
}

fn iface(name: &str, addr: Ipv4) -> Interface {
    Interface { name: name.to_string(), addr }
}

#[test]
fn directed_broadcast_for_each_private_interface() {
    let list = vec![
        iface("lo", ip(127, 0, 0, 1)),
        iface("eth0", ip(192, 168, 1, 17)),
        iface("eth1", ip(10, 1, 2, 3)),
        iface("eth2", ip(172, 16, 5, 9)),
        iface("eth3", ip(172, 31, 0, 1)),
        iface("eth4", ip(172, 32, 0, 1)),
        iface("eth5", ip(172, 15, 0, 1)),
        iface("eth6", ip(8, 8, 8, 8)),
        iface("eth7", ip(169, 254, 3, 4)),
        iface("eth8", ip(198, 18, 0, 1)),
    ];
    assert_eq!(
        broadcast_addresses(&list),
        vec![ip(192, 168, 1, 255), ip(10, 1, 2, 255), ip(172, 16, 5, 255), ip(172, 31, 0, 255)]
    );
}

#[test]
fn limited_broadcast_is_the_fallback() {
    assert_eq!(broadcast_addresses(&vec![]), vec![ip(255, 255, 255, 255)]);
    let list = vec![iface("lo", ip(127, 0, 0, 1)), iface("wan", ip(81, 2, 3, 4))];
    assert_eq!(broadcast_addresses(&list), vec![ip(255, 255, 255, 255)]);
}

#[test]
fn virtual_adapters_are_left_out() {
    let list = vec![
        iface("VirtualBox Host-Only Network", ip(192, 168, 56, 1)),
        iface("VMware Network Adapter VMnet8", ip(192, 168, 80, 1)),
        iface("vEthernet (WSL)", ip(172, 20, 0, 1)),
        iface("docker0", ip(172, 17, 0, 1)),
        iface("Hyper-V Virtual Switch", ip(10, 0, 75, 1)),
        iface("Wi-Fi", ip(192, 168, 0, 42)),
    ];
    assert_eq!(broadcast_addresses(&list), vec![ip(192, 168, 0, 255)]);
    assert_eq!(select_local_ip(&list), Some(ip(192, 168, 0, 42)));
    assert!(!participates(&list[0]));
    assert!(participates(&list[5]));
}

#[test]
fn virtual_names_are_matched_in_lowercase() {
    assert!(is_virtual_adapter("virtualbox host-only"));
    assert!(is_virtual_adapter("my vmware adapter"));
    assert!(is_virtual_adapter("hyper-v"));
    assert!(is_virtual_adapter("vethernet (default switch)"));
    assert!(is_virtual_adapter("docker0"));
    assert!(is_virtual_adapter("xwslx"));
    assert!(!is_virtual_adapter("ethernet"));
    assert!(!is_virtual_adapter("ws"));
    assert!(!is_virtual_adapter(""));
    assert!(!is_virtual_adapter("VirtualBox"));
    assert!(!participates(&iface("DOCKER", ip(192, 168, 1, 1))));
}

#[test]
fn excluded_ranges() {
    assert!(in_excluded_range(ip(127, 0, 0, 1)));
    assert!(in_excluded_range(ip(127, 255, 1, 1)));
    assert!(in_excluded_range(ip(169, 254, 0, 9)));
    assert!(in_excluded_range(ip(198, 18, 0, 1)));
    assert!(in_excluded_range(ip(198, 19, 255, 1)));
    assert!(!in_excluded_range(ip(198, 20, 0, 1)));
    assert!(!in_excluded_range(ip(169, 253, 0, 1)));
    assert!(!in_excluded_range(ip(192, 168, 0, 1)));
}

#[test]
fn local_ip_prefers_the_home_range() {
    let list = vec![
        iface("eth0", ip(10, 0, 0, 5)),
        iface("eth1", ip(172, 16, 0, 5)),
        iface("wlan0", ip(192, 168, 1, 7)),
        iface("wlan1", ip(192, 168, 2, 8)),
    ];
    assert_eq!(select_local_ip(&list), Some(ip(192, 168, 1, 7)));
}

#[test]
fn local_ip_falls_back_to_other_private_ranges() {
    let list = vec![
        iface("lo", ip(127, 0, 0, 1)),
        iface("docker0", ip(10, 9, 9, 9)),
        iface("eth1", ip(172, 20, 0, 5)),
        iface("eth0", ip(10, 0, 0, 5)),
    ];
    assert_eq!(select_local_ip(&list), Some(ip(172, 20, 0, 5)));
}

#[test]
fn local_ip_is_none_without_private_interfaces() {
    assert_eq!(select_local_ip(&vec![]), None);
    let list = vec![
        iface("lo", ip(127, 0, 0, 1)),
        iface("wan", ip(81, 2, 3, 4)),
        iface("vmware1", ip(192, 168, 9, 1)),
    ];
    assert_eq!(select_local_ip(&list), None);
}

#[test]
fn announce_names_the_device_and_the_port() {
    let device = DeviceInfo {
        id: "device-a".to_string(),
        name: "A".to_string(),
        ip: "192.168.1.10".to_string(),
        device_type: "DESKTOP".to_string(),
    };
    assert_eq!(
        announce(&device, 8080),
        Message::Discovery { id: "device-a".to_string(), name: "A".to_string(), port: 8080 }
    );
}

#[test]
fn listener_hands_on_announces_and_counts_the_rest() {
    let mut listener = Listener::new();
    let hello = Message::Discovery { id: "device-a".to_string(), name: "A".to_string(), port: 8080 };
    let datagram = Transport::encode(&hello).unwrap();
    assert_eq!(listener.receive(&datagram), Some(hello));
    assert_eq!(listener.dropped, 0);
    assert_eq!(listener.receive(&[1, 2, 3]), None);
    assert_eq!(listener.dropped, 1);
    assert_eq!(listener.receive(&datagram[..datagram.len() - 1]), None);
    assert_eq!(listener.dropped, 2);
    let other = Transport::encode(&Message::ConnectRequest).unwrap();
    assert_eq!(listener.receive(&other), None);
    assert_eq!(listener.dropped, 3);
    listener.dropped = u64::MAX;
    assert_eq!(listener.receive(&[]), None);
    assert_eq!(listener.dropped, u64::MAX);
}

#[test]
fn device_id_is_lowercase_with_dashes() {
    assert_eq!(device_id("My Work PC"), "device-my-work-pc");
    assert_eq!(device_id("DESKTOP-7Q2"), "device-desktop-7q2");
    assert_eq!(device_id(""), "device-");
    assert_eq!(device_id("Größe  Ä"), "device-größe--ä");
    assert_eq!(dash_spaces(" a b "), "-a-b-");
    assert_eq!(prefixed_id("x"), "device-x");
}

#[test]
fn local_device_keeps_the_host_name() {
    assert_eq!(
        local_device("My PC", "192.168.1.10".to_string()),
        DeviceInfo {
            id: "device-my-pc".to_string(),
            name: "My PC".to_string(),
            ip: "192.168.1.10".to_string(),
            device_type: "DESKTOP".to_string(),
        }
    );
}
