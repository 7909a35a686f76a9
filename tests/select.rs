use trin_socket::address::{IpAddress, Ipv4Address, Ipv6Address, SocketEndpoint};
use trin_socket::select::{
    default_local_address, find_assigned_ip, AddressKind, InterfaceAddress, NetworkInterface,
};

fn v4(a: u8, b: u8, c: u8, d: u8) -> IpAddress {
    IpAddress::V4(Ipv4Address(a, b, c, d))
}

fn entry(kind: AddressKind, addr: Option<IpAddress>) -> InterfaceAddress {
    InterfaceAddress { kind, addr }
}

fn nic(name: &str, up: bool, running: bool, loopback: bool, addresses: Vec<InterfaceAddress>) -> NetworkInterface {
    NetworkInterface { name: name.to_string(), up, running, loopback, addresses }
}

#[test]
fn no_interfaces_falls_back_to_localhost() {
    for port in [0u16, 1, 9000, 65535] {
        let r = default_local_address(&Vec::new(), port);
        assert_eq!(r, SocketEndpoint { ip: v4(127, 0, 0, 1), port });
    }
}

#[test]
fn no_candidate_falls_back_to_localhost() {
    let nics = vec![
        nic("lo", true, true, true, vec![entry(AddressKind::Ipv4, Some(v4(127, 0, 0, 1)))]),
        nic("eth0", false, true, false, vec![entry(AddressKind::Ipv4, Some(v4(10, 0, 0, 2)))]),
        nic("eth1", true, false, false, vec![entry(AddressKind::Ipv4, Some(v4(10, 0, 0, 3)))]),
        nic("eth2", true, true, false, vec![entry(AddressKind::Ipv6, Some(IpAddress::V6(Ipv6Address(1))))]),
    ];
    assert_eq!(find_assigned_ip(&nics), None);
    assert_eq!(default_local_address(&nics, 4242), SocketEndpoint { ip: v4(127, 0, 0, 1), port: 4242 });
}

#[test]
fn single_candidate_is_chosen_among_others() {
    let a = v4(192, 168, 1, 20);
    let nics = vec![
        nic("lo", true, true, true, vec![entry(AddressKind::Ipv4, Some(v4(127, 0, 0, 1)))]),
        nic("eth0", false, false, false, vec![entry(AddressKind::Ipv4, Some(v4(10, 0, 0, 2)))]),
        nic("wlan0", true, true, false, vec![
            entry(AddressKind::Ipv6, Some(IpAddress::V6(Ipv6Address(0xfe80 << 112)))),
            entry(AddressKind::Packet, None),
        ]),
        nic("eth1", true, true, false, vec![
            entry(AddressKind::Link, None),
            entry(AddressKind::Ipv4, None),
            entry(AddressKind::Ipv4, Some(a)),
        ]),
        nic("eth2", true, false, false, vec![entry(AddressKind::Ipv4, Some(v4(10, 0, 0, 9)))]),
    ];
    assert_eq!(find_assigned_ip(&nics), Some(a));
    assert_eq!(default_local_address(&nics, 9000), SocketEndpoint { ip: a, port: 9000 });
}

#[test]
fn first_candidate_in_enumeration_order_wins() {
    let a = v4(10, 1, 1, 1);
    let b = v4(10, 2, 2, 2);
    let nics = vec![
        nic("eth0", true, true, false, vec![entry(AddressKind::Ipv4, Some(a))]),
        nic("eth1", true, true, false, vec![entry(AddressKind::Ipv4, Some(b))]),
    ];
    assert_eq!(default_local_address(&nics, 30303), SocketEndpoint { ip: a, port: 30303 });
    let swapped = vec![
        nic("eth1", true, true, false, vec![entry(AddressKind::Ipv4, Some(b))]),
        nic("eth0", true, true, false, vec![entry(AddressKind::Ipv4, Some(a))]),
    ];
    assert_eq!(default_local_address(&swapped, 30303), SocketEndpoint { ip: b, port: 30303 });
}

#[test]
fn first_ipv4_entry_of_an_interface_wins() {
    let nics = vec![nic("eth0", true, true, false, vec![
        entry(AddressKind::Unknown(17), Some(v4(1, 1, 1, 1))),
        entry(AddressKind::Ipv4, Some(v4(172, 16, 0, 5))),
        entry(AddressKind::Ipv4, Some(v4(172, 16, 0, 6))),
    ])];
    assert_eq!(find_assigned_ip(&nics), Some(v4(172, 16, 0, 5)));
}
