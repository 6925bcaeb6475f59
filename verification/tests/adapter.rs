use dns_fallback::addr::to_socket_addrs;
use dns_fallback::addr::IpAddress;
use dns_fallback::addr::SocketAddress;

fn at(ip: IpAddress, port: u16) -> SocketAddress {
    SocketAddress { ip, port }
}

#[test]
fn adapter_pairs_each_address_with_port_zero_in_order() {
    let ips = vec![IpAddress::v4(10, 0, 0, 1), IpAddress::v4(10, 0, 0, 2)];
    let out = to_socket_addrs(ips, 0).collect();
    assert_eq!(
        out,
        vec![at(IpAddress::V4(0x0A00_0001), 0), at(IpAddress::V4(0x0A00_0002), 0)]
    );
}

#[test]
fn adapter_uses_the_port_it_is_given() {
    let ips = vec![IpAddress::v4(192, 168, 1, 1), IpAddress::V6(1)];
    let out = to_socket_addrs(ips, 443).collect();
    assert_eq!(out, vec![at(IpAddress::V4(0xC0A8_0101), 443), at(IpAddress::V6(1), 443)]);
}

#[test]
fn adapter_of_an_empty_result_is_empty() {
    let out = to_socket_addrs(Vec::new(), 0).collect();
    assert!(out.is_empty());
}

#[test]
fn adapter_keeps_duplicates_and_order() {
    let a = IpAddress::v4(10, 0, 0, 2);
    let b = IpAddress::v4(10, 0, 0, 1);
    let out = to_socket_addrs(vec![a, b, a], 0).collect();
    assert_eq!(out, vec![at(a, 0), at(b, 0), at(a, 0)]);
}

#[test]
fn v4_spells_its_octets_in_network_order() {
    assert_eq!(IpAddress::v4(93, 184, 215, 14), IpAddress::V4(0x5DB8_D70E));
    assert_eq!(IpAddress::v4(0, 0, 0, 0), IpAddress::V4(0));
    assert_eq!(IpAddress::v4(255, 255, 255, 255), IpAddress::V4(u32::MAX));
    assert_eq!(IpAddress::v4(1, 2, 3, 4), IpAddress::V4(0x0102_0304));
}

#[test]
fn is_ipv4_tells_the_families_apart() {
    assert!(IpAddress::v4(10, 0, 0, 1).is_ipv4());
    assert!(!IpAddress::V6(0x2606_2800_021f_cb07_6820_80da_af6b_8b2c).is_ipv4());
}

#[test]
fn socket_addrs_hands_out_one_address_at_a_time() {
    let ips = vec![IpAddress::v4(10, 0, 0, 1), IpAddress::v4(10, 0, 0, 2)];
    let mut pass = to_socket_addrs(ips, 0);
    assert_eq!(pass.next(), Some(at(IpAddress::V4(0x0A00_0001), 0)));
    assert_eq!(pass.next(), Some(at(IpAddress::V4(0x0A00_0002), 0)));
    assert_eq!(pass.next(), None);
    assert_eq!(pass.next(), None);
}

#[test]
fn socket_addrs_collects_what_is_left() {
    let ips = vec![IpAddress::v4(10, 0, 0, 1), IpAddress::v4(10, 0, 0, 2), IpAddress::V6(7)];
    let mut pass = to_socket_addrs(ips, 8080);
    assert_eq!(pass.next(), Some(at(IpAddress::V4(0x0A00_0001), 8080)));
    assert_eq!(
        pass.collect(),
        vec![at(IpAddress::V4(0x0A00_0002), 8080), at(IpAddress::V6(7), 8080)]
    );
}

#[test]
fn socket_addrs_of_nothing_ends_at_once() {
    let mut pass = to_socket_addrs(Vec::new(), 0);
    assert_eq!(pass.next(), None);
    assert!(pass.collect().is_empty());
}
