use vpn_core::packet::{
    add_tun_header, destination_of, in_vpn_subnet, parse_ipv4_header, parse_virtual_ip, tun_payload, PacketError,
};

fn packet(src: [u8; 4], dst: [u8; 4]) -> Vec<u8> {
    let mut p = vec![0x45, 0, 0, 28, 0, 0, 0, 0, 64, 1, 0, 0];
    p.extend_from_slice(&src);
    p.extend_from_slice(&dst);
    p.extend_from_slice(&[8, 0, 0, 0, 0, 1, 0, 1]);
    p
}

#[test]
fn header_addresses() {
    let p = packet([10, 0, 0, 2], [10, 0, 0, 3]);
    assert_eq!(parse_ipv4_header(&p), Ok((0x0a00_0002, 0x0a00_0003)));
    assert_eq!(destination_of(&p), Some(0x0a00_0003));
}

#[test]
fn header_errors() {
    assert_eq!(parse_ipv4_header(&[0x45; 19]), Err(PacketError::TooShort));
    let mut p = packet([1, 2, 3, 4], [5, 6, 7, 8]);
    p[0] = 0x60;
    assert_eq!(parse_ipv4_header(&p), Err(PacketError::NotIpv4));
    assert_eq!(destination_of(&p), Some(0x0506_0708));
    assert_eq!(destination_of(&p[..19]), None);
}

#[test]
fn virtual_ip_texts() {
    assert_eq!(parse_virtual_ip("10.0.0.2"), Some(0x0a00_0002));
    assert_eq!(parse_virtual_ip("255.255.255.255"), Some(0xffff_ffff));
    assert_eq!(parse_virtual_ip("0.0.0.0"), Some(0));
    assert_eq!(parse_virtual_ip("256.0.0.1"), None);
    assert_eq!(parse_virtual_ip("010.0.0.1"), None);
    assert_eq!(parse_virtual_ip("1.2.3"), None);
    assert_eq!(parse_virtual_ip("1.2.3.4.5"), None);
    assert_eq!(parse_virtual_ip("1.2..4"), None);
    assert_eq!(parse_virtual_ip("a.b.c.d"), None);
    assert_eq!(parse_virtual_ip(""), None);
    assert_eq!(parse_virtual_ip("1.2.3.4 "), None);
    assert_eq!(parse_virtual_ip("192.168.1.200"), Some(0xc0a8_01c8));
    assert_eq!(parse_virtual_ip("1.2.3.1000"), None);
    assert_eq!(parse_virtual_ip("1.2.3.-4"), None);
}

#[test]
fn vpn_subnet() {
    assert!(in_vpn_subnet(0x0a00_0000));
    assert!(in_vpn_subnet(0x0a00_00ff));
    assert!(!in_vpn_subnet(0x0a00_0100));
    assert!(!in_vpn_subnet(0x0808_0808));
}

#[test]
fn tun_framing() {
    assert_eq!(add_tun_header(&[0x45, 1]), vec![0, 0, 0, 2, 0x45, 1]);
    assert_eq!(tun_payload(&[0, 0, 0, 2, 0x45, 1], 4), Some(vec![0x45, 1]));
    assert_eq!(tun_payload(&[0, 0, 0, 2], 4), None);
    assert_eq!(tun_payload(&[0x45, 1], 0), Some(vec![0x45, 1]));
    assert_eq!(tun_payload(&[], 0), None);
}
