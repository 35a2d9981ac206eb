use forwarder::ipaddr::{is_loopback_address, parse_address_word, parse_ip_addresses, parse_ipv4};

fn ip(a: u32, b: u32, c: u32, d: u32) -> u32 {
    (a << 24) | (b << 16) | (c << 8) | d
}

#[test]
fn parses_dotted_quads() {
    assert_eq!(parse_ipv4(&b"192.168.1.5".to_vec()), Some(ip(192, 168, 1, 5)));
    assert_eq!(parse_ipv4(&b"0.0.0.0".to_vec()), Some(0));
    assert_eq!(parse_ipv4(&b"255.255.255.255".to_vec()), Some(u32::MAX));
    assert_eq!(parse_ipv4(&b"256.1.1.1".to_vec()), None);
    assert_eq!(parse_ipv4(&b"1.2.3".to_vec()), None);
    assert_eq!(parse_ipv4(&b"1.2.3.4.5".to_vec()), None);
    assert_eq!(parse_ipv4(&b"01.2.3.4".to_vec()), None);
    assert_eq!(parse_ipv4(&b"1..3.4".to_vec()), None);
    assert_eq!(parse_ipv4(&b"192.168.1.5/24".to_vec()), None);
    assert_eq!(parse_ipv4(&b"a.b.c.d".to_vec()), None);
}

#[test]
fn loopback_block() {
    assert!(is_loopback_address(ip(127, 0, 0, 1)));
    assert!(is_loopback_address(ip(127, 255, 0, 9)));
    assert!(!is_loopback_address(ip(128, 0, 0, 1)));
}

#[test]
fn parses_ip_addr_output() {
    let out = "1: lo: <LOOPBACK,UP,LOWER_UP> mtu 65536\n    inet 127.0.0.1/8 scope host lo\n2: eth0: <BROADCAST> mtu 1500\n    link/ether 00:11:22:33:44:55 brd ff:ff:ff:ff:ff:ff\n    inet 192.168.1.5/24 brd 192.168.1.255 scope global eth0\n    inet6 fe80::1/64 scope link\n";
    assert_eq!(parse_ip_addresses(&out.as_bytes().to_vec()), vec![ip(192, 168, 1, 5)]);
}

#[test]
fn parses_ipconfig_output() {
    let out = "Ethernet adapter:\r\n   IPv4 Address. . . . . . . . . . . : 10.0.0.7\r\n   Subnet Mask . . . . . . . . . . . : 255.255.255.0\r\n   Default Gateway . . . : 10.0.0.1\r\n";
    assert_eq!(parse_ip_addresses(&out.as_bytes().to_vec()), vec![ip(10, 0, 0, 7)]);
}

#[test]
fn loopback_and_unmarked_lines_are_skipped() {
    let out = "inet 127.0.0.1 10.1.2.3\ninet 10.1.2.4 peer 10.1.2.5/32\nother 10.9.9.9\n";
    assert_eq!(parse_ip_addresses(&out.as_bytes().to_vec()), vec![ip(10, 1, 2, 4)]);
    assert_eq!(parse_ip_addresses(&Vec::new()), Vec::<u32>::new());
}

#[test]
fn single_bound_address_line() {
    let out = "    inet 192.168.1.5/24 brd 192.168.1.255 scope global eth0";
    assert_eq!(parse_ip_addresses(&out.as_bytes().to_vec()), vec![ip(192, 168, 1, 5)]);
}

#[test]
fn address_words_with_prefix_length() {
    assert_eq!(parse_address_word(&b"10.0.0.1/8".to_vec()), Some(ip(10, 0, 0, 1)));
    assert_eq!(parse_address_word(&b"10.0.0.1/32".to_vec()), Some(ip(10, 0, 0, 1)));
    assert_eq!(parse_address_word(&b"10.0.0.1".to_vec()), Some(ip(10, 0, 0, 1)));
    assert_eq!(parse_address_word(&b"10.0.0.1/33".to_vec()), None);
    assert_eq!(parse_address_word(&b"10.0.0.1/".to_vec()), None);
    assert_eq!(parse_address_word(&b"10.0.0/24".to_vec()), None);
}
