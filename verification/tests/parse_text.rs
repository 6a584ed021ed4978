use api_access::ip::{format_ip, IpAddress};
use api_access::parse::{parse_ip, parse_ipv4, parse_ipv6};
use api_access::text::str_eq;

#[test]
fn str_eq_compares_contents() {
    assert!(str_eq("", ""));
    assert!(str_eq("abc", "abc"));
    assert!(!str_eq("abc", "abd"));
    assert!(!str_eq("abc", "ab"));
}

#[test]
fn parse_ipv4_accepts_canonical_forms() {
    assert_eq!(parse_ipv4("1.2.3.4"), Some(IpAddress::V4(1, 2, 3, 4)));
    assert_eq!(parse_ipv4("0.0.0.0"), Some(IpAddress::V4(0, 0, 0, 0)));
    assert_eq!(parse_ipv4("255.255.255.255"), Some(IpAddress::V4(255, 255, 255, 255)));
    assert_eq!(parse_ipv4("10.0.200.9"), Some(IpAddress::V4(10, 0, 200, 9)));
}

#[test]
fn parse_ipv4_rejects_malformed_input() {
    assert_eq!(parse_ipv4(""), None);
    assert_eq!(parse_ipv4("1.2.3"), None);
    assert_eq!(parse_ipv4("1.2.3.4.5"), None);
    assert_eq!(parse_ipv4("256.1.1.1"), None);
    assert_eq!(parse_ipv4("01.2.3.4"), None);
    assert_eq!(parse_ipv4("1.2.3.04"), None);
    assert_eq!(parse_ipv4("1..2.3"), None);
    assert_eq!(parse_ipv4("1.2.3.4 "), None);
    assert_eq!(parse_ipv4("a.b.c.d"), None);
    assert_eq!(parse_ipv4("1.2.3.4."), None);
}

#[test]
fn parse_ipv6_accepts_full_lowercase_groups() {
    assert_eq!(parse_ipv6("0:0:0:0:0:0:0:1"), Some(IpAddress::V6(0, 0, 0, 0, 0, 0, 0, 1)));
    assert_eq!(
        parse_ipv6("fe80:0:0:0:1:2:3:4"),
        Some(IpAddress::V6(0xfe80, 0, 0, 0, 1, 2, 3, 4))
    );
    assert_eq!(
        parse_ipv6("ffff:ffff:ffff:ffff:ffff:ffff:ffff:ffff"),
        Some(IpAddress::V6(0xffff, 0xffff, 0xffff, 0xffff, 0xffff, 0xffff, 0xffff, 0xffff))
    );
}

#[test]
fn parse_ipv6_rejects_other_spellings() {
    // Only the full eight-group spelling is in this library's grammar.
    assert_eq!(parse_ipv6("::1"), None);
    assert_eq!(parse_ipv6("fe80::1"), None);
    assert_eq!(parse_ipv6("0:0:0:0:0:0:1"), None);
    assert_eq!(parse_ipv6("0:0:0:0:0:0:0:0:1"), None);
    assert_eq!(parse_ipv6("FE80:0:0:0:1:2:3:4"), None);
    assert_eq!(parse_ipv6("0:0:0:0:0:0:0:00001"), None);
    assert_eq!(parse_ipv6("0:0:0:0:0:0:0:01"), None);
    assert_eq!(parse_ipv6("g:0:0:0:0:0:0:0"), None);
}

#[test]
fn parse_ip_handles_both_families() {
    assert_eq!(parse_ip("1.2.3.4"), Some(IpAddress::V4(1, 2, 3, 4)));
    assert_eq!(parse_ip("0:0:0:0:0:0:0:1"), Some(IpAddress::V6(0, 0, 0, 0, 0, 0, 0, 1)));
    assert_eq!(parse_ip("localhost"), None);
    assert_eq!(parse_ip("1.2.3.4:443"), None);
}

#[test]
fn parse_inverts_format() {
    let addresses = [
        IpAddress::V4(0, 0, 0, 0),
        IpAddress::V4(127, 0, 0, 1),
        IpAddress::V4(255, 255, 255, 255),
        IpAddress::V6(0, 0, 0, 0, 0, 0, 0, 0),
        IpAddress::V6(0xfe80, 0, 0, 0, 0x1234, 0xabcd, 0xff, 1),
    ];
    for address in addresses {
        assert_eq!(parse_ip(&format_ip(&address)), Some(address));
    }
}
