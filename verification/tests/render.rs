use api_access::ip::{format_ip, format_socket, IpAddress, SocketAddress};
use api_access::method::{AccessMethodRecord, AccessMethodVariant, MethodId, Shadowsocks, Socks5Local, Socks5Remote};
use api_access::pp::{format_list_entry, format_record, test_result_message, ApiAccessMethodFormatter};
use api_access::text::{u64_to_dec, u64_to_hex};

fn shadowsocks_record(enabled: bool) -> AccessMethodRecord {
    AccessMethodRecord {
        id: MethodId { value: 2 },
        name: "ss1".to_string(),
        enabled,
        variant: AccessMethodVariant::Shadowsocks(Shadowsocks {
            peer: SocketAddress { ip: IpAddress::V4(1, 2, 3, 4), port: 443 },
            password: "mullvad".to_string(),
            cipher: "aes-256-gcm".to_string(),
        }),
    }
}

#[test]
fn decimal_rendering() {
    assert_eq!(u64_to_dec(0), "0");
    assert_eq!(u64_to_dec(7), "7");
    assert_eq!(u64_to_dec(10), "10");
    assert_eq!(u64_to_dec(255), "255");
    assert_eq!(u64_to_dec(65535), "65535");
}

#[test]
fn hexadecimal_rendering() {
    assert_eq!(u64_to_hex(0), "0");
    assert_eq!(u64_to_hex(10), "a");
    assert_eq!(u64_to_hex(255), "ff");
    assert_eq!(u64_to_hex(65535), "ffff");
    assert_eq!(u64_to_hex(0xfe80), "fe80");
}

#[test]
fn ip_rendering() {
    assert_eq!(format_ip(&IpAddress::V4(1, 2, 3, 4)), "1.2.3.4");
    assert_eq!(format_ip(&IpAddress::V4(0, 0, 0, 0)), "0.0.0.0");
    assert_eq!(format_ip(&IpAddress::V4(255, 255, 255, 255)), "255.255.255.255");
    assert_eq!(format_ip(&IpAddress::V6(0, 0, 0, 0, 0, 0, 0, 1)), "0:0:0:0:0:0:0:1");
    assert_eq!(
        format_ip(&IpAddress::V6(0xfe80, 0, 0, 0, 0x1234, 0xabcd, 0xff, 1)),
        "fe80:0:0:0:1234:abcd:ff:1"
    );
}

#[test]
fn socket_rendering() {
    assert_eq!(
        format_socket(&SocketAddress { ip: IpAddress::V4(1, 2, 3, 4), port: 443 }),
        "1.2.3.4:443"
    );
    assert_eq!(
        format_socket(&SocketAddress { ip: IpAddress::V6(0, 0, 0, 0, 0, 0, 0, 1), port: 1080 }),
        "[0:0:0:0:0:0:0:1]:1080"
    );
}

#[test]
fn format_builtin_marks_enabled() {
    let rec = AccessMethodRecord {
        id: MethodId { value: 1 },
        name: "direct".to_string(),
        enabled: true,
        variant: AccessMethodVariant::BuiltIn { canonical_name: "Direct".to_string() },
    };
    assert_eq!(format_record(&rec), "Direct *");
    let disabled = AccessMethodRecord { enabled: false, ..rec };
    assert_eq!(format_record(&disabled), "Direct");
}

#[test]
fn format_shadowsocks_exact() {
    let expected = "ss1\n\
                    \x20   Protocol                Shadowsocks [aes-256-gcm]\n\
                    \x20   Peer                    1.2.3.4:443\n\
                    \x20   Password                mullvad\n";
    assert_eq!(format_record(&shadowsocks_record(false)), expected);
    let enabled_expected = "ss1 *\n\
                            \x20   Protocol                Shadowsocks [aes-256-gcm]\n\
                            \x20   Peer                    1.2.3.4:443\n\
                            \x20   Password                mullvad\n";
    assert_eq!(format_record(&shadowsocks_record(true)), enabled_expected);
}

#[test]
fn format_socks5_remote_exact() {
    let rec = AccessMethodRecord {
        id: MethodId { value: 3 },
        name: "remote".to_string(),
        enabled: true,
        variant: AccessMethodVariant::Socks5Remote(Socks5Remote {
            peer: SocketAddress { ip: IpAddress::V4(10, 0, 0, 1), port: 1080 },
        }),
    };
    let expected = "remote *\n\
                    \x20   Protocol                Socks5\n\
                    \x20   Peer                    10.0.0.1:1080\n";
    assert_eq!(format_record(&rec), expected);
}

#[test]
fn format_socks5_local_exact() {
    let rec = AccessMethodRecord {
        id: MethodId { value: 4 },
        name: "local".to_string(),
        enabled: false,
        variant: AccessMethodVariant::Socks5Local(Socks5Local {
            peer: SocketAddress { ip: IpAddress::V6(0, 0, 0, 0, 0, 0, 0, 1), port: 1080 },
            local_port: 4000,
        }),
    };
    let expected = "local\n\
                    \x20   Protocol                Socks5 (local)\n\
                    \x20   Peer                    [0:0:0:0:0:0:0:1]:1080\n\
                    \x20   Local port              4000\n";
    assert_eq!(format_record(&rec), expected);
}

#[test]
fn format_is_deterministic() {
    let rec = shadowsocks_record(true);
    let first = format_record(&rec);
    let second = format_record(&rec);
    assert_eq!(first, second);
    // The enabled marker closes the first line exactly when enabled.
    assert!(first.lines().next().unwrap().ends_with(" *"));
    let off = format_record(&shadowsocks_record(false));
    assert!(!off.lines().next().unwrap().ends_with(" *"));
}

#[test]
fn formatter_wrapper_matches_free_function() {
    let rec = shadowsocks_record(true);
    let formatter = ApiAccessMethodFormatter::new(&rec);
    assert_eq!(formatter.format(), format_record(&rec));
}

#[test]
fn list_entry_prefixes_ordinal() {
    let rec = AccessMethodRecord {
        id: MethodId { value: 1 },
        name: "direct".to_string(),
        enabled: true,
        variant: AccessMethodVariant::BuiltIn { canonical_name: "Direct".to_string() },
    };
    assert_eq!(format_list_entry(1, &rec), "1. Direct *");
}

#[test]
fn test_result_messages() {
    assert_eq!(test_result_message("ss1", true), "Connected to the Mullvad API!");
    assert_eq!(
        test_result_message("ss1", false),
        "Could *not* connect to the Mullvad API using access method \"ss1\""
    );
}
