use api_access::add::{AddCustomCommands, AddSocks5Commands};
use api_access::ip::{IpAddress, SocketAddress};
use api_access::method::{
    cipher_is_supported, AccessMethodVariant, ConstructionError, Shadowsocks, Socks5Local,
    Socks5Remote,
};

#[test]
fn shadowsocks_rejects_unsupported_cipher() {
    let r = Shadowsocks::new(
        SocketAddress { ip: IpAddress::V4(1, 2, 3, 4), port: 443 },
        "pw".to_string(),
        "rot13".to_string(),
    );
    assert_eq!(r, Err(ConstructionError::UnsupportedCipher));
}

#[test]
fn shadowsocks_accepts_supported_cipher() {
    let peer = SocketAddress { ip: IpAddress::V4(1, 2, 3, 4), port: 443 };
    let r = Shadowsocks::new(peer, "pw".to_string(), "aes-256-gcm".to_string()).unwrap();
    assert_eq!(r.peer, peer);
    assert_eq!(r.password, "pw");
    assert_eq!(r.cipher, "aes-256-gcm");
}

#[test]
fn cipher_set_membership() {
    assert!(cipher_is_supported("aes-256-gcm"));
    assert!(cipher_is_supported("chacha20-ietf-poly1305"));
    assert!(cipher_is_supported("rc4"));
    assert!(!cipher_is_supported("rot13"));
    assert!(!cipher_is_supported(""));
    assert!(!cipher_is_supported("AES-256-GCM"));
}

#[test]
fn from_args_rejects_non_literal_host() {
    assert_eq!(
        Shadowsocks::from_args("example.com", 443, "aes-256-gcm".to_string(), "pw".to_string()),
        Err(ConstructionError::BadHostLiteral)
    );
    assert_eq!(Socks5Remote::from_args("proxy.local", 1080), Err(ConstructionError::BadHostLiteral));
    assert_eq!(Socks5Local::from_args("", 1080, 4000), Err(ConstructionError::BadHostLiteral));
}

#[test]
fn from_args_checks_host_before_cipher() {
    assert_eq!(
        Shadowsocks::from_args("not-an-ip", 443, "rot13".to_string(), "pw".to_string()),
        Err(ConstructionError::BadHostLiteral)
    );
}

#[test]
fn from_args_parses_ipv4_host() {
    let ss = Shadowsocks::from_args("1.2.3.4", 443, "aes-256-gcm".to_string(), "pw".to_string())
        .unwrap();
    assert_eq!(ss.peer, SocketAddress { ip: IpAddress::V4(1, 2, 3, 4), port: 443 });
    let remote = Socks5Remote::from_args("255.0.0.1", 1080).unwrap();
    assert_eq!(remote.peer, SocketAddress { ip: IpAddress::V4(255, 0, 0, 1), port: 1080 });
    let local = Socks5Local::from_args("10.0.0.1", 1080, 4000).unwrap();
    assert_eq!(local.peer, SocketAddress { ip: IpAddress::V4(10, 0, 0, 1), port: 1080 });
    assert_eq!(local.local_port, 4000);
}

#[test]
fn from_args_parses_ipv6_host() {
    let remote = Socks5Remote::from_args("fe80:0:0:0:1:2:3:4", 1080).unwrap();
    assert_eq!(
        remote.peer,
        SocketAddress { ip: IpAddress::V6(0xfe80, 0, 0, 0, 1, 2, 3, 4), port: 1080 }
    );
}

#[test]
fn add_command_name_and_enabled() {
    let cmd = AddCustomCommands::Shadowsocks {
        name: "ss1".to_string(),
        remote_ip: IpAddress::V4(1, 2, 3, 4),
        remote_port: 443,
        password: "pw".to_string(),
        cipher: "aes-256-gcm".to_string(),
        disabled: true,
    };
    assert_eq!(cmd.name(), "ss1");
    assert!(!cmd.enabled());
    let cmd = AddCustomCommands::Socks5(AddSocks5Commands::Remote {
        name: "r1".to_string(),
        remote_ip: IpAddress::V4(10, 0, 0, 1),
        remote_port: 1080,
        disabled: false,
    });
    assert_eq!(cmd.name(), "r1");
    assert!(cmd.enabled());
}

#[test]
fn add_command_builds_each_variant() {
    let cmd = AddCustomCommands::Socks5(AddSocks5Commands::Local {
        name: "l1".to_string(),
        local_port: 4000,
        remote_ip: IpAddress::V4(10, 0, 0, 1),
        remote_port: 1080,
        disabled: false,
    });
    let variant = cmd.try_into_variant().unwrap();
    assert_eq!(
        variant,
        AccessMethodVariant::Socks5Local(Socks5Local {
            peer: SocketAddress { ip: IpAddress::V4(10, 0, 0, 1), port: 1080 },
            local_port: 4000,
        })
    );
    let cmd = AddCustomCommands::Socks5(AddSocks5Commands::Remote {
        name: "r1".to_string(),
        remote_ip: IpAddress::V6(0, 0, 0, 0, 0, 0, 0, 1),
        remote_port: 1080,
        disabled: false,
    });
    let variant = cmd.try_into_variant().unwrap();
    assert_eq!(
        variant,
        AccessMethodVariant::Socks5Remote(Socks5Remote {
            peer: SocketAddress { ip: IpAddress::V6(0, 0, 0, 0, 0, 0, 0, 1), port: 1080 },
        })
    );
}

#[test]
fn add_command_rejects_unsupported_cipher() {
    let cmd = AddCustomCommands::Shadowsocks {
        name: "ss1".to_string(),
        remote_ip: IpAddress::V4(1, 2, 3, 4),
        remote_port: 443,
        password: "pw".to_string(),
        cipher: "rot13".to_string(),
        disabled: false,
    };
    assert_eq!(cmd.try_into_variant(), Err(ConstructionError::UnsupportedCipher));
}
