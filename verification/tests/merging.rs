use api_access::edit::{merge, EditParams, MergeError};
use api_access::ip::{IpAddress, SocketAddress};
use api_access::method::{
    AccessMethodRecord, AccessMethodVariant, ConstructionError, MethodId, Shadowsocks,
    Socks5Local, Socks5Remote,
};
use api_access::select::{resolve, SelectItem};

fn no_overrides() -> EditParams {
    EditParams { name: None, password: None, cipher: None, ip: None, port: None, local_port: None }
}

fn builtin(id: u64, canonical: &str, enabled: bool) -> AccessMethodRecord {
    AccessMethodRecord {
        id: MethodId { value: id },
        name: canonical.to_string(),
        enabled,
        variant: AccessMethodVariant::BuiltIn { canonical_name: canonical.to_string() },
    }
}

fn shadowsocks_record(id: u64, name: &str, enabled: bool) -> AccessMethodRecord {
    AccessMethodRecord {
        id: MethodId { value: id },
        name: name.to_string(),
        enabled,
        variant: AccessMethodVariant::Shadowsocks(Shadowsocks {
            peer: SocketAddress { ip: IpAddress::V4(1, 2, 3, 4), port: 443 },
            password: "mullvad".to_string(),
            cipher: "aes-256-gcm".to_string(),
        }),
    }
}

fn socks5_remote_record(id: u64, name: &str, enabled: bool) -> AccessMethodRecord {
    AccessMethodRecord {
        id: MethodId { value: id },
        name: name.to_string(),
        enabled,
        variant: AccessMethodVariant::Socks5Remote(Socks5Remote {
            peer: SocketAddress { ip: IpAddress::V4(10, 0, 0, 1), port: 1080 },
        }),
    }
}

#[test]
fn merge_empty_overrides_is_identity() {
    let record = shadowsocks_record(5, "ss1", false);
    let merged = merge(&record, &no_overrides()).unwrap();
    assert_eq!(merged, record);
}

#[test]
fn merge_password_override_changes_only_password() {
    // The listing holds a built-in method first and a Shadowsocks proxy
    // second; the second is picked by ordinal and its password replaced.
    let list = vec![builtin(1, "direct", true), shadowsocks_record(2, "ss1", false)];
    let picked = resolve(&SelectItem { index: 2 }, &list).unwrap();
    assert_eq!(picked, list[1]);
    let overrides = EditParams { password: Some("newpw".to_string()), ..no_overrides() };
    let merged = merge(&picked, &overrides).unwrap();
    assert_eq!(merged.id, MethodId { value: 2 });
    assert_eq!(merged.name, "ss1");
    assert!(!merged.enabled);
    match merged.variant {
        AccessMethodVariant::Shadowsocks(ss) => {
            assert_eq!(ss.peer, SocketAddress { ip: IpAddress::V4(1, 2, 3, 4), port: 443 });
            assert_eq!(ss.password, "newpw");
            assert_eq!(ss.cipher, "aes-256-gcm");
        }
        _ => panic!("variant changed"),
    }
}

#[test]
fn merge_builtin_fails_before_overrides_are_read() {
    let list = vec![builtin(1, "direct", true), shadowsocks_record(2, "ss1", false)];
    let picked = resolve(&SelectItem { index: 1 }, &list).unwrap();
    let overrides = EditParams { name: Some("renamed".to_string()), ..no_overrides() };
    assert_eq!(merge(&picked, &overrides), Err(MergeError::CannotEditBuiltIn));
    assert_eq!(merge(&picked, &no_overrides()), Err(MergeError::CannotEditBuiltIn));
}

#[test]
fn merge_ignores_fields_irrelevant_to_the_variant() {
    let record = socks5_remote_record(3, "remote", true);
    let overrides = EditParams {
        local_port: Some(7070),
        cipher: Some("aes-128-gcm".to_string()),
        password: Some("ignored".to_string()),
        ..no_overrides()
    };
    let merged = merge(&record, &overrides).unwrap();
    assert_eq!(merged, record);
}

#[test]
fn merge_irrelevant_fields_with_name_changes_only_name() {
    let record = socks5_remote_record(3, "remote", true);
    let overrides = EditParams {
        name: Some("renamed".to_string()),
        local_port: Some(7070),
        ..no_overrides()
    };
    let merged = merge(&record, &overrides).unwrap();
    assert_eq!(merged.name, "renamed");
    assert_eq!(merged.id, record.id);
    assert_eq!(merged.enabled, record.enabled);
    assert_eq!(merged.variant, record.variant);
}

#[test]
fn merge_rejects_unsupported_cipher_override() {
    let record = shadowsocks_record(4, "ss", true);
    let overrides = EditParams { cipher: Some("rot13".to_string()), ..no_overrides() };
    assert_eq!(
        merge(&record, &overrides),
        Err(MergeError::Invalid(ConstructionError::UnsupportedCipher))
    );
}

#[test]
fn merge_updates_socks5_local_fields() {
    let record = AccessMethodRecord {
        id: MethodId { value: 9 },
        name: "local".to_string(),
        enabled: false,
        variant: AccessMethodVariant::Socks5Local(Socks5Local {
            peer: SocketAddress { ip: IpAddress::V4(10, 0, 0, 1), port: 1080 },
            local_port: 4000,
        }),
    };
    let overrides = EditParams {
        ip: Some(IpAddress::V4(10, 0, 0, 2)),
        port: Some(1081),
        local_port: Some(4001),
        ..no_overrides()
    };
    let merged = merge(&record, &overrides).unwrap();
    assert_eq!(merged.id, record.id);
    assert_eq!(merged.name, "local");
    match merged.variant {
        AccessMethodVariant::Socks5Local(l) => {
            assert_eq!(l.peer, SocketAddress { ip: IpAddress::V4(10, 0, 0, 2), port: 1081 });
            assert_eq!(l.local_port, 4001);
        }
        _ => panic!("variant changed"),
    }
}
