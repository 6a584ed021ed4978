use api_access::ip::{IpAddress, SocketAddress};
use api_access::method::{AccessMethodRecord, AccessMethodVariant, MethodId, Shadowsocks};
use api_access::select::{resolve, SelectError, SelectItem};

fn builtin(id: u64, canonical: &str, enabled: bool) -> AccessMethodRecord {
    AccessMethodRecord {
        id: MethodId { value: id },
        name: canonical.to_string(),
        enabled,
        variant: AccessMethodVariant::BuiltIn { canonical_name: canonical.to_string() },
    }
}

fn shadowsocks(id: u64, name: &str, enabled: bool) -> AccessMethodRecord {
    AccessMethodRecord {
        id: MethodId { value: id },
        name: name.to_string(),
        enabled,
        variant: AccessMethodVariant::Shadowsocks(Shadowsocks {
            peer: SocketAddress { ip: IpAddress::V4(1, 2, 3, 4), port: 443 },
            password: "mullvad".to_string(),
            cipher: "aes-256-gcm".to_string(),
        }),
    }
}

#[test]
fn as_array_index_shifts_by_one() {
    assert_eq!(SelectItem { index: 1 }.as_array_index(), Ok(0));
    assert_eq!(SelectItem { index: 7 }.as_array_index(), Ok(6));
}

#[test]
fn as_array_index_rejects_zero() {
    assert_eq!(SelectItem { index: 0 }.as_array_index(), Err(SelectError::ZeroIndex));
}

#[test]
fn resolve_returns_each_position() {
    let list = vec![builtin(1, "direct", true), shadowsocks(2, "ss1", false)];
    let first = resolve(&SelectItem { index: 1 }, &list).unwrap();
    assert_eq!(first, list[0]);
    let second = resolve(&SelectItem { index: 2 }, &list).unwrap();
    assert_eq!(second, list[1]);
}

#[test]
fn resolve_rejects_zero() {
    let list = vec![builtin(1, "direct", true)];
    assert_eq!(resolve(&SelectItem { index: 0 }, &list), Err(SelectError::ZeroIndex));
}

#[test]
fn resolve_out_of_range_carries_ordinal() {
    let list = vec![builtin(1, "direct", true), shadowsocks(2, "ss1", false)];
    assert_eq!(resolve(&SelectItem { index: 3 }, &list), Err(SelectError::OutOfRange(3)));
}

#[test]
fn resolve_on_empty_list_fails() {
    let list: Vec<AccessMethodRecord> = Vec::new();
    assert_eq!(resolve(&SelectItem { index: 1 }, &list), Err(SelectError::OutOfRange(1)));
}

#[test]
fn select_error_messages() {
    assert_eq!(SelectError::ZeroIndex.message(), "Access method 0 does not exist");
    assert_eq!(SelectError::OutOfRange(12).message(), "Access method 12 does not exist");
}
