//! The access-method variant model: the closed set of proxy kinds, their
//! construction and validation rules, and the record type that names and
//! enables one configured method.

use vstd::prelude::*;

use crate::ip::{IpAddress, SocketAddress, ip_text};
use crate::parse::parse_ip;
use crate::text::str_eq;

verus! {

/// A construction failure of a variant constructor.
#[derive(Clone, Copy, PartialEq, Eq, Structural, Debug)]
pub enum ConstructionError {
    /// The host did not parse as an IP literal.
    BadHostLiteral,
    /// The cipher name is not in the supported set.
    UnsupportedCipher,
}

/// Whether `c` names one of the supported Shadowsocks ciphers.
pub open spec fn is_supported_cipher(c: Seq<char>) -> bool {
    ||| c == "aes-128-cfb"@
    ||| c == "aes-128-cfb1"@
    ||| c == "aes-128-cfb8"@
    ||| c == "aes-128-cfb128"@
    ||| c == "aes-256-cfb"@
    ||| c == "aes-256-cfb1"@
    ||| c == "aes-256-cfb8"@
    ||| c == "aes-256-cfb128"@
    ||| c == "rc4"@
    ||| c == "rc4-md5"@
    ||| c == "chacha20"@
    ||| c == "salsa20"@
    ||| c == "chacha20-ietf"@
    ||| c == "aes-128-gcm"@
    ||| c == "aes-256-gcm"@
    ||| c == "chacha20-ietf-poly1305"@
    ||| c == "xchacha20-ietf-poly1305"@
    ||| c == "aes-128-pmac-siv"@
    ||| c == "aes-256-pmac-siv"@
}

/// Decide membership of `c` in the supported cipher set.
pub fn cipher_is_supported(c: &str) -> (r: bool)
    ensures
        r == is_supported_cipher(c@),
{
    str_eq(c, "aes-128-cfb") || str_eq(c, "aes-128-cfb1") || str_eq(c, "aes-128-cfb8") || str_eq(
        c,
        "aes-128-cfb128",
    ) || str_eq(c, "aes-256-cfb") || str_eq(c, "aes-256-cfb1") || str_eq(c, "aes-256-cfb8")
        || str_eq(c, "aes-256-cfb128") || str_eq(c, "rc4") || str_eq(c, "rc4-md5") || str_eq(
        c,
        "chacha20",
    ) || str_eq(c, "salsa20") || str_eq(c, "chacha20-ietf") || str_eq(c, "aes-128-gcm") || str_eq(
        c,
        "aes-256-gcm",
    ) || str_eq(c, "chacha20-ietf-poly1305") || str_eq(c, "xchacha20-ietf-poly1305") || str_eq(
        c,
        "aes-128-pmac-siv",
    ) || str_eq(c, "aes-256-pmac-siv")
}

/// A Shadowsocks proxy endpoint.
#[derive(Debug, PartialEq, Eq)]
pub struct Shadowsocks {
    pub peer: SocketAddress,
    pub password: String,
    pub cipher: String,
}

/// A SOCKS5 proxy reached through a local forwarder: `peer` is the upstream
/// endpoint, `local_port` the port the local listener binds.
#[derive(Clone, Copy, PartialEq, Eq, Structural, Debug)]
pub struct Socks5Local {
    pub peer: SocketAddress,
    pub local_port: u16,
}

/// A remote SOCKS5 proxy endpoint.
#[derive(Clone, Copy, PartialEq, Eq, Structural, Debug)]
pub struct Socks5Remote {
    pub peer: SocketAddress,
}

impl Shadowsocks {
    /// Validated constructor: the cipher must belong to the supported set.
    pub fn new(peer: SocketAddress, password: String, cipher: String) -> (r: Result<
        Shadowsocks,
        ConstructionError,
    >)
        ensures
            is_supported_cipher(cipher@) ==> r == Ok::<_, ConstructionError>(
                Shadowsocks { peer, password, cipher },
            ),
            !is_supported_cipher(cipher@) ==> r == Err::<Shadowsocks, _>(
                ConstructionError::UnsupportedCipher,
            ),
    {
        if cipher_is_supported(cipher.as_str()) {
            Ok(Shadowsocks { peer, password, cipher })
        } else {
            Err(ConstructionError::UnsupportedCipher)
        }
    }

    /// Constructor from raw fields: the host must be an IP literal and the
    /// cipher must belong to the supported set.
    pub fn from_args(ip: &str, port: u16, cipher: String, password: String) -> (r: Result<
        Shadowsocks,
        ConstructionError,
    >)
        ensures
            forall|a: IpAddress|
                ip@ == ip_text(a) && is_supported_cipher(cipher@) ==> r == Ok::<
                    _,
                    ConstructionError,
                >(Shadowsocks { peer: SocketAddress { ip: a, port }, password, cipher }),
            forall|a: IpAddress|
                ip@ == ip_text(a) && !is_supported_cipher(cipher@) ==> r == Err::<Shadowsocks, _>(
                    ConstructionError::UnsupportedCipher,
                ),
            (forall|a: IpAddress| ip@ != ip_text(a)) ==> r == Err::<Shadowsocks, _>(
                ConstructionError::BadHostLiteral,
            ),
    {
        match parse_ip(ip) {
            Some(addr) => Shadowsocks::new(SocketAddress { ip: addr, port }, password, cipher),
            None => Err(ConstructionError::BadHostLiteral),
        }
    }
}

impl Clone for Shadowsocks {
    /// A field-for-field copy.
    fn clone(&self) -> (r: Self)
        ensures
            r == *self,
    {
        Shadowsocks {
            peer: self.peer,
            password: self.password.clone(),
            cipher: self.cipher.clone(),
        }
    }
}

impl Socks5Local {
    /// Total constructor: every address, port and local port is acceptable.
    pub fn new(peer: SocketAddress, local_port: u16) -> (r: Socks5Local)
        ensures
            r == (Socks5Local { peer, local_port }),
    {
        Socks5Local { peer, local_port }
    }

    /// Constructor from raw fields: the host must be an IP literal.
    pub fn from_args(ip: &str, port: u16, local_port: u16) -> (r: Result<
        Socks5Local,
        ConstructionError,
    >)
        ensures
            forall|a: IpAddress|
                ip@ == ip_text(a) ==> r == Ok::<_, ConstructionError>(
                    Socks5Local { peer: SocketAddress { ip: a, port }, local_port },
                ),
            (forall|a: IpAddress| ip@ != ip_text(a)) ==> r == Err::<Socks5Local, _>(
                ConstructionError::BadHostLiteral,
            ),
    {
        match parse_ip(ip) {
            Some(addr) => Ok(Socks5Local { peer: SocketAddress { ip: addr, port }, local_port }),
            None => Err(ConstructionError::BadHostLiteral),
        }
    }
}

impl Socks5Remote {
    /// Total constructor: every address and port is acceptable.
    pub fn new(peer: SocketAddress) -> (r: Socks5Remote)
        ensures
            r == (Socks5Remote { peer }),
    {
        Socks5Remote { peer }
    }

    /// Constructor from raw fields: the host must be an IP literal.
    pub fn from_args(ip: &str, port: u16) -> (r: Result<Socks5Remote, ConstructionError>)
        ensures
            forall|a: IpAddress|
                ip@ == ip_text(a) ==> r == Ok::<_, ConstructionError>(
                    Socks5Remote { peer: SocketAddress { ip: a, port } },
                ),
            (forall|a: IpAddress| ip@ != ip_text(a)) ==> r == Err::<Socks5Remote, _>(
                ConstructionError::BadHostLiteral,
            ),
    {
        match parse_ip(ip) {
            Some(addr) => Ok(Socks5Remote { peer: SocketAddress { ip: addr, port } }),
            None => Err(ConstructionError::BadHostLiteral),
        }
    }
}

/// One of the mutually exclusive access-method kinds.
///
/// `BuiltIn` carries the canonical identifier of a method shipped with the
/// client (for example `"direct"`); it has no validated constructor here,
/// since built-in methods only ever arrive from the management service.
#[derive(Debug, PartialEq, Eq)]
pub enum AccessMethodVariant {
    BuiltIn { canonical_name: String },
    Shadowsocks(Shadowsocks),
    Socks5Local(Socks5Local),
    Socks5Remote(Socks5Remote),
}

impl AccessMethodVariant {
    /// Whether the variant satisfies its own validation rules, i.e. could
    /// have been produced by the constructors above.
    pub open spec fn wf(self) -> bool {
        match self {
            AccessMethodVariant::Shadowsocks(s) => is_supported_cipher(s.cipher@),
            _ => true,
        }
    }

    /// Whether two variants carry the same tag.
    pub open spec fn same_tag(self, other: AccessMethodVariant) -> bool {
        match (self, other) {
            (AccessMethodVariant::BuiltIn { .. }, AccessMethodVariant::BuiltIn { .. }) => true,
            (AccessMethodVariant::Shadowsocks(_), AccessMethodVariant::Shadowsocks(_)) => true,
            (AccessMethodVariant::Socks5Local(_), AccessMethodVariant::Socks5Local(_)) => true,
            (AccessMethodVariant::Socks5Remote(_), AccessMethodVariant::Socks5Remote(_)) => true,
            _ => false,
        }
    }
}

impl Clone for AccessMethodVariant {
    /// A field-for-field copy.
    fn clone(&self) -> (r: Self)
        ensures
            r == *self,
    {
        match self {
            AccessMethodVariant::BuiltIn { canonical_name } => AccessMethodVariant::BuiltIn {
                canonical_name: canonical_name.clone(),
            },
            AccessMethodVariant::Shadowsocks(s) => AccessMethodVariant::Shadowsocks(s.clone()),
            AccessMethodVariant::Socks5Local(l) => AccessMethodVariant::Socks5Local(*l),
            AccessMethodVariant::Socks5Remote(r) => AccessMethodVariant::Socks5Remote(*r),
        }
    }
}

/// The opaque identity the management service assigns to a record at
/// creation time. This library never invents one; it only passes them back.
#[derive(Clone, Copy, PartialEq, Eq, Structural, Debug)]
pub struct MethodId {
    pub value: u64,
}

/// One configured access method: identity, display name, enabled flag and
/// the variant-specific configuration.
#[derive(Debug, PartialEq, Eq)]
pub struct AccessMethodRecord {
    pub id: MethodId,
    pub name: String,
    pub enabled: bool,
    pub variant: AccessMethodVariant,
}

impl AccessMethodRecord {
    /// Whether the record's variant satisfies its validation rules.
    pub open spec fn wf(self) -> bool {
        self.variant.wf()
    }
}

impl Clone for AccessMethodRecord {
    /// A field-for-field copy.
    fn clone(&self) -> (r: Self)
        ensures
            r == *self,
    {
        AccessMethodRecord {
            id: self.id,
            name: self.name.clone(),
            enabled: self.enabled,
            variant: self.variant.clone(),
        }
    }
}

} // verus!
