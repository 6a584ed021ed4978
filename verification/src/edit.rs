//! The partial-update merge engine: apply a sparse set of optional field
//! overrides to an existing record, producing a new validated record of the
//! same variant, or a well-defined error.

use vstd::prelude::*;

use crate::ip::{IpAddress, SocketAddress};
use crate::method::{
    AccessMethodRecord, AccessMethodVariant, ConstructionError, Shadowsocks, Socks5Local,
    Socks5Remote,
};
use crate::select::SelectItem;

verus! {

/// Why a merge failed.
#[derive(Clone, Copy, PartialEq, Eq, Structural, Debug)]
pub enum MergeError {
    /// The record is a built-in method; those are never editable.
    CannotEditBuiltIn,
    /// The resolved field set no longer passes variant construction.
    Invalid(ConstructionError),
}

/// The sparse override set of an edit: every field is independently
/// optional, and a field irrelevant to the target's variant is ignored.
#[derive(Debug, PartialEq, Eq)]
pub struct EditParams {
    /// New display name (honoured for every variant).
    pub name: Option<String>,
    /// New password (Shadowsocks only).
    pub password: Option<String>,
    /// New cipher (Shadowsocks only).
    pub cipher: Option<String>,
    /// New peer address (every proxy variant).
    pub ip: Option<IpAddress>,
    /// New peer port (every proxy variant).
    pub port: Option<u16>,
    /// New local listener port (local SOCKS5 only).
    pub local_port: Option<u16>,
}

impl Clone for EditParams {
    /// A field-for-field copy.
    fn clone(&self) -> (r: Self)
        ensures
            r == *self,
    {
        EditParams {
            name: match &self.name {
                Some(n) => Some(n.clone()),
                None => None,
            },
            password: match &self.password {
                Some(p) => Some(p.clone()),
                None => None,
            },
            cipher: match &self.cipher {
                Some(c) => Some(c.clone()),
                None => None,
            },
            ip: self.ip,
            port: self.port,
            local_port: self.local_port,
        }
    }
}

/// An edit command: which method to edit, and the overrides to apply.
#[derive(Debug, PartialEq, Eq)]
pub struct EditCustomCommands {
    /// Which API access method to edit.
    pub item: SelectItem,
    /// Editing parameters.
    pub params: EditParams,
}

impl Clone for EditCustomCommands {
    /// A field-for-field copy.
    fn clone(&self) -> (r: Self)
        ensures
            r == *self,
    {
        EditCustomCommands { item: self.item, params: self.params.clone() }
    }
}

/// The override value if present, else the existing value.
pub open spec fn opt_or<T>(o: Option<T>, existing: T) -> T {
    match o {
        Some(v) => v,
        None => existing,
    }
}

/// The variant that results from taking, for each field relevant to
/// `existing`'s kind, the override if present and the existing value
/// otherwise. Fields irrelevant to the kind are ignored; a built-in
/// variant is returned unchanged (merging rejects it separately).
pub open spec fn merged_variant(existing: AccessMethodVariant, o: EditParams) -> AccessMethodVariant {
    match existing {
        AccessMethodVariant::BuiltIn { canonical_name } => AccessMethodVariant::BuiltIn {
            canonical_name,
        },
        AccessMethodVariant::Shadowsocks(s) => AccessMethodVariant::Shadowsocks(
            Shadowsocks {
                peer: SocketAddress {
                    ip: opt_or(o.ip, s.peer.ip),
                    port: opt_or(o.port, s.peer.port),
                },
                password: opt_or(o.password, s.password),
                cipher: opt_or(o.cipher, s.cipher),
            },
        ),
        AccessMethodVariant::Socks5Local(l) => AccessMethodVariant::Socks5Local(
            Socks5Local {
                peer: SocketAddress {
                    ip: opt_or(o.ip, l.peer.ip),
                    port: opt_or(o.port, l.peer.port),
                },
                local_port: opt_or(o.local_port, l.local_port),
            },
        ),
        AccessMethodVariant::Socks5Remote(r) => AccessMethodVariant::Socks5Remote(
            Socks5Remote {
                peer: SocketAddress {
                    ip: opt_or(o.ip, r.peer.ip),
                    port: opt_or(o.port, r.peer.port),
                },
            },
        ),
    }
}

/// What `merge` returns: an error on a built-in record or when the resolved
/// field set fails validation, else a record with the same identity and
/// enabled flag, the merged variant, and the resolved name.
pub open spec fn merge_spec(existing: AccessMethodRecord, o: EditParams) -> Result<
    AccessMethodRecord,
    MergeError,
> {
    if existing.variant is BuiltIn {
        Err(MergeError::CannotEditBuiltIn)
    } else {
        let v = merged_variant(existing.variant, o);
        if v.wf() {
            Ok(
                AccessMethodRecord {
                    id: existing.id,
                    name: opt_or(o.name, existing.name),
                    enabled: existing.enabled,
                    variant: v,
                },
            )
        } else {
            Err(MergeError::Invalid(ConstructionError::UnsupportedCipher))
        }
    }
}

/// Merge a sparse override set into an existing record.
///
/// The record's variant tag never changes: overrides can move field values
/// within a variant, never convert one variant into another. A built-in
/// record is rejected before any override is looked at; the resolved field
/// set is re-validated by the variant constructor; the name override, when
/// present, is honoured for every variant; identity and enabled flag are
/// never touched.
pub fn merge(existing: &AccessMethodRecord, overrides: &EditParams) -> (r: Result<
    AccessMethodRecord,
    MergeError,
>)
    ensures
        r == merge_spec(*existing, *overrides),
{
    let variant = match &existing.variant {
        AccessMethodVariant::BuiltIn { .. } => {
            return Err(MergeError::CannotEditBuiltIn);
        },
        AccessMethodVariant::Shadowsocks(s) => {
            let ip = match overrides.ip {
                Some(ip) => ip,
                None => s.peer.ip,
            };
            let port = match overrides.port {
                Some(p) => p,
                None => s.peer.port,
            };
            let password = match &overrides.password {
                Some(p) => p.clone(),
                None => s.password.clone(),
            };
            let cipher = match &overrides.cipher {
                Some(c) => c.clone(),
                None => s.cipher.clone(),
            };
            match Shadowsocks::new(SocketAddress { ip, port }, password, cipher) {
                Ok(merged) => AccessMethodVariant::Shadowsocks(merged),
                Err(e) => {
                    return Err(MergeError::Invalid(e));
                },
            }
        },
        AccessMethodVariant::Socks5Local(l) => {
            let ip = match overrides.ip {
                Some(ip) => ip,
                None => l.peer.ip,
            };
            let port = match overrides.port {
                Some(p) => p,
                None => l.peer.port,
            };
            let local_port = match overrides.local_port {
                Some(p) => p,
                None => l.local_port,
            };
            AccessMethodVariant::Socks5Local(
                Socks5Local::new(SocketAddress { ip, port }, local_port),
            )
        },
        AccessMethodVariant::Socks5Remote(rm) => {
            let ip = match overrides.ip {
                Some(ip) => ip,
                None => rm.peer.ip,
            };
            let port = match overrides.port {
                Some(p) => p,
                None => rm.peer.port,
            };
            AccessMethodVariant::Socks5Remote(Socks5Remote::new(SocketAddress { ip, port }))
        },
    };
    let name = match &overrides.name {
        Some(n) => n.clone(),
        None => existing.name.clone(),
    };
    Ok(AccessMethodRecord { id: existing.id, name, enabled: existing.enabled, variant })
}

/// The override set with no field present: the legal no-op edit.
pub open spec fn empty_overrides() -> EditParams {
    EditParams { name: None, password: None, cipher: None, ip: None, port: None, local_port: None }
}

/// Merging is variant-preserving: whenever a merge succeeds, the resulting
/// record carries the same variant tag as the record it started from.
pub proof fn lemma_merge_preserves_variant(existing: AccessMethodRecord, o: EditParams)
    ensures
        merge_spec(existing, o) matches Ok(m) ==> m.variant.same_tag(existing.variant),
{
}

/// Merging an empty override set reproduces the record exactly, field for
/// field, for every editable record that passes its own validation rules.
pub proof fn lemma_merge_empty_identity(existing: AccessMethodRecord)
    requires
        !(existing.variant is BuiltIn),
        existing.wf(),
    ensures
        merge_spec(existing, empty_overrides()) == Ok::<_, MergeError>(existing),
{
}

/// Overrides irrelevant to the record's variant are ignored, not rejected:
/// on a remote SOCKS5 record, an override set whose peer fields are absent
/// (whatever it holds for password, cipher or local port) succeeds and
/// changes nothing but possibly the name.
pub proof fn lemma_merge_ignores_irrelevant_fields(existing: AccessMethodRecord, o: EditParams)
    requires
        existing.variant is Socks5Remote,
        o.ip is None,
        o.port is None,
    ensures
        merge_spec(existing, o) is Ok,
        merge_spec(existing, o) matches Ok(m) ==> m == (AccessMethodRecord {
            name: opt_or(o.name, existing.name),
            ..existing
        }),
{
}

/// A built-in record is never editable: merging fails with
/// `CannotEditBuiltIn` whatever the override set holds.
pub proof fn lemma_merge_builtin_fails(existing: AccessMethodRecord, o: EditParams)
    requires
        existing.variant is BuiltIn,
    ensures
        merge_spec(existing, o) == Err::<AccessMethodRecord, _>(MergeError::CannotEditBuiltIn),
{
}

} // verus!
