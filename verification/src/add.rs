//! Construction parameters for adding a custom access method, and their
//! conversion into a validated variant.
//!
//! A parameter set carries the user-chosen name and a disabled flag next to
//! the variant-specific fields; the surrounding command layer is expected to
//! have filled in its defaults (remote port 443 and cipher `aes-256-gcm`
//! for Shadowsocks) before a value of this type is built.

use vstd::prelude::*;

use crate::ip::{IpAddress, SocketAddress};
use crate::method::{
    AccessMethodVariant, ConstructionError, Shadowsocks, Socks5Local, Socks5Remote,
    is_supported_cipher,
};

verus! {

/// Parameters for configuring a SOCKS5 proxy.
#[derive(Debug, PartialEq, Eq)]
pub enum AddSocks5Commands {
    /// Configure a remote SOCKS5 proxy.
    Remote { name: String, remote_ip: IpAddress, remote_port: u16, disabled: bool },
    /// Configure a local SOCKS5 proxy: a listener on `local_port` forwards
    /// to the remote peer.
    Local { name: String, local_port: u16, remote_ip: IpAddress, remote_port: u16, disabled: bool },
}

/// Parameters for adding a custom access method.
#[derive(Debug, PartialEq, Eq)]
pub enum AddCustomCommands {
    /// Configure a SOCKS5 proxy.
    Socks5(AddSocks5Commands),
    /// Configure a Shadowsocks proxy.
    Shadowsocks {
        name: String,
        remote_ip: IpAddress,
        remote_port: u16,
        password: String,
        cipher: String,
        disabled: bool,
    },
}

impl AddCustomCommands {
    /// The user-chosen name carried by the parameters.
    pub open spec fn spec_name(self) -> Seq<char> {
        match self {
            AddCustomCommands::Shadowsocks { name, .. } => name@,
            AddCustomCommands::Socks5(AddSocks5Commands::Remote { name, .. }) => name@,
            AddCustomCommands::Socks5(AddSocks5Commands::Local { name, .. }) => name@,
        }
    }

    /// Whether the method is to be created enabled.
    pub open spec fn spec_enabled(self) -> bool {
        match self {
            AddCustomCommands::Shadowsocks { disabled, .. } => !disabled,
            AddCustomCommands::Socks5(AddSocks5Commands::Remote { disabled, .. }) => !disabled,
            AddCustomCommands::Socks5(AddSocks5Commands::Local { disabled, .. }) => !disabled,
        }
    }

    /// The user-chosen name.
    pub fn name(&self) -> (r: String)
        ensures
            r@ == self.spec_name(),
    {
        match self {
            AddCustomCommands::Shadowsocks { name, .. } => name.clone(),
            AddCustomCommands::Socks5(AddSocks5Commands::Remote { name, .. }) => name.clone(),
            AddCustomCommands::Socks5(AddSocks5Commands::Local { name, .. }) => name.clone(),
        }
    }

    /// Whether the method is to be created enabled: the inverse of the
    /// disabled flag.
    pub fn enabled(&self) -> (r: bool)
        ensures
            r == self.spec_enabled(),
    {
        match self {
            AddCustomCommands::Shadowsocks { disabled, .. } => !disabled,
            AddCustomCommands::Socks5(AddSocks5Commands::Remote { disabled, .. }) => !disabled,
            AddCustomCommands::Socks5(AddSocks5Commands::Local { disabled, .. }) => !disabled,
        }
    }

    /// The variant these parameters construct, when they pass validation.
    pub open spec fn variant_spec(self) -> Result<AccessMethodVariant, ConstructionError> {
        match self {
            AddCustomCommands::Socks5(
                AddSocks5Commands::Local { local_port, remote_ip, remote_port, .. },
            ) => Ok(
                AccessMethodVariant::Socks5Local(
                    Socks5Local {
                        peer: SocketAddress { ip: remote_ip, port: remote_port },
                        local_port,
                    },
                ),
            ),
            AddCustomCommands::Socks5(
                AddSocks5Commands::Remote { remote_ip, remote_port, .. },
            ) => Ok(
                AccessMethodVariant::Socks5Remote(
                    Socks5Remote { peer: SocketAddress { ip: remote_ip, port: remote_port } },
                ),
            ),
            AddCustomCommands::Shadowsocks { remote_ip, remote_port, password, cipher, .. } => if is_supported_cipher(
                cipher@,
            ) {
                Ok(
                    AccessMethodVariant::Shadowsocks(
                        Shadowsocks {
                            peer: SocketAddress { ip: remote_ip, port: remote_port },
                            password,
                            cipher,
                        },
                    ),
                )
            } else {
                Err(ConstructionError::UnsupportedCipher)
            },
        }
    }

    /// Run the variant constructor on the carried parameters: a validated
    /// variant, or the construction failure. A built-in variant can never
    /// come out of this: the parameters only describe custom proxies.
    pub fn try_into_variant(self) -> (r: Result<AccessMethodVariant, ConstructionError>)
        ensures
            r == self.variant_spec(),
    {
        match self {
            AddCustomCommands::Socks5(AddSocks5Commands::Local {
                local_port,
                remote_ip,
                remote_port,
                ..
            }) => Ok(
                AccessMethodVariant::Socks5Local(
                    Socks5Local::new(SocketAddress::new(remote_ip, remote_port), local_port),
                ),
            ),
            AddCustomCommands::Socks5(AddSocks5Commands::Remote {
                remote_ip,
                remote_port,
                ..
            }) => Ok(
                AccessMethodVariant::Socks5Remote(
                    Socks5Remote::new(SocketAddress::new(remote_ip, remote_port)),
                ),
            ),
            AddCustomCommands::Shadowsocks { remote_ip, remote_port, password, cipher, .. } => {
                match Shadowsocks::new(
                    SocketAddress::new(remote_ip, remote_port),
                    password,
                    cipher,
                ) {
                    Ok(ss) => Ok(AccessMethodVariant::Shadowsocks(ss)),
                    Err(e) => Err(e),
                }
            },
        }
    }
}

} // verus!
