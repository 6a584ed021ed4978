//! Plain-value model of IP endpoints.
//!
//! A host is always a literal IP address, never a hostname: the construction
//! rules of this catalog reject anything that is not an IP literal, so the
//! model can carry the parsed value directly. An [`IpAddress`] is either four
//! IPv4 octets or eight IPv6 groups; a [`SocketAddress`] pairs an address
//! with a port.

use vstd::prelude::*;
use vstd::string::StringExecFns;

use crate::text::{spec_dec, spec_hex, u64_to_dec, u64_to_hex};

verus! {

/// An IP address literal, held as plain numeric values.
#[derive(Clone, Copy, PartialEq, Eq, Structural, Debug)]
pub enum IpAddress {
    /// An IPv4 address `a.b.c.d`.
    V4(u8, u8, u8, u8),
    /// An IPv6 address of eight 16-bit groups, most significant first.
    V6(u16, u16, u16, u16, u16, u16, u16, u16),
}

/// An IP endpoint: an address together with a port.
#[derive(Clone, Copy, PartialEq, Eq, Structural, Debug)]
pub struct SocketAddress {
    pub ip: IpAddress,
    pub port: u16,
}

impl SocketAddress {
    /// Pair an address with a port.
    pub fn new(ip: IpAddress, port: u16) -> (r: SocketAddress)
        ensures
            r == (SocketAddress { ip, port }),
    {
        SocketAddress { ip, port }
    }
}

/// The text of an IPv4 address: the four octets in decimal, separated by
/// dots, each without leading zeros.
pub open spec fn ipv4_text(a: u8, b: u8, c: u8, d: u8) -> Seq<char> {
    spec_dec(a as int) + seq!['.'] + spec_dec(b as int) + seq!['.'] + spec_dec(c as int)
        + seq!['.'] + spec_dec(d as int)
}

/// The text of an IPv6 address: all eight groups in lowercase hexadecimal
/// without leading zeros, separated by colons. Groups are always written in
/// full; no `::` compression is applied.
pub open spec fn ipv6_text(
    g0: u16,
    g1: u16,
    g2: u16,
    g3: u16,
    g4: u16,
    g5: u16,
    g6: u16,
    g7: u16,
) -> Seq<char> {
    spec_hex(g0 as int) + seq![':'] + spec_hex(g1 as int) + seq![':'] + spec_hex(g2 as int)
        + seq![':'] + spec_hex(g3 as int) + seq![':'] + spec_hex(g4 as int) + seq![':'] + spec_hex(
        g5 as int,
    ) + seq![':'] + spec_hex(g6 as int) + seq![':'] + spec_hex(g7 as int)
}

/// The text of an address literal.
pub open spec fn ip_text(ip: IpAddress) -> Seq<char> {
    match ip {
        IpAddress::V4(a, b, c, d) => ipv4_text(a, b, c, d),
        IpAddress::V6(g0, g1, g2, g3, g4, g5, g6, g7) => ipv6_text(g0, g1, g2, g3, g4, g5, g6, g7),
    }
}

/// The text of an endpoint: `address:port` for IPv4, `[address]:port` for
/// IPv6.
pub open spec fn socket_text(sa: SocketAddress) -> Seq<char> {
    match sa.ip {
        IpAddress::V4(..) => ip_text(sa.ip) + seq![':'] + spec_dec(sa.port as int),
        IpAddress::V6(..) => seq!['['] + ip_text(sa.ip) + seq![']', ':'] + spec_dec(
            sa.port as int,
        ),
    }
}

/// Render an address literal.
pub fn format_ip(ip: &IpAddress) -> (r: String)
    ensures
        r@ == ip_text(*ip),
{
    match ip {
        IpAddress::V4(a, b, c, d) => {
            let mut s = u64_to_dec(*a as u64);
            s.append(".");
            let b_text = u64_to_dec(*b as u64);
            s.append(b_text.as_str());
            s.append(".");
            let c_text = u64_to_dec(*c as u64);
            s.append(c_text.as_str());
            s.append(".");
            let d_text = u64_to_dec(*d as u64);
            s.append(d_text.as_str());
            proof {
                reveal_strlit(".");
                assert(s@ =~= ipv4_text(*a, *b, *c, *d));
            }
            s
        },
        IpAddress::V6(g0, g1, g2, g3, g4, g5, g6, g7) => {
            let mut s = u64_to_hex(*g0 as u64);
            s.append(":");
            let t = u64_to_hex(*g1 as u64);
            s.append(t.as_str());
            s.append(":");
            let t = u64_to_hex(*g2 as u64);
            s.append(t.as_str());
            s.append(":");
            let t = u64_to_hex(*g3 as u64);
            s.append(t.as_str());
            s.append(":");
            let t = u64_to_hex(*g4 as u64);
            s.append(t.as_str());
            s.append(":");
            let t = u64_to_hex(*g5 as u64);
            s.append(t.as_str());
            s.append(":");
            let t = u64_to_hex(*g6 as u64);
            s.append(t.as_str());
            s.append(":");
            let t = u64_to_hex(*g7 as u64);
            s.append(t.as_str());
            proof {
                reveal_strlit(":");
                assert(s@ =~= ipv6_text(*g0, *g1, *g2, *g3, *g4, *g5, *g6, *g7));
            }
            s
        },
    }
}

/// Render an endpoint.
pub fn format_socket(sa: &SocketAddress) -> (r: String)
    ensures
        r@ == socket_text(*sa),
{
    let ip_part = format_ip(&sa.ip);
    let port_part = u64_to_dec(sa.port as u64);
    match sa.ip {
        IpAddress::V4(..) => {
            let mut s = ip_part;
            s.append(":");
            s.append(port_part.as_str());
            proof {
                reveal_strlit(":");
                assert(s@ =~= socket_text(*sa));
            }
            s
        },
        IpAddress::V6(..) => {
            let mut s = String::from_str("[");
            s.append(ip_part.as_str());
            s.append("]:");
            s.append(port_part.as_str());
            proof {
                reveal_strlit("[");
                reveal_strlit("]:");
                assert(s@ =~= socket_text(*sa));
            }
            s
        },
    }
}

} // verus!
