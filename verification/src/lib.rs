//! A small catalog model for API access methods: alternative network paths
//! (direct, or via a local/remote SOCKS5 proxy, or via a Shadowsocks proxy)
//! that a client uses to reach a control-plane API when the direct path is
//! blocked.
//!
//! The library owns the pure logic: the closed set of proxy variants with
//! their construction and validation rules, the partial-update merge of
//! sparse field overrides into an existing record, the resolution of a
//! 1-based ordinal against a freshly fetched list, and the deterministic
//! presentation of a record. Talking to the management service that stores
//! and tests the methods is left to the surrounding program.

pub mod add;
pub mod cmd;
pub mod edit;
pub mod ip;
pub mod method;
pub mod parse;
pub mod pp;
pub mod select;
pub mod text;
