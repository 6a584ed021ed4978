//! Deterministic pretty printing of access-method records.
//!
//! A record renders to a first line holding its display name (the canonical
//! name for a built-in method), marked with `" *"` exactly when the method
//! is enabled, followed — for the custom variants — by one line per
//! attribute in a fixed order: protocol, peer, and the variant's extras.
//! Attribute lines are indented four spaces with the label padded to a
//! 24-character column.

use vstd::prelude::*;
use vstd::string::StringExecFns;

use crate::ip::socket_text;
use crate::ip::format_socket;
use crate::method::{AccessMethodRecord, AccessMethodVariant};
use crate::text::{spec_dec, u64_to_dec};

verus! {

/// The marker a record's first line carries exactly when it is enabled.
pub open spec fn status_text(enabled: bool) -> Seq<char> {
    if enabled {
        " *"@
    } else {
        Seq::<char>::empty()
    }
}

/// The display name a record renders under: the canonical identifier for a
/// built-in method, the user-chosen name otherwise.
pub open spec fn displayed_name(rec: AccessMethodRecord) -> Seq<char> {
    match rec.variant {
        AccessMethodVariant::BuiltIn { canonical_name } => canonical_name@,
        _ => rec.name@,
    }
}

/// The full rendering of a record. A built-in method is a single line with
/// no trailing newline; a custom method is a name line followed by one
/// attribute line per field, each ending in a newline.
pub open spec fn spec_format_record(rec: AccessMethodRecord) -> Seq<char> {
    match rec.variant {
        AccessMethodVariant::BuiltIn { canonical_name } => canonical_name@ + status_text(
            rec.enabled,
        ),
        AccessMethodVariant::Shadowsocks(s) => rec.name@ + status_text(rec.enabled) + seq!['\n']
            + "    Protocol                Shadowsocks ["@ + s.cipher@ + "]"@ + seq!['\n']
            + "    Peer                    "@ + socket_text(s.peer) + seq!['\n']
            + "    Password                "@ + s.password@ + seq!['\n'],
        AccessMethodVariant::Socks5Remote(r) => rec.name@ + status_text(rec.enabled) + seq!['\n']
            + "    Protocol                Socks5"@ + seq!['\n'] + "    Peer                    "@
            + socket_text(r.peer) + seq!['\n'],
        AccessMethodVariant::Socks5Local(l) => rec.name@ + status_text(rec.enabled) + seq!['\n']
            + "    Protocol                Socks5 (local)"@ + seq!['\n']
            + "    Peer                    "@ + socket_text(l.peer) + seq!['\n']
            + "    Local port              "@ + spec_dec(l.local_port as int) + seq!['\n'],
    }
}

/// Render a record. The output is a pure function of the record's value:
/// two calls on identical input are byte-identical.
pub fn format_record(rec: &AccessMethodRecord) -> (r: String)
    ensures
        r@ == spec_format_record(*rec),
{
    match &rec.variant {
        AccessMethodVariant::BuiltIn { canonical_name } => {
            let mut s = canonical_name.clone();
            if rec.enabled {
                s.append(" *");
            }
            proof {
                assert(s@ =~= spec_format_record(*rec));
            }
            s
        },
        AccessMethodVariant::Shadowsocks(ss) => {
            let mut s = rec.name.clone();
            if rec.enabled {
                s.append(" *");
            }
            s.append("\n");
            s.append("    Protocol                Shadowsocks [");
            s.append(ss.cipher.as_str());
            s.append("]");
            s.append("\n");
            s.append("    Peer                    ");
            let peer = format_socket(&ss.peer);
            s.append(peer.as_str());
            s.append("\n");
            s.append("    Password                ");
            s.append(ss.password.as_str());
            s.append("\n");
            proof {
                reveal_strlit("\n");
                assert(s@ =~= spec_format_record(*rec));
            }
            s
        },
        AccessMethodVariant::Socks5Remote(rm) => {
            let mut s = rec.name.clone();
            if rec.enabled {
                s.append(" *");
            }
            s.append("\n");
            s.append("    Protocol                Socks5");
            s.append("\n");
            s.append("    Peer                    ");
            let peer = format_socket(&rm.peer);
            s.append(peer.as_str());
            s.append("\n");
            proof {
                reveal_strlit("\n");
                assert(s@ =~= spec_format_record(*rec));
            }
            s
        },
        AccessMethodVariant::Socks5Local(l) => {
            let mut s = rec.name.clone();
            if rec.enabled {
                s.append(" *");
            }
            s.append("\n");
            s.append("    Protocol                Socks5 (local)");
            s.append("\n");
            s.append("    Peer                    ");
            let peer = format_socket(&l.peer);
            s.append(peer.as_str());
            s.append("\n");
            s.append("    Local port              ");
            let lp = u64_to_dec(l.local_port as u64);
            s.append(lp.as_str());
            s.append("\n");
            proof {
                reveal_strlit("\n");
                assert(s@ =~= spec_format_record(*rec));
            }
            s
        },
    }
}

/// Pretty printer for one access-method record.
pub struct ApiAccessMethodFormatter<'a> {
    pub api_access_method: &'a AccessMethodRecord,
}

impl<'a> ApiAccessMethodFormatter<'a> {
    /// Wrap a record for rendering.
    pub fn new(api_access_method: &'a AccessMethodRecord) -> (r: ApiAccessMethodFormatter<'a>)
        ensures
            r.api_access_method == api_access_method,
    {
        ApiAccessMethodFormatter { api_access_method }
    }

    /// Render the wrapped record.
    pub fn format(&self) -> (r: String)
        ensures
            r@ == spec_format_record(*self.api_access_method),
    {
        format_record(self.api_access_method)
    }
}

/// Render one line of the listing: the 1-based ordinal, a dot, and the
/// record's rendering.
pub fn format_list_entry(ordinal: usize, rec: &AccessMethodRecord) -> (r: String)
    ensures
        r@ == spec_dec(ordinal as int) + ". "@ + spec_format_record(*rec),
{
    let mut s = u64_to_dec(ordinal as u64);
    s.append(". ");
    let body = format_record(rec);
    s.append(body.as_str());
    proof {
        assert(s@ =~= spec_dec(ordinal as int) + ". "@ + spec_format_record(*rec));
    }
    s
}

/// The report a connectivity test prints: a fixed success line, or a
/// failure line naming the method that was tried.
pub fn test_result_message(name: &str, reachable: bool) -> (r: String)
    ensures
        reachable ==> r@ == "Connected to the Mullvad API!"@,
        !reachable ==> r@ == "Could *not* connect to the Mullvad API using access method \""@
            + name@ + "\""@,
{
    if reachable {
        String::from_str("Connected to the Mullvad API!")
    } else {
        let mut s = String::from_str("Could *not* connect to the Mullvad API using access method \"");
        s.append(name);
        s.append("\"");
        s
    }
}

/// Whether `s` holds no newline character.
pub open spec fn contains_no_newline(s: Seq<char>) -> bool {
    forall|i: int| 0 <= i < s.len() ==> s[i] != '\n'
}

/// The prefix of `s` up to (and excluding) its first newline, or all of
/// `s` when it holds none.
pub open spec fn spec_first_line(s: Seq<char>) -> Seq<char>
    decreases s.len(),
{
    if s.len() == 0 {
        s
    } else if s[0] == '\n' {
        Seq::<char>::empty()
    } else {
        seq![s[0]] + spec_first_line(s.drop_first())
    }
}

/// Whether `s` ends with `suffix`.
pub open spec fn ends_with(s: Seq<char>, suffix: Seq<char>) -> bool {
    s.len() >= suffix.len() && s.skip(s.len() - suffix.len()) == suffix
}

proof fn lemma_first_line_no_newline(s: Seq<char>)
    requires
        contains_no_newline(s),
    ensures
        spec_first_line(s) == s,
    decreases s.len(),
{
    if s.len() == 0 {
    } else {
        lemma_first_line_no_newline(s.drop_first());
        assert(seq![s[0]] + s.drop_first() =~= s);
    }
}

proof fn lemma_first_line_concat(a: Seq<char>, b: Seq<char>)
    requires
        contains_no_newline(a),
        b.len() > 0,
        b[0] == '\n',
    ensures
        spec_first_line(a + b) == a,
    decreases a.len(),
{
    if a.len() == 0 {
        assert(a + b =~= b);
        assert(a =~= Seq::<char>::empty());
    } else {
        lemma_first_line_concat(a.drop_first(), b);
        assert((a + b).drop_first() =~= a.drop_first() + b);
        assert((a + b)[0] == a[0]);
        assert(seq![a[0]] + a.drop_first() =~= a);
    }
}

/// Whether `s` holds a newline character.
pub open spec fn has_newline(s: Seq<char>) -> bool {
    exists|i: int| 0 <= i < s.len() && s[i] == '\n'
}

proof fn lemma_first_line_prefix(a: Seq<char>, b: Seq<char>)
    requires
        has_newline(a),
    ensures
        has_newline(a + b),
        spec_first_line(a + b) == spec_first_line(a),
    decreases a.len(),
{
    let i = choose|i: int| 0 <= i < a.len() && a[i] == '\n';
    assert((a + b)[i] == '\n');
    if a[0] == '\n' {
        assert((a + b)[0] == '\n');
    } else {
        assert(a.drop_first()[i - 1] == '\n');
        lemma_first_line_prefix(a.drop_first(), b);
        assert((a + b).drop_first() =~= a.drop_first() + b);
        assert((a + b)[0] == a[0]);
    }
}

/// Rendering is deterministic: the rendering is a pure function of the
/// record's value, so equal records render byte-identically. (That two
/// calls of `format_record` on one record agree is already forced by its
/// `ensures`; this states the spec-level fact a reader may want by name.)
pub proof fn lemma_format_deterministic(a: AccessMethodRecord, b: AccessMethodRecord)
    requires
        a == b,
    ensures
        spec_format_record(a) == spec_format_record(b),
{
}

/// The `" *"` marker is the sole encoding of the enabled flag: on a record
/// whose displayed name holds no newline and does not itself end in
/// `" *"`, the first line of the rendering ends with `" *"` exactly when
/// the record is enabled.
pub proof fn lemma_status_marker(rec: AccessMethodRecord)
    requires
        contains_no_newline(displayed_name(rec)),
        !ends_with(displayed_name(rec), " *"@),
    ensures
        ends_with(spec_first_line(spec_format_record(rec)), " *"@) <==> rec.enabled,
{
    reveal_strlit(" *");
    let dname = displayed_name(rec);
    let first = dname + status_text(rec.enabled);
    assert(contains_no_newline(first));
    match rec.variant {
        AccessMethodVariant::BuiltIn { canonical_name } => {
            lemma_first_line_no_newline(first);
            assert(spec_format_record(rec) == first);
        },
        AccessMethodVariant::Shadowsocks(s) => {
            let p1 = first + seq!['\n'];
            lemma_first_line_concat(first, seq!['\n']);
            assert(p1[first.len() as int] == '\n');
            let p2 = p1 + "    Protocol                Shadowsocks ["@;
            lemma_first_line_prefix(p1, "    Protocol                Shadowsocks ["@);
            let p3 = p2 + s.cipher@;
            lemma_first_line_prefix(p2, s.cipher@);
            let p4 = p3 + "]"@;
            lemma_first_line_prefix(p3, "]"@);
            let p5 = p4 + seq!['\n'];
            lemma_first_line_prefix(p4, seq!['\n']);
            let p6 = p5 + "    Peer                    "@;
            lemma_first_line_prefix(p5, "    Peer                    "@);
            let p7 = p6 + socket_text(s.peer);
            lemma_first_line_prefix(p6, socket_text(s.peer));
            let p8 = p7 + seq!['\n'];
            lemma_first_line_prefix(p7, seq!['\n']);
            let p9 = p8 + "    Password                "@;
            lemma_first_line_prefix(p8, "    Password                "@);
            let p10 = p9 + s.password@;
            lemma_first_line_prefix(p9, s.password@);
            lemma_first_line_prefix(p10, seq!['\n']);
            assert(spec_format_record(rec) == p10 + seq!['\n']);
        },
        AccessMethodVariant::Socks5Remote(r) => {
            let p1 = first + seq!['\n'];
            lemma_first_line_concat(first, seq!['\n']);
            assert(p1[first.len() as int] == '\n');
            let p2 = p1 + "    Protocol                Socks5"@;
            lemma_first_line_prefix(p1, "    Protocol                Socks5"@);
            let p3 = p2 + seq!['\n'];
            lemma_first_line_prefix(p2, seq!['\n']);
            let p4 = p3 + "    Peer                    "@;
            lemma_first_line_prefix(p3, "    Peer                    "@);
            let p5 = p4 + socket_text(r.peer);
            lemma_first_line_prefix(p4, socket_text(r.peer));
            lemma_first_line_prefix(p5, seq!['\n']);
            assert(spec_format_record(rec) == p5 + seq!['\n']);
        },
        AccessMethodVariant::Socks5Local(l) => {
            let p1 = first + seq!['\n'];
            lemma_first_line_concat(first, seq!['\n']);
            assert(p1[first.len() as int] == '\n');
            let p2 = p1 + "    Protocol                Socks5 (local)"@;
            lemma_first_line_prefix(p1, "    Protocol                Socks5 (local)"@);
            let p3 = p2 + seq!['\n'];
            lemma_first_line_prefix(p2, seq!['\n']);
            let p4 = p3 + "    Peer                    "@;
            lemma_first_line_prefix(p3, "    Peer                    "@);
            let p5 = p4 + socket_text(l.peer);
            lemma_first_line_prefix(p4, socket_text(l.peer));
            let p6 = p5 + seq!['\n'];
            lemma_first_line_prefix(p5, seq!['\n']);
            let p7 = p6 + "    Local port              "@;
            lemma_first_line_prefix(p6, "    Local port              "@);
            let p8 = p7 + spec_dec(l.local_port as int);
            lemma_first_line_prefix(p7, spec_dec(l.local_port as int));
            lemma_first_line_prefix(p8, seq!['\n']);
            assert(spec_format_record(rec) == p8 + seq!['\n']);
        },
    }
    assert(spec_first_line(spec_format_record(rec)) == first);
    if rec.enabled {
        assert(first.skip(dname.len() as int) =~= " *"@);
        assert(ends_with(first, " *"@));
    } else {
        assert(first =~= dname);
        assert(!ends_with(first, " *"@));
    }
}

} // verus!
