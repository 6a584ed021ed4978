//! Parsing of IP address literals.
//!
//! The grammar accepted here matches the rendering in [`crate::ip`]: an
//! IPv4 literal is four decimal octets without leading zeros, separated by
//! dots; an IPv6 literal is all eight groups in lowercase hexadecimal
//! without leading zeros, separated by colons. For each address there is
//! exactly one accepted spelling — the one [`crate::ip::format_ip`]
//! produces — and the parser is proved to accept exactly those spellings.

use vstd::prelude::*;
use vstd::string::StrSliceExecFns;

use crate::ip::{IpAddress, format_ip, ip_text, ipv4_text, ipv6_text};
use crate::text::{spec_dec, spec_digit, spec_hex, spec_hex_digit, str_eq};

verus! {

/// Whether `c` is a decimal digit.
pub open spec fn is_dec_digit(c: char) -> bool {
    48 <= c as u32 <= 57
}

/// The numeric value of a decimal digit character.
pub open spec fn digit_of(c: char) -> int {
    c as u32 - 48
}

/// The state of the octet scanner: the octet values already closed by a
/// dot, and the length and value of the group being read.
pub struct Ipv4Scan {
    pub ok: bool,
    pub vals: Seq<int>,
    pub cur_len: int,
    pub cur_val: int,
}

/// The failed scan, which every further character preserves.
pub open spec fn scan_failed() -> Ipv4Scan {
    Ipv4Scan { ok: false, vals: Seq::empty(), cur_len: 0, cur_val: 0 }
}

/// The scanner's start state.
pub open spec fn scan_init() -> Ipv4Scan {
    Ipv4Scan { ok: true, vals: Seq::empty(), cur_len: 0, cur_val: 0 }
}

/// One scanner step. A dot closes the current group, which must be a
/// well-formed octet (non-empty, at most 255, and there must still be room
/// for another group); a digit extends the current group, which must stay
/// at most three digits and must not extend a leading zero; anything else
/// fails the scan.
pub open spec fn scan_step(st: Ipv4Scan, ch: char) -> Ipv4Scan {
    if !st.ok {
        st
    } else if ch == '.' {
        if st.cur_len == 0 || st.cur_val > 255 || st.vals.len() >= 3 {
            scan_failed()
        } else {
            Ipv4Scan { ok: true, vals: st.vals.push(st.cur_val), cur_len: 0, cur_val: 0 }
        }
    } else if is_dec_digit(ch) {
        if (st.cur_len > 0 && st.cur_val == 0) || st.cur_len >= 3 {
            scan_failed()
        } else {
            Ipv4Scan {
                ok: true,
                vals: st.vals,
                cur_len: st.cur_len + 1,
                cur_val: st.cur_val * 10 + digit_of(ch),
            }
        }
    } else {
        scan_failed()
    }
}

/// Run the scanner over `s` from state `st`.
pub open spec fn scan_from(st: Ipv4Scan, s: Seq<char>) -> Ipv4Scan
    decreases s.len(),
{
    if s.len() == 0 {
        st
    } else {
        scan_from(scan_step(st, s[0]), s.drop_first())
    }
}

proof fn lemma_scan_from_concat(st: Ipv4Scan, a: Seq<char>, b: Seq<char>)
    ensures
        scan_from(st, a + b) == scan_from(scan_from(st, a), b),
    decreases a.len(),
{
    if a.len() == 0 {
        assert(a + b =~= b);
    } else {
        assert((a + b)[0] == a[0]);
        assert((a + b).drop_first() =~= a.drop_first() + b);
        lemma_scan_from_concat(scan_step(st, a[0]), a.drop_first(), b);
    }
}

proof fn lemma_scan_from_one(st: Ipv4Scan, c: char)
    ensures
        scan_from(st, seq![c]) == scan_step(st, c),
{
    reveal_with_fuel(scan_from, 2);
    assert(seq![c].len() == 1);
    assert(seq![c][0] == c);
    assert(seq![c].drop_first() =~= Seq::<char>::empty());
}

proof fn lemma_digit_char(d: int)
    requires
        0 <= d <= 9,
    ensures
        is_dec_digit(spec_digit(d)),
        digit_of(spec_digit(d)) == d,
        spec_digit(d) != '.',
{
}

/// The length of the decimal rendering, for the values an octet can take.
proof fn lemma_dec_len(n: int)
    requires
        0 <= n,
    ensures
        spec_dec(n).len() >= 1,
        n < 10 ==> spec_dec(n).len() == 1,
        n < 100 ==> spec_dec(n).len() <= 2,
        n < 1000 ==> spec_dec(n).len() <= 3,
    decreases n,
{
    if n >= 10 {
        lemma_dec_len(n / 10);
    }
}

/// Scanning the decimal rendering of an octet value from a state whose
/// current group is empty reads exactly that group.
proof fn lemma_scan_dec(st: Ipv4Scan, v: int)
    requires
        st.ok,
        st.cur_len == 0,
        st.cur_val == 0,
        0 <= v <= 255,
    ensures
        scan_from(st, spec_dec(v)) == (Ipv4Scan {
            ok: true,
            vals: st.vals,
            cur_len: spec_dec(v).len() as int,
            cur_val: v,
        }),
    decreases v,
{
    lemma_dec_len(v);
    if v < 10 {
        lemma_digit_char(v);
        lemma_scan_from_one(st, spec_digit(v));
    } else {
        lemma_scan_dec(st, v / 10);
        lemma_dec_len(v / 10);
        lemma_digit_char(v % 10);
        let st1 = Ipv4Scan {
            ok: true,
            vals: st.vals,
            cur_len: spec_dec(v / 10).len() as int,
            cur_val: v / 10,
        };
        assert(spec_dec(v) =~= spec_dec(v / 10) + seq![spec_digit(v % 10)]);
        lemma_scan_from_concat(st, spec_dec(v / 10), seq![spec_digit(v % 10)]);
        lemma_scan_from_one(st1, spec_digit(v % 10));
    }
}

/// Scanning the canonical text of an IPv4 address succeeds and recovers
/// exactly its four octets.
proof fn lemma_scan_canonical(a: u8, b: u8, c: u8, d: u8)
    ensures
        scan_from(scan_init(), ipv4_text(a, b, c, d)) == (Ipv4Scan {
            ok: true,
            vals: seq![a as int, b as int, c as int],
            cur_len: spec_dec(d as int).len() as int,
            cur_val: d as int,
        }),
{
    let s1 = spec_dec(a as int);
    let s2 = s1 + seq!['.'];
    let s3 = s2 + spec_dec(b as int);
    let s4 = s3 + seq!['.'];
    let s5 = s4 + spec_dec(c as int);
    let s6 = s5 + seq!['.'];
    let st0 = scan_init();
    lemma_scan_dec(st0, a as int);
    let st1 = scan_from(st0, s1);
    lemma_scan_from_concat(st0, s1, seq!['.']);
    lemma_scan_from_one(st1, '.');
    let st2 = scan_from(st0, s2);
    lemma_scan_from_concat(st0, s2, spec_dec(b as int));
    lemma_scan_dec(st2, b as int);
    let st3 = scan_from(st0, s3);
    lemma_scan_from_concat(st0, s3, seq!['.']);
    lemma_scan_from_one(st3, '.');
    let st4 = scan_from(st0, s4);
    lemma_scan_from_concat(st0, s4, spec_dec(c as int));
    lemma_scan_dec(st4, c as int);
    let st5 = scan_from(st0, s5);
    lemma_scan_from_concat(st0, s5, seq!['.']);
    lemma_scan_from_one(st5, '.');
    let st6 = scan_from(st0, s6);
    lemma_scan_from_concat(st0, s6, spec_dec(d as int));
    lemma_scan_dec(st6, d as int);
    assert(ipv4_text(a, b, c, d) =~= s6 + spec_dec(d as int));
    assert(st6.vals =~= seq![a as int, b as int, c as int]);
}

/// Parse an IPv4 literal: four decimal octets without leading zeros,
/// separated by dots — the one spelling `format_ip` produces for the
/// address. Returns the octets exactly when `s` is such a spelling.
pub fn parse_ipv4(s: &str) -> (r: Option<IpAddress>)
    ensures
        r matches Some(ip) ==> ip is V4 && s@ == ip_text(ip),
        forall|a: u8, b: u8, c: u8, d: u8|
            s@ == ipv4_text(a, b, c, d) ==> r == Some(IpAddress::V4(a, b, c, d)),
{
    let n = s.unicode_len();
    let mut ok = true;
    let mut vals: Vec<u8> = Vec::new();
    let mut cur_len: usize = 0;
    let mut cur_val: u16 = 0;
    let mut i: usize = 0;
    proof {
        assert(s@.subrange(0, 0) =~= Seq::<char>::empty());
        assert(vals@.map_values(|x: u8| x as int) =~= Seq::<int>::empty());
    }
    while i < n
        invariant
            n == s@.len(),
            i <= n,
            ok == scan_from(scan_init(), s@.subrange(0, i as int)).ok,
            ok ==> scan_from(scan_init(), s@.subrange(0, i as int)) == (Ipv4Scan {
                ok: true,
                vals: vals@.map_values(|x: u8| x as int),
                cur_len: cur_len as int,
                cur_val: cur_val as int,
            }),
            ok ==> cur_len <= 3,
            ok ==> (cur_len == 0 ==> cur_val == 0),
            ok ==> (cur_len == 1 ==> cur_val < 10),
            ok ==> (cur_len == 2 ==> cur_val < 100),
            ok ==> cur_val < 1000,
            ok ==> vals@.len() <= 3,
        decreases n - i,
    {
        let ghost prefix = s@.subrange(0, i as int);
        let c = s.get_char(i);
        proof {
            assert(s@.subrange(0, i + 1 as int) =~= prefix + seq![c]);
            lemma_scan_from_concat(scan_init(), prefix, seq![c]);
            lemma_scan_from_one(scan_from(scan_init(), prefix), c);
        }
        if ok {
            if c == '.' {
                if cur_len == 0 || cur_val > 255 || vals.len() >= 3 {
                    ok = false;
                } else {
                    vals.push(cur_val as u8);
                    cur_len = 0;
                    cur_val = 0;
                    proof {
                        assert(vals@.map_values(|x: u8| x as int) =~= scan_from(
                            scan_init(),
                            s@.subrange(0, i + 1 as int),
                        ).vals);
                    }
                }
            } else {
                let cv = c as u32;
                if cv >= 48 && cv <= 57 {
                    if (cur_len > 0 && cur_val == 0) || cur_len >= 3 {
                        ok = false;
                    } else {
                        cur_len = cur_len + 1;
                        cur_val = cur_val * 10 + ((cv - 48) as u16);
                    }
                } else {
                    ok = false;
                }
            }
        }
        i = i + 1;
    }
    proof {
        assert(s@.subrange(0, n as int) =~= s@);
    }
    let ghost st = scan_from(scan_init(), s@);
    if ok && vals.len() == 3 && cur_len >= 1 && cur_val <= 255 {
        let cand = IpAddress::V4(vals[0], vals[1], vals[2], cur_val as u8);
        let text = format_ip(&cand);
        if str_eq(s, text.as_str()) {
            proof {
                assert forall|a: u8, b: u8, c: u8, d: u8|
                    s@ == ipv4_text(a, b, c, d) implies cand == IpAddress::V4(a, b, c, d) by {
                    lemma_scan_canonical(a, b, c, d);
                    assert(vals@.map_values(|x: u8| x as int) == seq![a as int, b as int, c as int]);
                    assert(vals@.map_values(|x: u8| x as int)[0] == a as int);
                    assert(vals@.map_values(|x: u8| x as int)[1] == b as int);
                    assert(vals@.map_values(|x: u8| x as int)[2] == c as int);
                }
            }
            Some(cand)
        } else {
            proof {
                assert forall|a: u8, b: u8, c: u8, d: u8| s@ != ipv4_text(a, b, c, d) by {
                    if s@ == ipv4_text(a, b, c, d) {
                        lemma_scan_canonical(a, b, c, d);
                        assert(vals@.map_values(|x: u8| x as int)[0] == a as int);
                        assert(vals@.map_values(|x: u8| x as int)[1] == b as int);
                        assert(vals@.map_values(|x: u8| x as int)[2] == c as int);
                        assert(cand == IpAddress::V4(a, b, c, d));
                        assert(s@ == ip_text(cand));
                    }
                }
            }
            None
        }
    } else {
        proof {
            assert forall|a: u8, b: u8, c: u8, d: u8| s@ != ipv4_text(a, b, c, d) by {
                if s@ == ipv4_text(a, b, c, d) {
                    lemma_scan_canonical(a, b, c, d);
                    lemma_dec_len(d as int);
                    assert(st.ok);
                    assert(ok);
                    assert(vals@.map_values(|x: u8| x as int).len() == vals@.len());
                    assert(vals@.len() == 3);
                    assert(cur_len as int == spec_dec(d as int).len() as int);
                    assert(cur_val as int == d as int);
                }
            }
        }
        None
    }
}

/// Whether `c` is a lowercase hexadecimal digit.
pub open spec fn is_hex_digit_char(c: char) -> bool {
    (48 <= c as u32 <= 57) || (97 <= c as u32 <= 102)
}

/// The numeric value of a lowercase hexadecimal digit character.
pub open spec fn hex_val_of(c: char) -> int {
    if c as u32 <= 57 {
        c as u32 - 48
    } else {
        c as u32 - 87
    }
}

/// The state of the group scanner for IPv6 text: the groups already closed
/// by a colon, and the length and value of the group being read.
pub struct Ipv6Scan {
    pub ok: bool,
    pub vals: Seq<int>,
    pub cur_len: int,
    pub cur_val: int,
}

/// The failed scan, which every further character preserves.
pub open spec fn scan6_failed() -> Ipv6Scan {
    Ipv6Scan { ok: false, vals: Seq::empty(), cur_len: 0, cur_val: 0 }
}

/// The scanner's start state.
pub open spec fn scan6_init() -> Ipv6Scan {
    Ipv6Scan { ok: true, vals: Seq::empty(), cur_len: 0, cur_val: 0 }
}

/// One scanner step: a colon closes the current group (which must be
/// non-empty, with room for another group), a lowercase hexadecimal digit
/// extends it (at most four digits, no leading zero), anything else fails.
pub open spec fn scan6_step(st: Ipv6Scan, ch: char) -> Ipv6Scan {
    if !st.ok {
        st
    } else if ch == ':' {
        if st.cur_len == 0 || st.vals.len() >= 7 {
            scan6_failed()
        } else {
            Ipv6Scan { ok: true, vals: st.vals.push(st.cur_val), cur_len: 0, cur_val: 0 }
        }
    } else if is_hex_digit_char(ch) {
        if (st.cur_len > 0 && st.cur_val == 0) || st.cur_len >= 4 {
            scan6_failed()
        } else {
            Ipv6Scan {
                ok: true,
                vals: st.vals,
                cur_len: st.cur_len + 1,
                cur_val: st.cur_val * 16 + hex_val_of(ch),
            }
        }
    } else {
        scan6_failed()
    }
}

/// Run the scanner over `s` from state `st`.
pub open spec fn scan6_from(st: Ipv6Scan, s: Seq<char>) -> Ipv6Scan
    decreases s.len(),
{
    if s.len() == 0 {
        st
    } else {
        scan6_from(scan6_step(st, s[0]), s.drop_first())
    }
}

proof fn lemma_scan6_from_concat(st: Ipv6Scan, a: Seq<char>, b: Seq<char>)
    ensures
        scan6_from(st, a + b) == scan6_from(scan6_from(st, a), b),
    decreases a.len(),
{
    if a.len() == 0 {
        assert(a + b =~= b);
    } else {
        assert((a + b)[0] == a[0]);
        assert((a + b).drop_first() =~= a.drop_first() + b);
        lemma_scan6_from_concat(scan6_step(st, a[0]), a.drop_first(), b);
    }
}

proof fn lemma_scan6_from_one(st: Ipv6Scan, c: char)
    ensures
        scan6_from(st, seq![c]) == scan6_step(st, c),
{
    reveal_with_fuel(scan6_from, 2);
    assert(seq![c].len() == 1);
    assert(seq![c][0] == c);
    assert(seq![c].drop_first() =~= Seq::<char>::empty());
}

proof fn lemma_hex_digit_char(d: int)
    requires
        0 <= d <= 15,
    ensures
        is_hex_digit_char(spec_hex_digit(d)),
        hex_val_of(spec_hex_digit(d)) == d,
        spec_hex_digit(d) != ':',
{
}

/// The length of the hexadecimal rendering, for the values a group can
/// take.
proof fn lemma_hex_len(n: int)
    requires
        0 <= n,
    ensures
        spec_hex(n).len() >= 1,
        n < 16 ==> spec_hex(n).len() == 1,
        n < 256 ==> spec_hex(n).len() <= 2,
        n < 4096 ==> spec_hex(n).len() <= 3,
        n < 65536 ==> spec_hex(n).len() <= 4,
    decreases n,
{
    if n >= 16 {
        lemma_hex_len(n / 16);
    }
}

/// Scanning the hexadecimal rendering of a group value from a state whose
/// current group is empty reads exactly that group.
proof fn lemma_scan6_hex(st: Ipv6Scan, v: int)
    requires
        st.ok,
        st.cur_len == 0,
        st.cur_val == 0,
        0 <= v <= 65535,
    ensures
        scan6_from(st, spec_hex(v)) == (Ipv6Scan {
            ok: true,
            vals: st.vals,
            cur_len: spec_hex(v).len() as int,
            cur_val: v,
        }),
    decreases v,
{
    lemma_hex_len(v);
    if v < 16 {
        lemma_hex_digit_char(v);
        lemma_scan6_from_one(st, spec_hex_digit(v));
    } else {
        lemma_scan6_hex(st, v / 16);
        lemma_hex_len(v / 16);
        lemma_hex_digit_char(v % 16);
        let st1 = Ipv6Scan {
            ok: true,
            vals: st.vals,
            cur_len: spec_hex(v / 16).len() as int,
            cur_val: v / 16,
        };
        assert(spec_hex(v) =~= spec_hex(v / 16) + seq![spec_hex_digit(v % 16)]);
        lemma_scan6_from_concat(st, spec_hex(v / 16), seq![spec_hex_digit(v % 16)]);
        lemma_scan6_from_one(st1, spec_hex_digit(v % 16));
    }
}

/// Scanning the canonical text of an IPv6 address succeeds and recovers
/// exactly its eight groups.
proof fn lemma_scan6_canonical(g0: u16, g1: u16, g2: u16, g3: u16, g4: u16, g5: u16, g6: u16, g7: u16)
    ensures
        scan6_from(scan6_init(), ipv6_text(g0, g1, g2, g3, g4, g5, g6, g7)) == (Ipv6Scan {
            ok: true,
            vals: seq![
                g0 as int,
                g1 as int,
                g2 as int,
                g3 as int,
                g4 as int,
                g5 as int,
                g6 as int,
            ],
            cur_len: spec_hex(g7 as int).len() as int,
            cur_val: g7 as int,
        }),
{
    let st0 = scan6_init();
    let s1 = spec_hex(g0 as int);
    lemma_scan6_hex(st0, g0 as int);
    let st1 = scan6_from(st0, s1);
    let s2 = s1 + seq![':'];
    lemma_scan6_from_concat(st0, s1, seq![':']);
    lemma_scan6_from_one(st1, ':');
    let st2 = scan6_from(st0, s2);
    let s3 = s2 + spec_hex(g1 as int);
    lemma_scan6_from_concat(st0, s2, spec_hex(g1 as int));
    lemma_scan6_hex(st2, g1 as int);
    let st3 = scan6_from(st0, s3);
    let s4 = s3 + seq![':'];
    lemma_scan6_from_concat(st0, s3, seq![':']);
    lemma_scan6_from_one(st3, ':');
    let st4 = scan6_from(st0, s4);
    let s5 = s4 + spec_hex(g2 as int);
    lemma_scan6_from_concat(st0, s4, spec_hex(g2 as int));
    lemma_scan6_hex(st4, g2 as int);
    let st5 = scan6_from(st0, s5);
    let s6 = s5 + seq![':'];
    lemma_scan6_from_concat(st0, s5, seq![':']);
    lemma_scan6_from_one(st5, ':');
    let st6 = scan6_from(st0, s6);
    let s7 = s6 + spec_hex(g3 as int);
    lemma_scan6_from_concat(st0, s6, spec_hex(g3 as int));
    lemma_scan6_hex(st6, g3 as int);
    let st7 = scan6_from(st0, s7);
    let s8 = s7 + seq![':'];
    lemma_scan6_from_concat(st0, s7, seq![':']);
    lemma_scan6_from_one(st7, ':');
    let st8 = scan6_from(st0, s8);
    let s9 = s8 + spec_hex(g4 as int);
    lemma_scan6_from_concat(st0, s8, spec_hex(g4 as int));
    lemma_scan6_hex(st8, g4 as int);
    let st9 = scan6_from(st0, s9);
    let s10 = s9 + seq![':'];
    lemma_scan6_from_concat(st0, s9, seq![':']);
    lemma_scan6_from_one(st9, ':');
    let st10 = scan6_from(st0, s10);
    let s11 = s10 + spec_hex(g5 as int);
    lemma_scan6_from_concat(st0, s10, spec_hex(g5 as int));
    lemma_scan6_hex(st10, g5 as int);
    let st11 = scan6_from(st0, s11);
    let s12 = s11 + seq![':'];
    lemma_scan6_from_concat(st0, s11, seq![':']);
    lemma_scan6_from_one(st11, ':');
    let st12 = scan6_from(st0, s12);
    let s13 = s12 + spec_hex(g6 as int);
    lemma_scan6_from_concat(st0, s12, spec_hex(g6 as int));
    lemma_scan6_hex(st12, g6 as int);
    let st13 = scan6_from(st0, s13);
    let s14 = s13 + seq![':'];
    lemma_scan6_from_concat(st0, s13, seq![':']);
    lemma_scan6_from_one(st13, ':');
    let st14 = scan6_from(st0, s14);
    lemma_scan6_from_concat(st0, s14, spec_hex(g7 as int));
    lemma_scan6_hex(st14, g7 as int);
    assert(ipv6_text(g0, g1, g2, g3, g4, g5, g6, g7) =~= s14 + spec_hex(g7 as int));
    assert(st14.vals =~= seq![
        g0 as int,
        g1 as int,
        g2 as int,
        g3 as int,
        g4 as int,
        g5 as int,
        g6 as int,
    ]);
}

/// Parse an IPv6 literal: all eight groups in lowercase hexadecimal
/// without leading zeros, separated by colons — the one spelling
/// `format_ip` produces for the address. Returns the groups exactly when
/// `s` is such a spelling.
pub fn parse_ipv6(s: &str) -> (r: Option<IpAddress>)
    ensures
        r matches Some(ip) ==> ip is V6 && s@ == ip_text(ip),
        forall|g0: u16, g1: u16, g2: u16, g3: u16, g4: u16, g5: u16, g6: u16, g7: u16|
            s@ == ipv6_text(g0, g1, g2, g3, g4, g5, g6, g7) ==> r == Some(
                IpAddress::V6(g0, g1, g2, g3, g4, g5, g6, g7),
            ),
{
    let n = s.unicode_len();
    let mut ok = true;
    let mut vals: Vec<u16> = Vec::new();
    let mut cur_len: usize = 0;
    let mut cur_val: u32 = 0;
    let mut i: usize = 0;
    proof {
        assert(s@.subrange(0, 0) =~= Seq::<char>::empty());
        assert(vals@.map_values(|x: u16| x as int) =~= Seq::<int>::empty());
    }
    while i < n
        invariant
            n == s@.len(),
            i <= n,
            ok == scan6_from(scan6_init(), s@.subrange(0, i as int)).ok,
            ok ==> scan6_from(scan6_init(), s@.subrange(0, i as int)) == (Ipv6Scan {
                ok: true,
                vals: vals@.map_values(|x: u16| x as int),
                cur_len: cur_len as int,
                cur_val: cur_val as int,
            }),
            ok ==> cur_len <= 4,
            ok ==> (cur_len == 0 ==> cur_val == 0),
            ok ==> (cur_len == 1 ==> cur_val < 16),
            ok ==> (cur_len == 2 ==> cur_val < 256),
            ok ==> (cur_len == 3 ==> cur_val < 4096),
            ok ==> cur_val < 65536,
            ok ==> vals@.len() <= 7,
        decreases n - i,
    {
        let ghost prefix = s@.subrange(0, i as int);
        let c = s.get_char(i);
        proof {
            assert(s@.subrange(0, i + 1 as int) =~= prefix + seq![c]);
            lemma_scan6_from_concat(scan6_init(), prefix, seq![c]);
            lemma_scan6_from_one(scan6_from(scan6_init(), prefix), c);
        }
        if ok {
            if c == ':' {
                if cur_len == 0 || vals.len() >= 7 {
                    ok = false;
                } else {
                    vals.push(cur_val as u16);
                    cur_len = 0;
                    cur_val = 0;
                    proof {
                        assert(vals@.map_values(|x: u16| x as int) =~= scan6_from(
                            scan6_init(),
                            s@.subrange(0, i + 1 as int),
                        ).vals);
                    }
                }
            } else {
                let cv = c as u32;
                if (cv >= 48 && cv <= 57) || (cv >= 97 && cv <= 102) {
                    if (cur_len > 0 && cur_val == 0) || cur_len >= 4 {
                        ok = false;
                    } else {
                        let dv: u32 = if cv <= 57 {
                            cv - 48
                        } else {
                            cv - 87
                        };
                        cur_len = cur_len + 1;
                        cur_val = cur_val * 16 + dv;
                    }
                } else {
                    ok = false;
                }
            }
        }
        i = i + 1;
    }
    proof {
        assert(s@.subrange(0, n as int) =~= s@);
    }
    let ghost st = scan6_from(scan6_init(), s@);
    if ok && vals.len() == 7 && cur_len >= 1 {
        let cand = IpAddress::V6(
            vals[0],
            vals[1],
            vals[2],
            vals[3],
            vals[4],
            vals[5],
            vals[6],
            cur_val as u16,
        );
        let text = format_ip(&cand);
        if str_eq(s, text.as_str()) {
            proof {
                assert forall|g0: u16, g1: u16, g2: u16, g3: u16, g4: u16, g5: u16, g6: u16, g7: u16|
                    s@ == ipv6_text(g0, g1, g2, g3, g4, g5, g6, g7) implies cand == IpAddress::V6(
                    g0,
                    g1,
                    g2,
                    g3,
                    g4,
                    g5,
                    g6,
                    g7,
                ) by {
                    lemma_scan6_canonical(g0, g1, g2, g3, g4, g5, g6, g7);
                    let m = vals@.map_values(|x: u16| x as int);
                    assert(m[0] == g0 as int);
                    assert(m[1] == g1 as int);
                    assert(m[2] == g2 as int);
                    assert(m[3] == g3 as int);
                    assert(m[4] == g4 as int);
                    assert(m[5] == g5 as int);
                    assert(m[6] == g6 as int);
                }
            }
            Some(cand)
        } else {
            proof {
                assert forall|g0: u16, g1: u16, g2: u16, g3: u16, g4: u16, g5: u16, g6: u16, g7: u16|
                    s@ != ipv6_text(g0, g1, g2, g3, g4, g5, g6, g7) by {
                    if s@ == ipv6_text(g0, g1, g2, g3, g4, g5, g6, g7) {
                        lemma_scan6_canonical(g0, g1, g2, g3, g4, g5, g6, g7);
                        let m = vals@.map_values(|x: u16| x as int);
                        assert(m[0] == g0 as int);
                        assert(m[1] == g1 as int);
                        assert(m[2] == g2 as int);
                        assert(m[3] == g3 as int);
                        assert(m[4] == g4 as int);
                        assert(m[5] == g5 as int);
                        assert(m[6] == g6 as int);
                        assert(cand == IpAddress::V6(g0, g1, g2, g3, g4, g5, g6, g7));
                        assert(s@ == ip_text(cand));
                    }
                }
            }
            None
        }
    } else {
        proof {
            assert forall|g0: u16, g1: u16, g2: u16, g3: u16, g4: u16, g5: u16, g6: u16, g7: u16|
                s@ != ipv6_text(g0, g1, g2, g3, g4, g5, g6, g7) by {
                if s@ == ipv6_text(g0, g1, g2, g3, g4, g5, g6, g7) {
                    lemma_scan6_canonical(g0, g1, g2, g3, g4, g5, g6, g7);
                    lemma_hex_len(g7 as int);
                    assert(st.ok);
                    assert(ok);
                    assert(vals@.map_values(|x: u16| x as int).len() == vals@.len());
                    assert(vals@.len() == 7);
                    assert(cur_len as int == spec_hex(g7 as int).len() as int);
                }
            }
        }
        None
    }
}

proof fn lemma_dec_all_digits(n: int)
    requires
        0 <= n,
    ensures
        forall|i: int| 0 <= i < spec_dec(n).len() ==> is_dec_digit(#[trigger] spec_dec(n)[i]),
    decreases n,
{
    if n < 10 {
        lemma_digit_char(n);
    } else {
        lemma_dec_all_digits(n / 10);
        lemma_digit_char(n % 10);
        assert forall|i: int| 0 <= i < spec_dec(n).len() implies is_dec_digit(
            #[trigger] spec_dec(n)[i],
        ) by {
            if i < spec_dec(n / 10).len() {
                assert(spec_dec(n)[i] == spec_dec(n / 10)[i]);
            } else {
                assert(spec_dec(n)[i] == spec_digit(n % 10));
            }
        }
    }
}

/// The text of an IPv4 address holds no colon.
proof fn lemma_v4_text_no_colon(a: u8, b: u8, c: u8, d: u8)
    ensures
        forall|i: int|
            0 <= i < ipv4_text(a, b, c, d).len() ==> #[trigger] ipv4_text(a, b, c, d)[i] != ':',
{
    lemma_dec_all_digits(a as int);
    lemma_dec_all_digits(b as int);
    lemma_dec_all_digits(c as int);
    lemma_dec_all_digits(d as int);
    assert forall|i: int|
        0 <= i < ipv4_text(a, b, c, d).len() implies #[trigger] ipv4_text(a, b, c, d)[i]
        != ':' by {
        let t = ipv4_text(a, b, c, d);
        assert(is_dec_digit(t[i]) || t[i] == '.');
    }
}

/// The text of an IPv6 address holds a colon.
proof fn lemma_v6_text_has_colon(g0: u16, g1: u16, g2: u16, g3: u16, g4: u16, g5: u16, g6: u16, g7: u16)
    ensures
        exists|i: int|
            0 <= i < ipv6_text(g0, g1, g2, g3, g4, g5, g6, g7).len()
                && #[trigger] ipv6_text(g0, g1, g2, g3, g4, g5, g6, g7)[i] == ':',
{
    lemma_hex_len(g0 as int);
    let k = spec_hex(g0 as int).len() as int;
    assert(ipv6_text(g0, g1, g2, g3, g4, g5, g6, g7)[k] == ':');
}

/// Parse an IP address literal, in the spellings `format_ip` produces:
/// dotted decimal for IPv4, full lowercase hexadecimal groups for IPv6.
/// Succeeds exactly on those spellings, returning the rendered address.
pub fn parse_ip(s: &str) -> (r: Option<IpAddress>)
    ensures
        r matches Some(ip) ==> s@ == ip_text(ip),
        forall|ip: IpAddress| s@ == ip_text(ip) ==> r == Some(ip),
{
    let r4 = parse_ipv4(s);
    match r4 {
        Some(ip) => {
            proof {
                assert forall|q: IpAddress| s@ == ip_text(q) implies Some(ip) == Some(q) by {
                    match q {
                        IpAddress::V4(a, b, c, d) => {
                            assert(r4 == Some(IpAddress::V4(a, b, c, d)));
                        },
                        IpAddress::V6(g0, g1, g2, g3, g4, g5, g6, g7) => {
                            match ip {
                                IpAddress::V4(a, b, c, d) => {
                                    lemma_v4_text_no_colon(a, b, c, d);
                                    lemma_v6_text_has_colon(g0, g1, g2, g3, g4, g5, g6, g7);
                                },
                                IpAddress::V6(..) => {},
                            }
                        },
                    }
                }
            }
            Some(ip)
        },
        None => {
            let r6 = parse_ipv6(s);
            match r6 {
                Some(ip) => {
                    proof {
                        assert forall|q: IpAddress| s@ == ip_text(q) implies Some(ip) == Some(
                            q,
                        ) by {
                            match q {
                                IpAddress::V4(a, b, c, d) => {
                                    assert(r4 == Some(IpAddress::V4(a, b, c, d)));
                                },
                                IpAddress::V6(g0, g1, g2, g3, g4, g5, g6, g7) => {
                                    assert(r6 == Some(IpAddress::V6(g0, g1, g2, g3, g4, g5, g6, g7)));
                                },
                            }
                        }
                    }
                    Some(ip)
                },
                None => {
                    proof {
                        assert forall|q: IpAddress| s@ != ip_text(q) by {
                            if s@ == ip_text(q) {
                                match q {
                                    IpAddress::V4(a, b, c, d) => {
                                        assert(r4 == Some(IpAddress::V4(a, b, c, d)));
                                    },
                                    IpAddress::V6(g0, g1, g2, g3, g4, g5, g6, g7) => {
                                        assert(r6 == Some(
                                            IpAddress::V6(g0, g1, g2, g3, g4, g5, g6, g7),
                                        ));
                                    },
                                }
                            }
                        }
                    }
                    None
                },
            }
        },
    }
}

} // verus!
