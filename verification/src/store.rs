//! How sessions are kept in the session store (a Redis hash per session):
//! the key of a session, the fields written for it, and the session read
//! back from a key and its fields.
use vstd::prelude::*;
use crate::association::SessionData;
use crate::fmt::{dec_digits, ipv4_text, push_dec, push_ipv4};
use crate::net::Ipv4Addr;
use crate::text::{
    digit_value, digits_value, octet_value, parse_ipv4, parse_unsigned, spec_parse_ipv4,
    spec_parse_unsigned, spec_split, split_fold, strip_all, strip_prefixes,
};
use crate::net::lemma_new_octets;

verus! {

/// The prefix of every session key.
pub const KEY_PREFIX: &'static str = "upf:session:";

/// The key of session `seid`.
pub open spec fn spec_session_key(seid: u64) -> Seq<char> {
    KEY_PREFIX@ + dec_digits(seid as nat)
}

pub fn session_key(seid: u64) -> (r: String)
    ensures
        r@ == spec_session_key(seid),
{
    let mut k = String::from_str(KEY_PREFIX);
    push_dec(&mut k, seid);
    k
}

/// The fields written for a session, by name: the UE address, the TEID,
/// the gNB address and the SMF's SEID, as text.
pub open spec fn spec_session_fields(d: SessionData) -> Seq<(Seq<char>, Seq<char>)> {
    seq![
        ("ue_ip"@, ipv4_text(d.ue_ip)),
        ("teid"@, dec_digits(d.teid as nat)),
        ("gnb_ip"@, ipv4_text(d.gnb_ip)),
        ("cp_seid"@, dec_digits(d.cp_seid as nat)),
    ]
}

pub fn session_fields(d: &SessionData) -> (r: Vec<(&'static str, String)>)
    ensures
        r@.len() == 4,
        forall|k: int| 0 <= k < 4 ==> (#[trigger] r@[k]).0@ == spec_session_fields(*d)[k].0 && r@[k].1@
            == spec_session_fields(*d)[k].1,
{
    let mut ue = String::new();
    push_ipv4(&mut ue, d.ue_ip);
    let mut teid = String::new();
    push_dec(&mut teid, d.teid as u64);
    let mut gnb = String::new();
    push_ipv4(&mut gnb, d.gnb_ip);
    let mut cp = String::new();
    push_dec(&mut cp, d.cp_seid);
    let mut v: Vec<(&'static str, String)> = Vec::new();
    v.push(("ue_ip", ue));
    v.push(("teid", teid));
    v.push(("gnb_ip", gnb));
    v.push(("cp_seid", cp));
    v
}

/// A field read back: its value where the field is there and reads,
/// else the default.
pub open spec fn field_addr(v: Option<Seq<char>>) -> Ipv4Addr {
    match v {
        Some(t) => match spec_parse_ipv4(t) {
            Some(a) => a,
            None => Ipv4Addr { bits: 0 },
        },
        None => Ipv4Addr { bits: 0 },
    }
}

pub open spec fn field_num(v: Option<Seq<char>>, max: nat) -> nat {
    match v {
        Some(t) => match spec_parse_unsigned(t, 10, max) {
            Some(n) => n,
            None => 0,
        },
        None => 0,
    }
}

pub open spec fn opt_view(v: Option<&str>) -> Option<Seq<char>> {
    match v {
        Some(t) => Some(t@),
        None => None,
    }
}

/// The session a stored key and its fields give back: the SEID after the
/// key's prefix (none where it does not read as one), and each field where
/// it reads, else the unspecified address or zero.
pub open spec fn spec_session_from_record(
    key: Seq<char>,
    ue_ip: Option<Seq<char>>,
    teid: Option<Seq<char>>,
    gnb_ip: Option<Seq<char>>,
    cp_seid: Option<Seq<char>>,
) -> Option<(u64, SessionData)> {
    match spec_parse_unsigned(strip_all(key, KEY_PREFIX@), 10, u64::MAX as nat) {
        None => None,
        Some(seid) => Some(
            (
                seid as u64,
                SessionData {
                    ue_ip: field_addr(ue_ip),
                    teid: field_num(teid, u32::MAX as nat) as u32,
                    gnb_ip: field_addr(gnb_ip),
                    cp_seid: field_num(cp_seid, u64::MAX as nat) as u64,
                },
            ),
        ),
    }
}

fn read_addr(v: Option<&str>) -> (r: Ipv4Addr)
    ensures
        r == field_addr(opt_view(v)),
{
    match v {
        Some(t) => match parse_ipv4(t) {
            Some(a) => a,
            None => Ipv4Addr::unspecified(),
        },
        None => Ipv4Addr::unspecified(),
    }
}

fn read_num(v: Option<&str>, max: u64) -> (r: u64)
    ensures
        r == field_num(opt_view(v), max as nat),
{
    match v {
        Some(t) => match parse_unsigned(t, 10, max) {
            Some(n) => n,
            None => 0,
        },
        None => 0,
    }
}

/// Reads a session back from its key and fields.
pub fn session_from_record(
    key: &str,
    ue_ip: Option<&str>,
    teid: Option<&str>,
    gnb_ip: Option<&str>,
    cp_seid: Option<&str>,
) -> (r: Option<(u64, SessionData)>)
    ensures
        r == spec_session_from_record(key@, opt_view(ue_ip), opt_view(teid), opt_view(gnb_ip), opt_view(cp_seid)),
{
    let seid = match parse_unsigned(strip_prefixes(key, KEY_PREFIX), 10, u64::MAX) {
        Some(s) => s,
        None => {
            return None;
        },
    };
    let data = SessionData {
        ue_ip: read_addr(ue_ip),
        teid: read_num(teid, u32::MAX as u64) as u32,
        gnb_ip: read_addr(gnb_ip),
        cp_seid: read_num(cp_seid, u64::MAX),
    };
    Some((seid, data))
}

// ── What is stored is read back ─────────────────────────────────────────

/// Every character of `dec_digits(n)` is a decimal digit.
pub open spec fn all_digits(s: Seq<char>) -> bool {
    forall|k: int| 0 <= k < s.len() ==> #[trigger] digit_value(s[k], 10) is Some
}

proof fn lemma_dec_digits(n: nat)
    ensures
        dec_digits(n).len() >= 1,
        all_digits(dec_digits(n)),
        n >= 1 ==> dec_digits(n)[0] != '0',
        n < 10 ==> dec_digits(n).len() == 1,
        n < 100 ==> dec_digits(n).len() <= 2,
        n < 1000 ==> dec_digits(n).len() <= 3,
        !dec_digits(n).contains('.'),
    decreases n,
{
    if n < 10 {
        let c = (0x30 + n) as char;
        assert((c as u32) == 0x30 + n);
        assert(dec_digits(n) == seq![c]);
        assert(dec_digits(n).drop_last() =~= Seq::<char>::empty());
        assert(digit_value(c, 10) == Some(n));
    } else {
        lemma_dec_digits(n / 10);
        let init = dec_digits(n / 10);
        let c = (0x30 + n % 10) as char;
        assert((c as u32) == 0x30 + n % 10);
        assert(digit_value(c, 10) == Some((n % 10) as nat));
        let d = dec_digits(n);
        assert(d == init.push(c));
        assert(d.drop_last() =~= init);
        assert(d[0] == init[0]);
        assert forall|k: int| 0 <= k < d.len() implies #[trigger] digit_value(d[k], 10) is Some by {
            if k < init.len() {
                assert(d[k] == init[k]);
            }
        }
        assert(!d.contains('.')) by {
            if d.contains('.') {
                let k = choose|k: int| 0 <= k < d.len() && d[k] == '.';
                if k < init.len() {
                    assert(init[k] == '.');
                }
            }
        }
    }
}

proof fn lemma_dec_digits_value(n: nat)
    ensures
        digits_value(dec_digits(n), 10) == Some(n),
    decreases n,
{
    if n < 10 {
        let c = (0x30 + n) as char;
        assert((c as u32) == 0x30 + n);
        let d = dec_digits(n);
        assert(d.drop_last() =~= Seq::<char>::empty());
        assert(d.last() == c);
        assert(digits_value(d.drop_last(), 10) == Some(0nat));
        assert(digit_value(c, 10) == Some(n));
        assert(digits_value(d, 10) == Some(0nat * 10 + n));
    } else {
        lemma_dec_digits_value(n / 10);
        let init = dec_digits(n / 10);
        let c = (0x30 + n % 10) as char;
        assert((c as u32) == 0x30 + n % 10);
        assert(digit_value(c, 10) == Some((n % 10) as nat));
        let d = dec_digits(n);
        assert(d.drop_last() =~= init);
        assert(d.last() == c);
        assert((n / 10) * 10 + n % 10 == n) by (nonlinear_arith);
        assert(digits_value(d, 10) == Some((n / 10) * 10 + (n % 10) as nat));
    }
}

proof fn lemma_parse_dec_digits(n: nat, max: nat)
    requires
        n <= max,
    ensures
        spec_parse_unsigned(dec_digits(n), 10, max) == Some(n),
{
    lemma_dec_digits(n);
    lemma_dec_digits_value(n);
    let d = dec_digits(n);
    assert(digit_value(d[0], 10) is Some);
    assert(d[0] != '+') by {
        assert(('+' as u32) == 0x2B);
    }
}

proof fn lemma_octet_dec_digits(o: u8)
    ensures
        octet_value(dec_digits(o as nat)) == Some(o),
{
    lemma_dec_digits(o as nat);
    lemma_dec_digits_value(o as nat);
}

proof fn lemma_split_no_sep(p: Seq<char>, q: Seq<char>, sep: char)
    requires
        !q.contains(sep),
    ensures
        split_fold(p + q, sep) == (split_fold(p, sep).0, split_fold(p, sep).1 + q),
    decreases q.len(),
{
    if q.len() == 0 {
        assert(p + q =~= p);
        assert(split_fold(p, sep).1 + q =~= split_fold(p, sep).1);
    } else {
        let qi = q.drop_last();
        assert(!qi.contains(sep)) by {
            if qi.contains(sep) {
                let k = choose|k: int| 0 <= k < qi.len() && qi[k] == sep;
                assert(q[k] == sep);
            }
        }
        lemma_split_no_sep(p, qi, sep);
        assert((p + q).drop_last() =~= p + qi);
        assert((p + q).last() == q.last());
        assert(q.last() != sep) by {
            assert(q[q.len() - 1] == q.last());
        }
        assert(split_fold(p, sep).1 + q =~= (split_fold(p, sep).1 + qi).push(q.last()));
    }
}

proof fn lemma_split_sep(p: Seq<char>, sep: char)
    ensures
        split_fold(p.push(sep), sep) == (split_fold(p, sep).0.push(split_fold(p, sep).1), Seq::<char>::empty()),
{
    assert(p.push(sep).drop_last() =~= p);
}

/// A dotted-decimal address reads back as the address.
pub proof fn lemma_ipv4_text_roundtrip(a: Ipv4Addr)
    ensures
        spec_parse_ipv4(ipv4_text(a)) == Some(a),
{
    let o = a.spec_octets();
    let d0 = dec_digits(o[0] as nat);
    let d1 = dec_digits(o[1] as nat);
    let d2 = dec_digits(o[2] as nat);
    let d3 = dec_digits(o[3] as nat);
    lemma_dec_digits(o[0] as nat);
    lemma_dec_digits(o[1] as nat);
    lemma_dec_digits(o[2] as nat);
    lemma_dec_digits(o[3] as nat);
    let e = Seq::<char>::empty();
    let dot = seq!['.'];
    let p1 = d0 + dot;
    let p2 = p1 + d1 + dot;
    let p3 = p2 + d2 + dot;
    assert(ipv4_text(a) =~= p3 + d3);
    lemma_split_no_sep(e, d0, '.');
    assert(e + d0 =~= d0);
    assert(split_fold(e, '.') == (Seq::<Seq<char>>::empty(), e));
    assert(e + d0 =~= d0);
    assert(p1 =~= d0.push('.'));
    lemma_split_sep(d0, '.');
    lemma_split_no_sep(p1, d1, '.');
    assert(p2 =~= (p1 + d1).push('.'));
    lemma_split_sep(p1 + d1, '.');
    lemma_split_no_sep(p2, d2, '.');
    assert(p3 =~= (p2 + d2).push('.'));
    lemma_split_sep(p2 + d2, '.');
    lemma_split_no_sep(p3, d3, '.');
    let parts = spec_split(ipv4_text(a), '.');
    assert(parts =~= seq![d0, d1, d2, d3]);
    lemma_octet_dec_digits(o[0]);
    lemma_octet_dec_digits(o[1]);
    lemma_octet_dec_digits(o[2]);
    lemma_octet_dec_digits(o[3]);
    lemma_new_octets(a);
}

/// What the session store holds of a session reads back as that session:
/// the key gives back the SEID and the fields give back the UE address,
/// the TEID, the gNB address and the SMF's SEID.
pub proof fn law_session_store_roundtrip(seid: u64, d: SessionData)
    ensures
        ({
            let f = spec_session_fields(d);
            spec_session_from_record(
                spec_session_key(seid),
                Some(f[0].1),
                Some(f[1].1),
                Some(f[2].1),
                Some(f[3].1),
            ) == Some((seid, d))
        }),
{
    lemma_ipv4_text_roundtrip(d.ue_ip);
    lemma_ipv4_text_roundtrip(d.gnb_ip);
    lemma_parse_dec_digits(d.teid as nat, u32::MAX as nat);
    lemma_parse_dec_digits(d.cp_seid as nat, u64::MAX as nat);
    lemma_parse_dec_digits(seid as nat, u64::MAX as nat);
    lemma_dec_digits(seid as nat);
    let digits = dec_digits(seid as nat);
    let key = spec_session_key(seid);
    reveal_strlit("upf:session:");
    let p = KEY_PREFIX@;
    assert(p.len() == 12);
    assert(key.subrange(0, 12) =~= p);
    assert(key.subrange(12, key.len() as int) =~= digits);
    assert(strip_all(digits, p) == digits) by {
        if p.len() <= digits.len() {
            assert(digits.subrange(0, 12)[0] == digits[0]);
            assert(p[0] == 'u');
            assert(digit_value(digits[0], 10) is Some);
            assert(('u' as u32) == 0x75);
        }
    }
}

} // verus!
