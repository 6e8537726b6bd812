//! Reading operator input: splitting a line into words at Unicode white
//! space, comparing words, and reading unsigned numbers the way Rust's
//! `from_str_radix` reads them.
use vstd::prelude::*;
use crate::net::Ipv4Addr;

verus! {

/// Unicode White_Space, the characters that separate words.
pub open spec fn is_white_space(c: char) -> bool {
    let u = c as u32;
    ||| 0x09 <= u <= 0x0D
    ||| u == 0x20
    ||| u == 0x85
    ||| u == 0xA0
    ||| u == 0x1680
    ||| 0x2000 <= u <= 0x200A
    ||| u == 0x2028
    ||| u == 0x2029
    ||| u == 0x202F
    ||| u == 0x205F
    ||| u == 0x3000
}

pub fn is_white(c: char) -> (r: bool)
    ensures
        r == is_white_space(c),
{
    let u = c as u32;
    (0x09 <= u && u <= 0x0D) || u == 0x20 || u == 0x85 || u == 0xA0 || u == 0x1680 || (0x2000 <= u
        && u <= 0x200A) || u == 0x2028 || u == 0x2029 || u == 0x202F || u == 0x205F || u == 0x3000
}

/// The words finished so far and the word in progress, after reading `s`.
pub open spec fn words_fold(s: Seq<char>) -> (Seq<Seq<char>>, Seq<char>)
    decreases s.len(),
{
    if s.len() == 0 {
        (Seq::empty(), Seq::empty())
    } else {
        let (done, cur) = words_fold(s.drop_last());
        if is_white_space(s.last()) {
            if cur.len() > 0 {
                (done.push(cur), Seq::empty())
            } else {
                (done, Seq::empty())
            }
        } else {
            (done, cur.push(s.last()))
        }
    }
}

/// The words of `s`: its maximal runs of characters that are not white
/// space, in order.
pub open spec fn spec_words(s: Seq<char>) -> Seq<Seq<char>> {
    let (done, cur) = words_fold(s);
    if cur.len() > 0 {
        done.push(cur)
    } else {
        done
    }
}

/// `s` without white space at either end.
pub open spec fn spec_trim(s: Seq<char>) -> Seq<char>
    decreases s.len(),
{
    if s.len() > 0 && is_white_space(s[0]) {
        spec_trim(s.drop_first())
    } else if s.len() > 0 && is_white_space(s.last()) {
        spec_trim(s.drop_last())
    } else {
        s
    }
}

/// The words of `s`.
pub fn split_words(s: &str) -> (r: Vec<&str>)
    ensures
        r@.len() == spec_words(s@).len(),
        forall|k: int| 0 <= k < r@.len() ==> #[trigger] r@[k]@ == spec_words(s@)[k],
{
    let n = s.unicode_len();
    let mut out: Vec<&str> = Vec::new();
    let mut start: usize = 0;
    let mut in_word = false;
    let mut i: usize = 0;
    while i < n
        invariant
            0 <= start <= i <= n,
            n == s@.len(),
            ({
                let (done, cur) = words_fold(s@.take(i as int));
                &&& out@.len() == done.len()
                &&& forall|k: int| 0 <= k < out@.len() ==> #[trigger] out@[k]@ == done[k]
                &&& cur == (if in_word {
                    s@.subrange(start as int, i as int)
                } else {
                    Seq::<char>::empty()
                })
                &&& in_word ==> start < i
            }),
        decreases n - i,
    {
        let c = s.get_char(i);
        proof {
            assert(s@.take(i + 1).drop_last() =~= s@.take(i as int));
            assert(s@.take(i + 1).last() == c);
        }
        if is_white(c) {
            if in_word {
                let w = s.substring_char(start, i);
                out.push(w);
                in_word = false;
            }
        } else {
            if !in_word {
                start = i;
                in_word = true;
            }
            proof {
                assert(s@.subrange(start as int, i + 1) =~= s@.subrange(start as int, i as int).push(c));
            }
        }
        i += 1;
    }
    assert(s@.take(n as int) =~= s@);
    if in_word {
        let w = s.substring_char(start, n);
        out.push(w);
    }
    out
}

/// `s` without white space at either end.
pub fn trim<'a>(s: &'a str) -> (r: &'a str)
    ensures
        r@ == spec_trim(s@),
{
    let n = s.unicode_len();
    let mut a: usize = 0;
    let mut found = false;
    assert(s@.subrange(0, n as int) =~= s@);
    while !found && a < n
        invariant
            0 <= a <= n,
            n == s@.len(),
            spec_trim(s@) == spec_trim(s@.subrange(a as int, n as int)),
            found ==> a < n && !is_white_space(s@[a as int]),
        decreases n - a + (if found {
            0int
        } else {
            1int
        }),
    {
        if is_white(s.get_char(a)) {
            proof {
                assert(s@.subrange(a as int, n as int).drop_first() =~= s@.subrange(a + 1, n as int));
            }
            a += 1;
        } else {
            found = true;
        }
    }
    let mut b: usize = n;
    let mut done = false;
    while !done && b > a
        invariant
            0 <= a <= b <= n,
            n == s@.len(),
            spec_trim(s@) == spec_trim(s@.subrange(a as int, b as int)),
            a < b ==> !is_white_space(s@[a as int]),
            done ==> a < b && !is_white_space(s@[b - 1]),
        decreases b - a + (if done {
            0int
        } else {
            1int
        }),
    {
        if is_white(s.get_char(b - 1)) {
            proof {
                let t = s@.subrange(a as int, b as int);
                assert(t.drop_last() =~= s@.subrange(a as int, b - 1));
                assert(t[0] == s@[a as int]);
            }
            b -= 1;
        } else {
            done = true;
        }
    }
    proof {
        let t = s@.subrange(a as int, b as int);
        if t.len() > 0 {
            assert(t[0] == s@[a as int]);
            assert(t.last() == s@[b - 1]);
        }
    }
    s.substring_char(a, b)
}

/// Whether `a` and `b` hold the same characters.
pub fn same_text(a: &str, b: &str) -> (r: bool)
    ensures
        r == (a@ == b@),
{
    let n = a.unicode_len();
    if n != b.unicode_len() {
        return false;
    }
    let mut i: usize = 0;
    while i < n
        invariant
            0 <= i <= n,
            n == a@.len(),
            n == b@.len(),
            a@.take(i as int) == b@.take(i as int),
        decreases n - i,
    {
        if a.get_char(i) != b.get_char(i) {
            assert(a@[i as int] != b@[i as int]);
            return false;
        }
        assert(a@.take(i + 1) =~= a@.take(i as int).push(a@[i as int]));
        assert(b@.take(i + 1) =~= b@.take(i as int).push(b@[i as int]));
        i += 1;
    }
    assert(a@.take(n as int) =~= a@);
    assert(b@.take(n as int) =~= b@);
    true
}

// ── Unsigned numbers ────────────────────────────────────────────────────

/// The value of a digit in `radix` (letters of either case stand for 10
/// and up), if it is one.
pub open spec fn digit_value(c: char, radix: nat) -> Option<nat> {
    let u = c as u32;
    let d: int = if 0x30 <= u <= 0x39 {
        u - 0x30
    } else if 0x61 <= u <= 0x7A {
        u - 0x61 + 10
    } else if 0x41 <= u <= 0x5A {
        u - 0x41 + 10
    } else {
        radix as int
    };
    if d < radix {
        Some(d as nat)
    } else {
        None
    }
}

/// The value of a string of digits (0 for none), if all are digits.
pub open spec fn digits_value(s: Seq<char>, radix: nat) -> Option<nat>
    decreases s.len(),
{
    if s.len() == 0 {
        Some(0)
    } else {
        match (digits_value(s.drop_last(), radix), digit_value(s.last(), radix)) {
            (Some(v), Some(d)) => Some(v * radix + d),
            _ => None,
        }
    }
}

/// An unsigned number as `from_str_radix` reads it: an optional `+`, then
/// one or more digits, worth at most `max`.
pub open spec fn spec_parse_unsigned(s: Seq<char>, radix: nat, max: nat) -> Option<nat> {
    let body = if s.len() > 0 && s[0] == '+' {
        s.drop_first()
    } else {
        s
    };
    if body.len() == 0 {
        None
    } else {
        match digits_value(body, radix) {
            Some(v) => if v <= max {
                Some(v)
            } else {
                None
            },
            None => None,
        }
    }
}

fn digit_of(c: char, radix: u32) -> (r: Option<u32>)
    requires
        2 <= radix <= 36,
    ensures
        match digit_value(c, radix as nat) {
            Some(d) => r == Some(d as u32),
            None => r is None,
        },
{
    let u = c as u32;
    let d: u32 = if 0x30 <= u && u <= 0x39 {
        u - 0x30
    } else if 0x61 <= u && u <= 0x7A {
        u - 0x61 + 10
    } else if 0x41 <= u && u <= 0x5A {
        u - 0x41 + 10
    } else {
        radix
    };
    if d < radix {
        Some(d)
    } else {
        None
    }
}

proof fn lemma_digits_prefix(s: Seq<char>, radix: nat, k: int)
    requires
        radix >= 1,
        0 <= k <= s.len(),
        digits_value(s, radix) is Some,
    ensures
        digits_value(s.take(k), radix) is Some,
        digits_value(s.take(k), radix).unwrap() <= digits_value(s, radix).unwrap(),
    decreases s.len(),
{
    if k < s.len() {
        let init = s.drop_last();
        assert(s.take(k) =~= init.take(k));
        lemma_digits_prefix(init, radix, k);
        let w = digits_value(init, radix).unwrap();
        let d = digit_value(s.last(), radix).unwrap();
        assert(w * radix + d >= w) by (nonlinear_arith)
            requires
                radix >= 1,
                d >= 0,
                w >= 0,
        ;
    } else {
        assert(s.take(k) =~= s);
    }
}

/// Reads an unsigned number of at most `max` in `radix`, as
/// `from_str_radix` does.
pub fn parse_unsigned(s: &str, radix: u32, max: u64) -> (r: Option<u64>)
    requires
        2 <= radix <= 36,
    ensures
        match spec_parse_unsigned(s@, radix as nat, max as nat) {
            Some(v) => r == Some(v as u64),
            None => r is None,
        },
{
    let n = s.unicode_len();
    let mut i: usize = 0;
    if n > 0 && s.get_char(0) == '+' {
        i = 1;
    }
    let ghost body = if s@.len() > 0 && s@[0] == '+' {
        s@.drop_first()
    } else {
        s@
    };
    let ghost start = i as int;
    assert(body =~= s@.subrange(start, n as int));
    if i >= n {
        return None;
    }
    let mut acc: u64 = 0;
    while i < n
        invariant
            0 <= start <= i <= n,
            n == s@.len(),
            2 <= radix <= 36,
            body == s@.subrange(start, n as int),
            body == (if s@.len() > 0 && s@[0] == '+' {
                s@.drop_first()
            } else {
                s@
            }),
            digits_value(body.take(i - start), radix as nat) == Some(acc as nat),
            acc <= max,
        decreases n - i,
    {
        let c = s.get_char(i);
        proof {
            assert(body.take(i + 1 - start).drop_last() =~= body.take(i - start));
            assert(body.take(i + 1 - start).last() == c);
        }
        let d = match digit_of(c, radix) {
            Some(d) => d,
            None => {
                proof {
                    assert(digits_value(body.take(i + 1 - start), radix as nat) is None);
                    if digits_value(body, radix as nat) is Some {
                        lemma_digits_prefix(body, radix as nat, i + 1 - start);
                    }
                }
                return None;
            },
        };
        let next = match acc.checked_mul(radix as u64) {
            Some(m) => m.checked_add(d as u64),
            None => None,
        };
        match next {
            Some(v) if v <= max => {
                acc = v;
            },
            _ => {
                proof {
                    assert(acc * radix + d > max) by (nonlinear_arith)
                        requires
                            next is None ==> acc * radix + d > u64::MAX,
                            next matches Some(v) ==> v == acc * radix + d && v > max,
                            max <= u64::MAX,
                    ;
                    assert(digits_value(body.take(i + 1 - start), radix as nat) == Some(
                        (acc * radix + d) as nat,
                    ));
                    if digits_value(body, radix as nat) is Some {
                        lemma_digits_prefix(body, radix as nat, i + 1 - start);
                    }
                }
                return None;
            },
        }
        i += 1;
    }
    assert(body.take(n - start) =~= body);
    Some(acc)
}

// ── Fields separated by one character ───────────────────────────────────

pub open spec fn split_fold(s: Seq<char>, sep: char) -> (Seq<Seq<char>>, Seq<char>)
    decreases s.len(),
{
    if s.len() == 0 {
        (Seq::empty(), Seq::empty())
    } else {
        let (done, cur) = split_fold(s.drop_last(), sep);
        if s.last() == sep {
            (done.push(cur), Seq::empty())
        } else {
            (done, cur.push(s.last()))
        }
    }
}

/// The fields of `s` between occurrences of `sep`, empty ones included
/// (as `str::split` gives them).
pub open spec fn spec_split(s: Seq<char>, sep: char) -> Seq<Seq<char>> {
    let (done, cur) = split_fold(s, sep);
    done.push(cur)
}

pub fn split_on(s: &str, sep: char) -> (r: Vec<&str>)
    ensures
        r@.len() == spec_split(s@, sep).len(),
        forall|k: int| 0 <= k < r@.len() ==> #[trigger] r@[k]@ == spec_split(s@, sep)[k],
{
    let n = s.unicode_len();
    let mut out: Vec<&str> = Vec::new();
    let mut start: usize = 0;
    let mut i: usize = 0;
    while i < n
        invariant
            0 <= start <= i <= n,
            n == s@.len(),
            ({
                let (done, cur) = split_fold(s@.take(i as int), sep);
                &&& out@.len() == done.len()
                &&& forall|k: int| 0 <= k < out@.len() ==> #[trigger] out@[k]@ == done[k]
                &&& cur == s@.subrange(start as int, i as int)
            }),
        decreases n - i,
    {
        let c = s.get_char(i);
        proof {
            assert(s@.take(i + 1).drop_last() =~= s@.take(i as int));
            assert(s@.take(i + 1).last() == c);
        }
        if c == sep {
            out.push(s.substring_char(start, i));
            start = i + 1;
        } else {
            proof {
                assert(s@.subrange(start as int, i + 1) =~= s@.subrange(start as int, i as int).push(c));
            }
        }
        i += 1;
    }
    assert(s@.take(n as int) =~= s@);
    out.push(s.substring_char(start, n));
    out
}

// ── IPv4 addresses ──────────────────────────────────────────────────────

/// One octet of a dotted-decimal address as Rust reads it: one to three
/// decimal digits, no leading zero, at most 255.
pub open spec fn octet_value(p: Seq<char>) -> Option<u8> {
    if 1 <= p.len() <= 3 && !(p.len() > 1 && p[0] == '0') {
        match digits_value(p, 10) {
            Some(v) => if v <= 255 {
                Some(v as u8)
            } else {
                None
            },
            None => None,
        }
    } else {
        None
    }
}

/// An IPv4 address in dotted decimal, as `Ipv4Addr::from_str` reads it:
/// exactly four octets.
pub open spec fn spec_parse_ipv4(s: Seq<char>) -> Option<Ipv4Addr> {
    let parts = spec_split(s, '.');
    if parts.len() == 4 && octet_value(parts[0]) is Some && octet_value(parts[1]) is Some
        && octet_value(parts[2]) is Some && octet_value(parts[3]) is Some {
        Some(
            Ipv4Addr::spec_new(
                octet_value(parts[0]).unwrap(),
                octet_value(parts[1]).unwrap(),
                octet_value(parts[2]).unwrap(),
                octet_value(parts[3]).unwrap(),
            ),
        )
    } else {
        None
    }
}

fn parse_octet(p: &str) -> (r: Option<u8>)
    ensures
        r == octet_value(p@),
{
    let n = p.unicode_len();
    if n < 1 || n > 3 {
        return None;
    }
    if n > 1 && p.get_char(0) == '0' {
        return None;
    }
    if p.get_char(0) == '+' {
        proof {
            assert(digit_value(p@[0], 10) is None);
            lemma_digits_first_invalid(p@, 10);
        }
        return None;
    }
    proof {
        assert(spec_parse_unsigned(p@, 10, 255) == (match digits_value(p@, 10) {
            Some(v) => if v <= 255 {
                Some(v)
            } else {
                None
            },
            None => None,
        }));
    }
    match parse_unsigned(p, 10, 255) {
        Some(v) => Some(v as u8),
        None => None,
    }
}

proof fn lemma_digits_first_invalid(s: Seq<char>, radix: nat)
    requires
        s.len() > 0,
        digit_value(s[0], radix) is None,
    ensures
        digits_value(s, radix) is None,
    decreases s.len(),
{
    if s.len() > 1 {
        assert(s.drop_last()[0] == s[0]);
        lemma_digits_first_invalid(s.drop_last(), radix);
    }
}

/// Reads an IPv4 address in dotted decimal.
pub fn parse_ipv4(s: &str) -> (r: Option<Ipv4Addr>)
    ensures
        r == spec_parse_ipv4(s@),
{
    let parts = split_on(s, '.');
    if parts.len() != 4 {
        return None;
    }
    let a = match parse_octet(parts[0]) {
        Some(v) => v,
        None => {
            return None;
        },
    };
    let b = match parse_octet(parts[1]) {
        Some(v) => v,
        None => {
            return None;
        },
    };
    let c = match parse_octet(parts[2]) {
        Some(v) => v,
        None => {
            return None;
        },
    };
    let d = match parse_octet(parts[3]) {
        Some(v) => v,
        None => {
            return None;
        },
    };
    Some(Ipv4Addr::new(a, b, c, d))
}

// ── Prefixes and substrings ─────────────────────────────────────────────

/// `s` without every leading copy of `p` (as `trim_start_matches` with a
/// non-empty pattern gives it).
pub open spec fn strip_all(s: Seq<char>, p: Seq<char>) -> Seq<char>
    decreases s.len(),
{
    if p.len() > 0 && p.len() <= s.len() && s.subrange(0, p.len() as int) == p {
        strip_all(s.subrange(p.len() as int, s.len() as int), p)
    } else {
        s
    }
}

/// Whether `p` occurs in `s` at `i`.
pub open spec fn occurs_at(s: Seq<char>, p: Seq<char>, i: int) -> bool {
    0 <= i && i + p.len() <= s.len() && s.subrange(i, i + p.len()) == p
}

/// The first index at or after `i` where `p` occurs in `s`.
pub open spec fn find_from(s: Seq<char>, p: Seq<char>, i: int) -> Option<int>
    decreases s.len() + 1 - i,
{
    if i < 0 || i + p.len() > s.len() {
        None
    } else if occurs_at(s, p, i) {
        Some(i)
    } else {
        find_from(s, p, i + 1)
    }
}

fn occurs(s: &str, p: &str, i: usize) -> (r: bool)
    requires
        i + p@.len() <= s@.len(),
        s@.len() <= usize::MAX,
    ensures
        r == occurs_at(s@, p@, i as int),
{
    let n = p.unicode_len();
    let mut k: usize = 0;
    while k < n
        invariant
            0 <= k <= n,
            n == p@.len(),
            i + n <= s@.len(),
            s@.len() <= usize::MAX,
            s@.subrange(i as int, (i + k) as int) == p@.take(k as int),
        decreases n - k,
    {
        if s.get_char(i + k) != p.get_char(k) {
            assert(s@.subrange(i as int, i + n)[k as int] != p@[k as int]);
            return false;
        }
        assert(s@.subrange(i as int, (i + k + 1) as int) =~= s@.subrange(i as int, (i + k) as int).push(
            s@[i + k],
        ));
        assert(p@.take(k + 1) =~= p@.take(k as int).push(p@[k as int]));
        k += 1;
    }
    assert(p@.take(n as int) =~= p@);
    true
}

/// The first index where `p` occurs in `s`.
pub fn find_text(s: &str, p: &str) -> (r: Option<usize>)
    ensures
        match find_from(s@, p@, 0) {
            Some(i) => r == Some(i as usize),
            None => r is None,
        },
{
    let n = s.unicode_len();
    let m = p.unicode_len();
    if m > n {
        return None;
    }
    if m == 0 {
        assert(occurs_at(s@, p@, 0)) by {
            assert(s@.subrange(0, 0) =~= p@);
        }
        return Some(0);
    }
    let mut i: usize = 0;
    while i <= n - m
        invariant
            0 <= i <= n - m + 1,
            1 <= m <= n,
            n == s@.len(),
            m == p@.len(),
            find_from(s@, p@, 0) == find_from(s@, p@, i as int),
        decreases n - i,
    {
        if occurs(s, p, i) {
            return Some(i);
        }
        i += 1;
    }
    None
}

/// `s` without every leading copy of `p`.
pub fn strip_prefixes<'a>(s: &'a str, p: &str) -> (r: &'a str)
    ensures
        r@ == strip_all(s@, p@),
{
    let n = s.unicode_len();
    let m = p.unicode_len();
    let mut i: usize = 0;
    if m == 0 {
        assert(s@.subrange(0, n as int) =~= s@);
        return s.substring_char(0, n);
    }
    assert(s@.subrange(0, n as int) =~= s@);
    while i <= n && n - i >= m && occurs(s, p, i)
        invariant
            0 <= i <= n,
            m > 0,
            n == s@.len(),
            m == p@.len(),
            strip_all(s@, p@) == strip_all(s@.subrange(i as int, n as int), p@),
        decreases n - i,
    {
        proof {
            let t = s@.subrange(i as int, n as int);
            assert(t.subrange(0, m as int) =~= s@.subrange(i as int, (i + m) as int));
            assert(t.subrange(m as int, t.len() as int) =~= s@.subrange((i + m) as int, n as int));
        }
        i += m;
    }
    proof {
        let t = s@.subrange(i as int, n as int);
        if m <= t.len() {
            assert(t.subrange(0, m as int) =~= s@.subrange(i as int, (i + m) as int));
        }
    }
    s.substring_char(i, n)
}

} // verus!
