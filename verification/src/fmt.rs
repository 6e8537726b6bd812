//! Numbers and addresses as text, the way Rust's formatting writes them.
use vstd::prelude::*;
use crate::net::Ipv4Addr;

verus! {

/// The lower-case hex digit of `d` (below 16).
pub open spec fn hex_char(d: nat) -> char {
    if d < 10 {
        (0x30 + d) as char
    } else {
        (0x61 + d - 10) as char
    }
}

/// `n` in lower-case hex, without leading zeros ("0" for zero).
pub open spec fn hex_digits(n: nat) -> Seq<char>
    decreases n,
{
    if n < 16 {
        seq![hex_char(n)]
    } else {
        hex_digits(n / 16).push(hex_char(n % 16))
    }
}

/// `n` in decimal, without leading zeros.
pub open spec fn dec_digits(n: nat) -> Seq<char>
    decreases n,
{
    if n < 10 {
        seq![(0x30 + n) as char]
    } else {
        dec_digits(n / 10).push((0x30 + n % 10) as char)
    }
}

/// `s` with zeros in front up to `w` characters.
pub open spec fn zero_pad(s: Seq<char>, w: nat) -> Seq<char> {
    if s.len() >= w {
        s
    } else {
        Seq::new((w - s.len()) as nat, |i: int| '0') + s
    }
}

/// `n` in hex, at least `w` digits wide (as `{:0w$x}` writes it).
pub open spec fn hex_width(n: nat, w: nat) -> Seq<char> {
    zero_pad(hex_digits(n), w)
}

/// An IPv4 address in dotted decimal.
pub open spec fn ipv4_text(a: Ipv4Addr) -> Seq<char> {
    let o = a.spec_octets();
    dec_digits(o[0] as nat) + seq!['.'] + dec_digits(o[1] as nat) + seq!['.'] + dec_digits(o[2] as nat)
        + seq!['.'] + dec_digits(o[3] as nat)
}

/// `n` as `{:#x}` writes it: "0x" and the hex digits.
pub open spec fn hex_prefixed(n: nat) -> Seq<char> {
    seq!['0', 'x'] + hex_digits(n)
}

const HEX: &'static str = "0123456789abcdef";

const DEC: &'static str = "0123456789";

fn push_digit(out: &mut String, table: &str, d: usize)
    requires
        d < table@.len(),
        table@.len() <= 16,
    ensures
        final(out)@ == old(out)@.push(table@[d as int]),
{
    let c = table.substring_char(d, d + 1);
    out.append(c);
    assert(c@ =~= seq![table@[d as int]]);
}

pub fn push_hex_digits(out: &mut String, n: u64)
    ensures
        final(out)@ == old(out)@ + hex_digits(n as nat),
    decreases n,
{
    proof {
        reveal_strlit("0123456789abcdef");
    }
    if n >= 16 {
        push_hex_digits(out, n / 16);
    }
    let d = (n % 16) as usize;
    push_digit(out, HEX, d);
    proof {
        let c = hex_char((n % 16) as nat);
        assert(HEX@[d as int] == c) by {
            reveal_strlit("0123456789abcdef");
        }
        if n < 16 {
            assert(hex_digits(n as nat) == seq![c]);
        }
    }
    assert(out@ =~= old(out)@ + hex_digits(n as nat));
}

/// Appends `n` in hex, at least `w` digits wide.
pub fn push_hex(out: &mut String, n: u64, w: usize)
    ensures
        final(out)@ == old(out)@ + hex_width(n as nat, w as nat),
{
    let mut digits = String::new();
    push_hex_digits(&mut digits, n);
    assert(digits@ =~= hex_digits(n as nat));
    let len = digits.as_str().unicode_len();
    let mut k: usize = len;
    let ghost start = out@;
    while k < w
        invariant
            len <= k,
            k == len || k <= w,
            len == hex_digits(n as nat).len(),
            out@ == start + Seq::new((k - len) as nat, |i: int| '0'),
        decreases w - k,
    {
        out.append("0");
        proof {
            reveal_strlit("0");
            assert(Seq::new((k + 1 - len) as nat, |i: int| '0') =~= Seq::new(
                (k - len) as nat,
                |i: int| '0',
            ).push('0'));
        }
        k += 1;
    }
    out.append(digits.as_str());
    assert(out@ =~= start + hex_width(n as nat, w as nat));
}

pub fn push_dec(out: &mut String, n: u64)
    ensures
        final(out)@ == old(out)@ + dec_digits(n as nat),
    decreases n,
{
    if n >= 10 {
        push_dec(out, n / 10);
    }
    let d = (n % 10) as usize;
    proof {
        reveal_strlit("0123456789");
    }
    push_digit(out, DEC, d);
    proof {
        assert(DEC@[d as int] == (0x30 + (n % 10) as nat) as char) by {
            reveal_strlit("0123456789");
        }
    }
    assert(out@ =~= old(out)@ + dec_digits(n as nat));
}

/// Appends `a` in dotted decimal.
pub fn push_ipv4(out: &mut String, a: Ipv4Addr)
    ensures
        final(out)@ == old(out)@ + ipv4_text(a),
{
    let o = a.octets();
    push_dec(out, o[0] as u64);
    out.append(".");
    push_dec(out, o[1] as u64);
    out.append(".");
    push_dec(out, o[2] as u64);
    out.append(".");
    push_dec(out, o[3] as u64);
    proof {
        reveal_strlit(".");
    }
    assert(out@ =~= old(out)@ + ipv4_text(a));
}

/// Appends `n` as `{:#x}` writes it.
pub fn push_hex_prefixed(out: &mut String, n: u64)
    ensures
        final(out)@ == old(out)@ + hex_prefixed(n as nat),
{
    out.append("0x");
    proof {
        reveal_strlit("0x");
    }
    push_hex_digits(out, n);
    assert(out@ =~= old(out)@ + hex_prefixed(n as nat));
}

} // verus!
