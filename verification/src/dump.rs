//! Hex dumps of messages for the debug log: sixteen bytes per line, in
//! pairs, with the offset in front.
use vstd::prelude::*;
use crate::fmt::{dec_digits, hex_width, push_dec, push_hex};

verus! {

/// What goes before the `k`-th byte of a line: nothing before the first
/// and before the second of a pair, a space between the pairs of a group
/// of four bytes, and " | " between groups.
pub open spec fn byte_sep(k: int) -> Seq<char> {
    if k == 0 || k % 2 == 1 {
        Seq::empty()
    } else if k % 4 == 2 {
        seq![' ']
    } else {
        seq![' ', '|', ' ']
    }
}

/// The bytes of one line, laid out.
pub open spec fn dump_bytes(b: Seq<u8>) -> Seq<char>
    decreases b.len(),
{
    if b.len() == 0 {
        Seq::empty()
    } else {
        dump_bytes(b.drop_last()) + byte_sep(b.len() - 1) + hex_width(b.last() as nat, 2)
    }
}

/// The line of the bytes `buf[i..end]`: the offset in four or more hex
/// digits, a colon, the bytes, and a trailing space on a full line.
pub open spec fn dump_line(buf: Seq<u8>, i: int, end: int) -> Seq<char> {
    hex_width(i as nat, 4) + seq![':', ' '] + dump_bytes(buf.subrange(i, end)) + (if end - i == 16 {
        seq![' ']
    } else {
        Seq::empty()
    })
}

/// The end of the line that starts at byte `i`, for `n` bytes in all.
pub open spec fn line_end(i: int, n: int) -> int {
    if i + 16 <= n {
        i + 16
    } else {
        n
    }
}

/// The lines for the first `n` bytes, sixteen to a line.
pub open spec fn dump_lines(buf: Seq<u8>, n: int) -> Seq<Seq<char>> {
    Seq::new(((n + 15) / 16) as nat, |k: int| dump_line(buf, 16 * k, line_end(16 * k, n)))
}

pub open spec fn dump_rule() -> Seq<char> {
    Seq::new(35, |i: int| '=')
}

/// The whole dump of the first `length` bytes of `buf` (no more than it
/// has): a title with the byte count, a rule, the lines, and an empty line.
pub open spec fn spec_hex_dump(buf: Seq<u8>, length: nat) -> Seq<Seq<char>> {
    let n: int = if length < buf.len() {
        length as int
    } else {
        buf.len() as int
    };
    seq!["Message DUMP ("@ + dec_digits(n as nat) + " Bytes)"@, dump_rule()] + dump_lines(buf, n) + seq![
        Seq::<char>::empty(),
    ]
}

fn dump_line_of(buf: &[u8], i: usize, end: usize) -> (r: String)
    requires
        i < end <= buf@.len(),
        end - i <= 16,
    ensures
        r@ == dump_line(buf@, i as int, end as int),
{
    let mut line = String::new();
    push_hex(&mut line, i as u64, 4);
    line.append(": ");
    proof {
        reveal_strlit(": ");
    }
    let ghost head = line@;
    let mut k: usize = 0;
    while k < end - i
        invariant
            i < end <= buf@.len(),
            k <= end - i,
            line@ == head + dump_bytes(buf@.subrange(i as int, (i + k) as int)),
        decreases end - i - k,
    {
        if k == 0 || k % 2 == 1 {
        } else if k % 4 == 2 {
            line.append(" ");
            proof {
                reveal_strlit(" ");
            }
        } else {
            line.append(" | ");
            proof {
                reveal_strlit(" | ");
            }
        }
        push_hex(&mut line, buf[i + k] as u64, 2);
        proof {
            let b = buf@.subrange(i as int, (i + k + 1) as int);
            assert(b.drop_last() =~= buf@.subrange(i as int, (i + k) as int));
            assert(b.last() == buf@[i + k]);
        }
        k += 1;
    }
    if end - i == 16 {
        line.append(" ");
        proof {
            reveal_strlit(" ");
        }
    }
    assert(line@ =~= dump_line(buf@, i as int, end as int));
    line
}

/// The lines of a hex dump of the first `length` bytes of `buffer` (no
/// more than it has), for the debug log.
pub fn print_hex(buffer: &[u8], length: usize) -> (r: Vec<String>)
    ensures
        r@.len() == spec_hex_dump(buffer@, length as nat).len(),
        forall|k: int| 0 <= k < r@.len() ==> #[trigger] r@[k]@ == spec_hex_dump(buffer@, length as nat)[k],
{
    let n: usize = if length < buffer.len() {
        length
    } else {
        buffer.len()
    };
    let mut lines: Vec<String> = Vec::new();
    let mut title = String::from_str("Message DUMP (");
    push_dec(&mut title, n as u64);
    title.append(" Bytes)");
    lines.push(title);
    let mut rule = String::new();
    let mut r: usize = 0;
    while r < 35
        invariant
            r <= 35,
            rule@ == Seq::new(r as nat, |j: int| '='),
        decreases 35 - r,
    {
        rule.append("=");
        proof {
            reveal_strlit("=");
            assert(Seq::new((r + 1) as nat, |j: int| '=') =~= Seq::new(r as nat, |j: int| '=').push('='));
        }
        r += 1;
    }
    assert(rule@ =~= dump_rule());
    lines.push(rule);
    let ghost body = dump_lines(buffer@, n as int);
    let count: usize = n / 16 + if n % 16 != 0 {
        1
    } else {
        0
    };
    assert(count == (n + 15) / 16);
    let mut j: usize = 0;
    while j < count
        invariant
            n <= buffer@.len(),
            count == (n + 15) / 16,
            j <= count,
            body == dump_lines(buffer@, n as int),
            lines@.len() == 2 + j,
            lines@[0]@ == "Message DUMP ("@ + dec_digits(n as nat) + " Bytes)"@,
            lines@[1]@ == dump_rule(),
            forall|k: int| 0 <= k < j ==> #[trigger] lines@[2 + k]@ == body[k],
        decreases count - j,
    {
        let i = 16 * j;
        let end = if n - i >= 16 {
            i + 16
        } else {
            n
        };
        let line = dump_line_of(buffer, i, end);
        lines.push(line);
        assert(body[j as int] == dump_line(buffer@, i as int, end as int));
        j += 1;
    }
    lines.push(String::new());
    let ghost expected = spec_hex_dump(buffer@, length as nat);
    assert(expected.len() == lines@.len());
    assert forall|k: int| 0 <= k < lines@.len() implies #[trigger] lines@[k]@ == expected[k] by {
        if 2 <= k < 2 + j {
            assert(lines@[2 + (k - 2)]@ == body[k - 2]);
        }
    }
    lines
}

} // verus!
