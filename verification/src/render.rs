//! Verified text rendering: decimal numbers and hex dumps.
//!
//! The spec functions state the exact character sequence; the executable
//! functions build it with string appends.

use vstd::prelude::*;

verus! {

/// The decimal digit character for `n` in `0..10`.
pub open spec fn digit_char(n: int) -> char {
    if n == 0 {
        '0'
    } else if n == 1 {
        '1'
    } else if n == 2 {
        '2'
    } else if n == 3 {
        '3'
    } else if n == 4 {
        '4'
    } else if n == 5 {
        '5'
    } else if n == 6 {
        '6'
    } else if n == 7 {
        '7'
    } else if n == 8 {
        '8'
    } else {
        '9'
    }
}

/// The decimal digits of `n`, most significant first, with no leading zero
/// except for `n == 0` itself.
pub open spec fn dec_digits(n: int) -> Seq<char>
    decreases n,
{
    if n < 10 {
        seq![digit_char(n)]
    } else {
        dec_digits(n / 10).push(digit_char(n % 10))
    }
}

/// The one-character string for a decimal digit.
fn digit_str(n: u16) -> (r: &'static str)
    requires
        n < 10,
    ensures
        r@ == seq![digit_char(n as int)],
{
    let r: &'static str = match n {
        0 => "0",
        1 => "1",
        2 => "2",
        3 => "3",
        4 => "4",
        5 => "5",
        6 => "6",
        7 => "7",
        8 => "8",
        _ => "9",
    };
    proof {
        reveal_strlit("0");
        reveal_strlit("1");
        reveal_strlit("2");
        reveal_strlit("3");
        reveal_strlit("4");
        reveal_strlit("5");
        reveal_strlit("6");
        reveal_strlit("7");
        reveal_strlit("8");
        reveal_strlit("9");
        assert(r@ =~= seq![digit_char(n as int)]);
    }
    r
}

/// Renders `n` in decimal.
pub fn u16_decimal(n: u16) -> (r: String)
    ensures
        r@ == dec_digits(n as int),
    decreases n,
{
    if n < 10 {
        String::from_str(digit_str(n))
    } else {
        let mut s = u16_decimal(n / 10);
        s.append(digit_str(n % 10));
        proof {
            assert(s@ =~= dec_digits(n as int));
        }
        s
    }
}

/// The uppercase hex digit character for `n` in `0..16`.
pub open spec fn hex_char(n: int) -> char {
    if n < 10 {
        digit_char(n)
    } else if n == 10 {
        'A'
    } else if n == 11 {
        'B'
    } else if n == 12 {
        'C'
    } else if n == 13 {
        'D'
    } else if n == 14 {
        'E'
    } else {
        'F'
    }
}

/// The two uppercase hex digits of a byte.
pub open spec fn byte_hex(b: u8) -> Seq<char> {
    seq![hex_char(b as int / 16), hex_char(b as int % 16)]
}

/// The one-character string for a hex digit.
fn hex_str(n: u8) -> (r: &'static str)
    requires
        n < 16,
    ensures
        r@ == seq![hex_char(n as int)],
{
    let r: &'static str = match n {
        0 => "0",
        1 => "1",
        2 => "2",
        3 => "3",
        4 => "4",
        5 => "5",
        6 => "6",
        7 => "7",
        8 => "8",
        9 => "9",
        10 => "A",
        11 => "B",
        12 => "C",
        13 => "D",
        14 => "E",
        _ => "F",
    };
    proof {
        reveal_strlit("0");
        reveal_strlit("1");
        reveal_strlit("2");
        reveal_strlit("3");
        reveal_strlit("4");
        reveal_strlit("5");
        reveal_strlit("6");
        reveal_strlit("7");
        reveal_strlit("8");
        reveal_strlit("9");
        reveal_strlit("A");
        reveal_strlit("B");
        reveal_strlit("C");
        reveal_strlit("D");
        reveal_strlit("E");
        reveal_strlit("F");
        assert(r@ =~= seq![hex_char(n as int)]);
    }
    r
}

/// Appends the two uppercase hex digits of `b` to `s`.
fn push_byte_hex(s: &mut String, b: u8)
    ensures
        final(s)@ == old(s)@ + byte_hex(b),
{
    s.append(hex_str(b / 16));
    s.append(hex_str(b % 16));
    proof {
        assert(final(s)@ =~= old(s)@ + byte_hex(b));
    }
}

/// One hex dump line: the bytes of a chunk as hex pairs joined by spaces.
pub open spec fn hex_line(chunk: Seq<u8>) -> Seq<char>
    decreases chunk.len(),
{
    if chunk.len() == 0 {
        Seq::empty()
    } else if chunk.len() == 1 {
        byte_hex(chunk[0])
    } else {
        hex_line(chunk.drop_last()) + seq![' '] + byte_hex(chunk.last())
    }
}

/// A hex dump: the bytes in chunks of sixteen, each chunk as one line of
/// space-separated hex pairs ended by a newline.
pub open spec fn spec_hexdump(d: Seq<u8>) -> Seq<char>
    decreases d.len(),
{
    if d.len() == 0 {
        Seq::empty()
    } else if d.len() <= 16 {
        hex_line(d) + seq!['\n']
    } else {
        hex_line(d.take(16)) + seq!['\n'] + spec_hexdump(d.skip(16))
    }
}

/// Renders `data` as a hex dump: sixteen bytes per line, uppercase hex
/// pairs joined by spaces, a newline after every line.
pub fn hexdump(data: &[u8]) -> (r: String)
    ensures
        r@ == spec_hexdump(data@),
{
    let len = data.len();
    let mut s = String::new();
    let mut pos: usize = 0;
    proof {
        assert(s@ =~= Seq::<char>::empty());
        assert(data@.skip(0) =~= data@);
        assert(s@ + spec_hexdump(data@) =~= spec_hexdump(data@));
    }
    while pos < len
        invariant
            len == data@.len(),
            pos <= len,
            s@ + spec_hexdump(data@.skip(pos as int)) == spec_hexdump(data@),
        decreases len - pos,
    {
        let end = if len - pos < 16 {
            len
        } else {
            pos + 16
        };
        let ghost chunk = data@.subrange(pos as int, end as int);
        let ghost s0 = s@;
        let mut j = pos;
        push_byte_hex(&mut s, data[j]);
        j = j + 1;
        proof {
            assert(chunk.take(1) =~= seq![chunk[0]]);
            assert(s@ =~= s0 + hex_line(chunk.take(1)));
        }
        while j < end
            invariant
                len == data@.len(),
                pos < j <= end <= len,
                end - pos <= 16,
                chunk == data@.subrange(pos as int, end as int),
                s@ == s0 + hex_line(chunk.take(j - pos)),
            decreases end - j,
        {
            s.append(" ");
            push_byte_hex(&mut s, data[j]);
            proof {
                reveal_strlit(" ");
                let k = j - pos;
                assert(chunk.take(k + 1).drop_last() =~= chunk.take(k));
                assert(chunk.take(k + 1).last() == data@[j as int]);
                assert(s@ =~= s0 + hex_line(chunk.take(k + 1)));
            }
            j = j + 1;
        }
        s.append("\n");
        proof {
            reveal_strlit("\n");
            assert(chunk.take(end - pos) =~= chunk);
            let rest = data@.skip(pos as int);
            if len - pos <= 16 {
                assert(rest =~= chunk);
                assert(data@.skip(end as int) =~= Seq::<u8>::empty());
                assert(s@ =~= s0 + hex_line(chunk) + seq!['\n']);
            } else {
                assert(rest.take(16) =~= chunk);
                assert(rest.skip(16) =~= data@.skip(end as int));
                assert(s@ =~= s0 + hex_line(chunk) + seq!['\n']);
            }
        }
        pos = end;
    }
    proof {
        assert(data@.skip(len as int) =~= Seq::<u8>::empty());
    }
    s
}

} // verus!
