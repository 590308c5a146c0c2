//! Base64 encoding of clipboard text (the OSC 52 terminal clipboard carries base64).
use vstd::prelude::*;
use vstd::string::StringSliceAdditionalSpecFns;
use crate::text::string_of;

verus! {

/// The base64 digit of a 6-bit value (standard alphabet `A-Z a-z 0-9 + /`).
pub open spec fn b64_digit(v: int) -> char {
    if v < 26 {
        (65 + v) as char
    } else if v < 52 {
        (97 + (v - 26)) as char
    } else if v < 62 {
        (48 + (v - 52)) as char
    } else if v == 62 {
        '+'
    } else {
        '/'
    }
}

/// Encoding of one group of one to three bytes: four characters, `=` padding the
/// positions that have no byte.
pub open spec fn b64_group(g: Seq<u8>) -> Seq<char> {
    let b0 = g[0] as int;
    let b1 = if g.len() > 1 {
        g[1] as int
    } else {
        0
    };
    let b2 = if g.len() > 2 {
        g[2] as int
    } else {
        0
    };
    seq![
        b64_digit(b0 / 4),
        b64_digit((b0 % 4) * 16 + b1 / 16),
        if g.len() > 1 {
            b64_digit((b1 % 16) * 4 + b2 / 64)
        } else {
            '='
        },
        if g.len() > 2 {
            b64_digit(b2 % 64)
        } else {
            '='
        },
    ]
}

/// Standard base64 encoding (with padding) of a byte sequence, three bytes at a time.
pub open spec fn base64(bs: Seq<u8>) -> Seq<char>
    decreases bs.len(),
{
    if bs.len() == 0 {
        Seq::empty()
    } else if bs.len() <= 3 {
        b64_group(bs)
    } else {
        b64_group(bs.take(3)) + base64(bs.skip(3))
    }
}

fn b64_digit_exec(v: u8) -> (r: char)
    requires
        v < 64,
    ensures
        r == b64_digit(v as int),
{
    if v < 26 {
        (65 + v) as char
    } else if v < 52 {
        (97 + (v - 26)) as char
    } else if v < 62 {
        (48 + (v - 52)) as char
    } else if v == 62 {
        '+'
    } else {
        '/'
    }
}

/// Base64 encoding of the UTF-8 bytes of `data`.
pub fn base64_encode(data: &str) -> (r: String)
    ensures
        r@ == base64(data.spec_bytes()),
{
    let bytes = data.as_bytes();
    let n = bytes.len();
    let ghost bs = bytes@;
    let mut out: Vec<char> = Vec::new();
    let mut i: usize = 0;
    assert(bs.skip(0) =~= bs);
    while i < n
        invariant
            i <= n,
            n == bs.len(),
            bytes@ == bs,
            base64(bs) == out@ + base64(bs.skip(i as int)),
        decreases n - i,
    {
        let ghost rest = bs.skip(i as int);
        let b0 = bytes[i];
        let b1: u8 = if i + 1 < n {
            bytes[i + 1]
        } else {
            0
        };
        let b2: u8 = if n - i > 2 {
            bytes[i + 2]
        } else {
            0
        };
        let ghost g = if rest.len() <= 3 {
            rest
        } else {
            rest.take(3)
        };
        assert(g[0] == b0);
        assert(g.len() > 1 ==> g[1] == b1);
        assert(g.len() > 2 ==> g[2] == b2);
        out.push(b64_digit_exec(b0 / 4));
        out.push(b64_digit_exec((b0 % 4) * 16 + b1 / 16));
        if i + 1 < n {
            out.push(b64_digit_exec((b1 % 16) * 4 + b2 / 64));
        } else {
            out.push('=');
        }
        if n - i > 2 {
            out.push(b64_digit_exec(b2 % 64));
        } else {
            out.push('=');
        }
        proof {
            if rest.len() > 3 {
                assert(rest.skip(3) =~= bs.skip(i + 3));
            }
        }
        if n - i <= 3 {
            assert(bs.skip(n as int) =~= Seq::<u8>::empty());
            i = n;
        } else {
            i = i + 3;
        }
        assert(base64(bs) == out@ + base64(bs.skip(i as int)));
    }
    assert(bs.skip(n as int) =~= Seq::<u8>::empty());
    assert(out@ + Seq::<char>::empty() =~= out@);
    string_of(&out)
}

} // verus!

verus! {

/// Base64 text is four characters per group of three bytes, the last group padded.
pub proof fn law_base64_length(bs: Seq<u8>)
    ensures
        base64(bs).len() == 4 * ((bs.len() + 2) / 3),
    decreases bs.len(),
{
    if bs.len() > 3 {
        law_base64_length(bs.skip(3));
    }
}

} // verus!
