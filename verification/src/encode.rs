//! Byte-level building blocks for the JSON messages the pipeline emits:
//! decimal rendering of integers and JSON string escaping.

use vstd::prelude::*;
use vstd::string::StringSliceAdditionalSpecFns;

verus! {

/// Decimal digits of `n`, most significant first, as ASCII bytes.
pub open spec fn dec_u64(n: nat) -> Seq<u8>
    decreases n,
{
    if n < 10 {
        seq![(48 + n) as u8]
    } else {
        dec_u64(n / 10) + seq![(48 + n % 10) as u8]
    }
}

/// Decimal rendering of a signed value: an ASCII minus sign where
/// negative, then the digits of the magnitude.
pub open spec fn dec_i64(n: int) -> Seq<u8> {
    if n < 0 {
        seq![45u8] + dec_u64((-n) as nat)
    } else {
        dec_u64(n as nat)
    }
}

/// Lower-case hexadecimal digit for a value below 16.
pub open spec fn spec_hex_digit(n: u8) -> u8 {
    if n < 10 {
        (48 + n) as u8
    } else {
        (87 + n) as u8
    }
}

/// How one byte of a string appears inside a JSON string literal:
/// quote and backslash get a backslash escape, the control bytes their
/// short escapes or the `\u00XX` form, and every other byte stands as
/// it is.
pub open spec fn escape_byte(b: u8) -> Seq<u8> {
    if b == 34 {
        seq![92u8, 34u8]
    } else if b == 92 {
        seq![92u8, 92u8]
    } else if b == 8 {
        seq![92u8, 98u8]
    } else if b == 9 {
        seq![92u8, 116u8]
    } else if b == 10 {
        seq![92u8, 110u8]
    } else if b == 12 {
        seq![92u8, 102u8]
    } else if b == 13 {
        seq![92u8, 114u8]
    } else if b < 32 {
        seq![92u8, 117u8, 48u8, 48u8, spec_hex_digit(b / 16), spec_hex_digit(b % 16)]
    } else {
        seq![b]
    }
}

/// The JSON string-literal form of a whole byte string.
pub open spec fn json_escape(s: Seq<u8>) -> Seq<u8>
    decreases s.len(),
{
    if s.len() == 0 {
        Seq::empty()
    } else {
        json_escape(s.drop_last()) + escape_byte(s.last())
    }
}

/// The body carried by every produced job: a JSON object whose single
/// `content` field holds the configured message.
pub open spec fn content_body_spec(message: Seq<u8>) -> Seq<u8> {
    "{\"content\":\"".spec_bytes() + json_escape(message) + "\"}".spec_bytes()
}

fn hex_digit(n: u8) -> (r: u8)
    requires
        n < 16,
    ensures
        r == spec_hex_digit(n),
{
    if n < 10 {
        48 + n
    } else {
        87 + n
    }
}

/// Appends the decimal digits of `n`.
pub fn push_dec_u64(out: &mut Vec<u8>, n: u64)
    ensures
        final(out)@ == old(out)@ + dec_u64(n as nat),
    decreases n,
{
    if n >= 10 {
        push_dec_u64(out, n / 10);
    }
    let d: u8 = 48 + (n % 10) as u8;
    out.push(d);
    proof {
        assert(out@ =~= old(out)@ + dec_u64(n as nat));
    }
}

/// Appends the decimal rendering of `n`, sign included.
pub fn push_dec_i64(out: &mut Vec<u8>, n: i64)
    ensures
        final(out)@ == old(out)@ + dec_i64(n as int),
{
    if n < 0 {
        out.push(45);
        let m: u64 = (-(n as i128)) as u64;
        assert(m == -(n as int));
        push_dec_u64(out, m);
        proof {
            assert(out@ =~= old(out)@ + dec_i64(n as int));
        }
    } else {
        push_dec_u64(out, n as u64);
    }
}

/// Appends the UTF-8 bytes of `s`.
pub fn push_str_bytes(out: &mut Vec<u8>, s: &str)
    ensures
        final(out)@ == old(out)@ + s.spec_bytes(),
{
    let b = s.as_bytes();
    let mut i: usize = 0;
    while i < b.len()
        invariant
            i <= b@.len(),
            b@ == s.spec_bytes(),
            out@ == old(out)@ + b@.subrange(0, i as int),
        decreases b@.len() - i,
    {
        out.push(b[i]);
        i = i + 1;
        proof {
            assert(b@.subrange(0, i as int) =~= b@.subrange(0, i - 1) + seq![b@[i - 1]]);
        }
    }
    proof {
        assert(b@.subrange(0, b@.len() as int) =~= b@);
    }
}

/// Appends the JSON string-literal form of `s`.
pub fn push_escaped(out: &mut Vec<u8>, s: &Vec<u8>)
    ensures
        final(out)@ == old(out)@ + json_escape(s@),
{
    let mut i: usize = 0;
    while i < s.len()
        invariant
            i <= s@.len(),
            out@ == old(out)@ + json_escape(s@.subrange(0, i as int)),
        decreases s@.len() - i,
    {
        let b = s[i];
        if b == 34 {
            out.push(92);
            out.push(34);
        } else if b == 92 {
            out.push(92);
            out.push(92);
        } else if b == 8 {
            out.push(92);
            out.push(98);
        } else if b == 9 {
            out.push(92);
            out.push(116);
        } else if b == 10 {
            out.push(92);
            out.push(110);
        } else if b == 12 {
            out.push(92);
            out.push(102);
        } else if b == 13 {
            out.push(92);
            out.push(114);
        } else if b < 32 {
            out.push(92);
            out.push(117);
            out.push(48);
            out.push(48);
            out.push(hex_digit(b / 16));
            out.push(hex_digit(b % 16));
        } else {
            out.push(b);
        }
        i = i + 1;
        proof {
            assert(s@.subrange(0, i as int).drop_last() =~= s@.subrange(0, i - 1));
            assert(s@.subrange(0, i as int).last() == s@[i - 1]);
            assert(out@ =~= old(out)@ + json_escape(s@.subrange(0, i as int)));
        }
    }
    proof {
        assert(s@.subrange(0, s@.len() as int) =~= s@);
    }
}

/// Builds the body shared by every produced job.
pub fn content_body(message: &Vec<u8>) -> (r: Vec<u8>)
    ensures
        r@ == content_body_spec(message@),
{
    let mut out: Vec<u8> = Vec::new();
    push_str_bytes(&mut out, "{\"content\":\"");
    push_escaped(&mut out, message);
    push_str_bytes(&mut out, "\"}");
    proof {
        assert(out@ =~= content_body_spec(message@));
    }
    out
}

} // verus!
