//! Byte-level text helpers for the wire protocol: ASCII case folding,
//! byte-sequence comparison, and decimal rendering of numbers.

use vstd::prelude::*;
use vstd::string::StringSliceAdditionalSpecFns;

verus! {

/// ASCII code of `a`.
pub const LOWER_A: u8 = 97;

/// ASCII code of `z`.
pub const LOWER_Z: u8 = 122;

/// Distance between an ASCII lowercase letter and its uppercase form.
pub const CASE_GAP: u8 = 32;

/// ASCII code of `0`.
pub const DIGIT_ZERO: u8 = 48;

/// ASCII code of the space character.
pub const SP: u8 = 32;

/// ASCII code of `/`.
pub const SLASH: u8 = 47;

/// ASCII code of carriage return.
pub const CR: u8 = 13;

/// ASCII code of line feed.
pub const LF: u8 = 10;

/// ASCII code of `-`.
pub const DASH: u8 = 45;

/// ASCII code of `d`.
pub const LOWER_D: u8 = 100;

/// ASCII code of `:`.
pub const COLON: u8 = 58;

/// ASCII code of `"`.
pub const QUOTE: u8 = 34;

/// ASCII code of `,`.
pub const COMMA: u8 = 44;

/// ASCII code of `!`.
pub const BANG: u8 = 33;

/// The ASCII uppercase image of one byte.
pub open spec fn upper_byte(b: u8) -> u8 {
    if LOWER_A <= b <= LOWER_Z {
        (b - CASE_GAP) as u8
    } else {
        b
    }
}

/// The ASCII uppercase image of a byte sequence.
pub open spec fn upper_seq(s: Seq<u8>) -> Seq<u8> {
    s.map(|_i: int, b: u8| upper_byte(b))
}

/// Uppercases the ASCII lowercase letters of `data` in place; every other
/// byte is left unchanged.
pub fn to_uppercase(data: &mut Vec<u8>)
    ensures
        final(data)@ == upper_seq(old(data)@),
{
    let mut i: usize = 0;
    while i < data.len()
        invariant
            i <= data.len(),
            data@.len() == old(data)@.len(),
            forall|j: int| 0 <= j < i ==> data@[j] == upper_byte(old(data)@[j]),
            forall|j: int| i <= j < data@.len() ==> data@[j] == old(data)@[j],
        decreases data.len() - i,
    {
        let b = data[i];
        if b >= LOWER_A && b <= LOWER_Z {
            data.set(i, b - CASE_GAP);
        }
        i = i + 1;
    }
    assert(data@ =~= upper_seq(old(data)@));
}

/// Compares two byte slices for equality.
pub fn bytes_eq(a: &[u8], b: &[u8]) -> (r: bool)
    ensures
        r <==> a@ == b@,
{
    if a.len() != b.len() {
        proof {
            assert(a@.len() != b@.len());
        }
        return false;
    }
    let mut i: usize = 0;
    while i < a.len()
        invariant
            i <= a@.len(),
            a@.len() == b@.len(),
            forall|j: int| 0 <= j < i ==> a@[j] == b@[j],
        decreases a@.len() - i,
    {
        if a[i] != b[i] {
            return false;
        }
        i = i + 1;
    }
    proof {
        assert(a@ =~= b@);
    }
    true
}

/// Appends the bytes of `s` to `out`.
pub fn append_bytes(out: &mut Vec<u8>, s: &[u8])
    ensures
        final(out)@ == old(out)@ + s@,
{
    let mut i: usize = 0;
    while i < s.len()
        invariant
            i <= s@.len(),
            out@ =~= old(out)@ + s@.take(i as int),
        decreases s@.len() - i,
    {
        out.push(s[i]);
        assert(out@ =~= old(out)@ + s@.take(i + 1));
        i = i + 1;
    }
    assert(out@ =~= old(out)@ + s@);
}

/// Appends the bytes of the string `s` to `out`.
pub fn append_str_bytes(out: &mut Vec<u8>, s: &str)
    ensures
        final(out)@ == old(out)@ + s.spec_bytes(),
{
    append_bytes(out, s.as_bytes());
}

/// Copies `v[from..to]` into a fresh vector.
pub fn subvec(v: &Vec<u8>, from: usize, to: usize) -> (r: Vec<u8>)
    requires
        from <= to <= v@.len(),
    ensures
        r@ == v@.subrange(from as int, to as int),
{
    let mut r: Vec<u8> = Vec::new();
    let mut i: usize = from;
    while i < to
        invariant
            from <= i <= to <= v@.len(),
            r@ =~= v@.subrange(from as int, i as int),
        decreases to - i,
    {
        r.push(v[i]);
        assert(r@ =~= v@.subrange(from as int, i + 1));
        i = i + 1;
    }
    r
}

/// The decimal rendering of a number as ASCII digit bytes, most significant
/// digit first, with no leading zeros (`0` renders as a single `0`).
pub open spec fn dec_rep(n: nat) -> Seq<u8>
    decreases n,
{
    if n < 10 {
        seq![(DIGIT_ZERO + n) as u8]
    } else {
        dec_rep(n / 10).push((DIGIT_ZERO + n % 10) as u8)
    }
}

/// Appends the decimal rendering of `n` to `out`.
pub fn push_decimal(out: &mut Vec<u8>, n: u64)
    ensures
        final(out)@ == old(out)@ + dec_rep(n as nat),
    decreases n,
{
    if n >= 10 {
        proof {
            assert(n / 10 < n) by (nonlinear_arith)
                requires
                    n >= 10,
            ;
        }
        push_decimal(out, n / 10);
    }
    out.push(DIGIT_ZERO + (n % 10) as u8);
    assert(out@ =~= old(out)@ + dec_rep(n as nat));
}

} // verus!
