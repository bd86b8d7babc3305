//! Appending text and decimal numbers to a byte buffer.

use vstd::prelude::*;
use vstd::string::StringSliceAdditionalSpecFns;

verus! {

/// The ASCII digits of `n` in decimal, without leading zeros.
pub open spec fn dec(n: nat) -> Seq<u8>
    decreases n,
{
    if n < 10 {
        seq![(48 + n) as u8]
    } else {
        dec(n / 10).push((48 + n % 10) as u8)
    }
}

/// The decimal digits of `n`, left-padded with zeros to at least ten digits.
pub open spec fn padded10(n: nat) -> Seq<u8> {
    if dec(n).len() < 10 {
        Seq::new((10 - dec(n).len()) as nat, |i: int| 48u8) + dec(n)
    } else {
        dec(n)
    }
}

/// A signed decimal number: a minus sign before the digits of a negative value.
pub open spec fn dec_signed(v: int) -> Seq<u8> {
    if v < 0 {
        seq![45u8] + dec((-v) as nat)
    } else {
        dec(v as nat)
    }
}

/// Appends the decimal digits of `n`.
pub fn push_dec(out: &mut Vec<u8>, n: u64)
    ensures
        final(out)@ == old(out)@ + dec(n as nat),
    decreases n,
{
    if n >= 10 {
        push_dec(out, n / 10);
    }
    out.push((48 + n % 10) as u8);
    proof {
        assert(final(out)@ =~= old(out)@ + dec(n as nat));
    }
}

/// Appends `n` as at least ten digits, padded with leading zeros.
pub fn push_padded10(out: &mut Vec<u8>, n: u64)
    ensures
        final(out)@ == old(out)@ + padded10(n as nat),
{
    let mut digits: Vec<u8> = Vec::new();
    push_dec(&mut digits, n);
    assert(digits@ =~= dec(n as nat));
    let len = digits.len();
    let ghost start = out@;
    if len < 10 {
        let mut i: usize = len;
        while i < 10
            invariant
                len <= i <= 10,
                len == dec(n as nat).len(),
                out@ == start + Seq::new((i - len) as nat, |j: int| 48u8),
            decreases 10 - i,
        {
            out.push(48u8);
            i = i + 1;
            assert(out@ =~= start + Seq::new((i - len) as nat, |j: int| 48u8));
        }
    }
    push_bytes(out, digits.as_slice());
    assert(out@ =~= start + padded10(n as nat));
}

/// Appends `v` in decimal, with a minus sign when negative.
pub fn push_signed(out: &mut Vec<u8>, v: i64)
    ensures
        final(out)@ == old(out)@ + dec_signed(v as int),
{
    let ghost start = out@;
    if v < 0 {
        out.push(45u8);
        let m: u64 = (0 - (v as i128)) as u64;
        push_dec(out, m);
        assert(out@ =~= start + dec_signed(v as int));
    } else {
        push_dec(out, v as u64);
    }
}

/// Appends the UTF-8 bytes of `s`.
pub fn push_str(out: &mut Vec<u8>, s: &str)
    ensures
        final(out)@ == old(out)@ + s.spec_bytes(),
{
    let b = s.as_bytes();
    let ghost start = out@;
    let mut i: usize = 0;
    while i < b.len()
        invariant
            i <= b@.len(),
            b@ == s.spec_bytes(),
            out@ == start + b@.subrange(0, i as int),
        decreases b@.len() - i,
    {
        out.push(b[i]);
        i = i + 1;
        assert(out@ =~= start + b@.subrange(0, i as int));
    }
    assert(b@.subrange(0, b@.len() as int) =~= b@);
}

/// Appends the bytes of `b`.
pub fn push_bytes(out: &mut Vec<u8>, b: &[u8])
    ensures
        final(out)@ == old(out)@ + b@,
{
    let ghost start = out@;
    let mut i: usize = 0;
    while i < b.len()
        invariant
            i <= b@.len(),
            out@ == start + b@.subrange(0, i as int),
        decreases b@.len() - i,
    {
        out.push(b[i]);
        i = i + 1;
        assert(out@ =~= start + b@.subrange(0, i as int));
    }
    assert(b@.subrange(0, b@.len() as int) =~= b@);
}

} // verus!
