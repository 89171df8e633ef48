//! Byte-level primitives of the wire protocol: little-endian fixed-width
//! integers, ASCII decimal digits, and the length-encoded string framing
//! that both resultset formats use.  All writers append to a `Vec<u8>` sink
//! and state the exact bytes they append.

use vstd::prelude::*;

use vstd::arithmetic::power2::lemma2_to64;
use vstd::arithmetic::power2::lemma2_to64_rest;
use vstd::arithmetic::power2::pow2;

verus! {

/// The `n` lowest bytes of `v`, least significant first.
pub open spec fn le_bytes(v: u64, n: nat) -> Seq<u8> {
    Seq::new(n, |i: int| ((v >> ((8 * i) as u64)) & 0xff) as u8)
}

/// Byte `i` of a little-endian encoding, arithmetically: the value divided
/// by 256 to the power `i`, modulo 256.
pub proof fn lemma_le_bytes_arith(v: u64, n: nat, i: int)
    requires
        n <= 8,
        0 <= i < n,
    ensures
        le_bytes(v, n)[i] as int == (v as int / pow2((8 * i) as nat) as int) % 256,
{
    lemma2_to64();
    lemma2_to64_rest();
    let sh: u64 = (8 * i) as u64;
    let b: u64 = (v >> sh) & 0xff;
    assert(((v >> sh) & 0xff) < 256) by (bit_vector);
    assert(le_bytes(v, n)[i] == b as u8);
    if i == 0 {
        assert(sh == 0u64);
        assert((v >> 0u64) & 0xff == v % 0x100 && ((v >> 0u64) & 0xff) < 256) by (bit_vector);
        assert(v as int / pow2(0) as int == v as int) by (nonlinear_arith)
            requires
                pow2(0) == 1,
        ;
    } else if i == 1 {
        assert(sh == 8u64);
        assert((v >> 8u64) & 0xff == (v / 0x100) % 0x100 && ((v >> 8u64) & 0xff) < 256)
            by (bit_vector);
    } else if i == 2 {
        assert(sh == 16u64);
        assert((v >> 16u64) & 0xff == (v / 0x1_0000) % 0x100 && ((v >> 16u64) & 0xff) < 256)
            by (bit_vector);
    } else if i == 3 {
        assert(sh == 24u64);
        assert((v >> 24u64) & 0xff == (v / 0x100_0000) % 0x100 && ((v >> 24u64) & 0xff) < 256)
            by (bit_vector);
    } else if i == 4 {
        assert(sh == 32u64);
        assert((v >> 32u64) & 0xff == (v / 0x1_0000_0000) % 0x100 && ((v >> 32u64) & 0xff) < 256)
            by (bit_vector);
    } else if i == 5 {
        assert(sh == 40u64);
        assert((v >> 40u64) & 0xff == (v / 0x100_0000_0000) % 0x100 && ((v >> 40u64) & 0xff) < 256)
            by (bit_vector);
    } else if i == 6 {
        assert(sh == 48u64);
        assert((v >> 48u64) & 0xff == (v / 0x1_0000_0000_0000) % 0x100 && ((v >> 48u64) & 0xff)
            < 256) by (bit_vector);
    } else {
        assert(sh == 56u64);
        assert((v >> 56u64) & 0xff == (v / 0x100_0000_0000_0000) % 0x100 && ((v >> 56u64) & 0xff)
            < 256) by (bit_vector);
    }
}

/// Append the `n` lowest bytes of `v`, least significant first.
pub fn put_le_bytes(w: &mut Vec<u8>, v: u64, n: usize)
    requires
        n <= 8,
    ensures
        final(w)@ == old(w)@ + le_bytes(v, n as nat),
{
    let mut i: usize = 0;
    while i < n
        invariant
            i <= n,
            n <= 8,
            w@ == old(w)@ + le_bytes(v, i as nat),
        decreases n - i,
    {
        let sh: u64 = 8 * (i as u64);
        proof {
            assert(((v >> sh) & 0xff) < 256) by (bit_vector);
        }
        let b: u8 = ((v >> sh) & 0xff) as u8;
        w.push(b);
        proof {
            assert(le_bytes(v, (i + 1) as nat) =~= le_bytes(v, i as nat).push(b));
        }
        i += 1;
    }
    proof {
        assert(w@ =~= old(w)@ + le_bytes(v, n as nat));
    }
}

/// Append a whole byte slice.
pub fn push_slice(w: &mut Vec<u8>, b: &[u8])
    ensures
        final(w)@ == old(w)@ + b@,
{
    let mut i: usize = 0;
    while i < b.len()
        invariant
            i <= b@.len(),
            w@ == old(w)@ + b@.take(i as int),
        decreases b@.len() - i,
    {
        let x: u8 = b[i];
        w.push(x);
        proof {
            assert(b@.take((i + 1) as int) =~= b@.take(i as int).push(b@[i as int]));
        }
        i += 1;
    }
    proof {
        assert(b@.take(b@.len() as int) =~= b@);
    }
}

/// The ASCII decimal digits of `n`, most significant first, with no sign and
/// no leading zeros (a lone `0` for zero).
pub open spec fn dec_digits(n: nat) -> Seq<u8>
    decreases n,
{
    if n < 10 {
        seq![(48 + n) as u8]
    } else {
        dec_digits(n / 10).push((48 + n % 10) as u8)
    }
}

/// Append the decimal digits of `n`.
pub fn push_dec(w: &mut Vec<u8>, n: u64)
    ensures
        final(w)@ == old(w)@ + dec_digits(n as nat),
    decreases n,
{
    if n < 10 {
        w.push(48 + (n as u8));
        proof {
            assert(w@ =~= old(w)@ + dec_digits(n as nat));
        }
    } else {
        push_dec(w, n / 10);
        w.push(48 + ((n % 10) as u8));
        proof {
            assert(w@ =~= old(w)@ + dec_digits(n as nat));
        }
    }
}

/// The decimal digits of `n`, left-padded with ASCII zeros to at least
/// `width` characters (a minimum width, as the protocol's fixed-width
/// temporal fields use it).
pub open spec fn dec_pad(n: nat, width: nat) -> Seq<u8> {
    if dec_digits(n).len() >= width {
        dec_digits(n)
    } else {
        Seq::new((width - dec_digits(n).len()) as nat, |i: int| 48u8) + dec_digits(n)
    }
}

/// Append the decimal digits of `n`, zero-padded to at least `width`
/// characters.
pub fn push_dec_pad(w: &mut Vec<u8>, n: u64, width: usize)
    ensures
        final(w)@ == old(w)@ + dec_pad(n as nat, width as nat),
{
    let mut tmp: Vec<u8> = Vec::new();
    push_dec(&mut tmp, n);
    let mut k: usize = tmp.len();
    while k < width
        invariant
            tmp@.len() <= k,
            k <= width || k == tmp@.len(),
            tmp@ == dec_digits(n as nat),
            w@ == old(w)@ + Seq::new((k - tmp@.len()) as nat, |i: int| 48u8),
        decreases width - k,
    {
        w.push(48);
        proof {
            assert(Seq::new((k + 1 - tmp@.len()) as nat, |i: int| 48u8) =~= Seq::new(
                (k - tmp@.len()) as nat,
                |i: int| 48u8,
            ).push(48u8));
        }
        k += 1;
    }
    push_slice(w, tmp.as_slice());
    proof {
        if dec_digits(n as nat).len() >= width {
            assert(Seq::new(0nat, |i: int| 48u8) =~= Seq::<u8>::empty());
            assert(w@ =~= old(w)@ + dec_pad(n as nat, width as nat));
        } else {
            assert(w@ =~= old(w)@ + dec_pad(n as nat, width as nat));
        }
    }
}

/// The length prefix of a length-encoded string: one byte below 251, else a
/// marker byte followed by the length in 2, 3 or 8 little-endian bytes.
pub open spec fn lenenc_prefix(l: nat) -> Seq<u8> {
    if l < 251 {
        seq![l as u8]
    } else if l < 0x1_0000 {
        seq![0xfcu8] + le_bytes(l as u64, 2)
    } else if l < 0x100_0000 {
        seq![0xfdu8] + le_bytes(l as u64, 3)
    } else {
        seq![0xfeu8] + le_bytes(l as u64, 8)
    }
}

/// A length-encoded string: the length prefix followed by the raw bytes.
pub open spec fn lenenc_bytes(b: Seq<u8>) -> Seq<u8> {
    lenenc_prefix(b.len()) + b
}

/// Append `b` as a length-encoded string.
pub fn push_lenenc_slice(w: &mut Vec<u8>, b: &[u8])
    ensures
        final(w)@ == old(w)@ + lenenc_bytes(b@),
{
    let l: usize = b.len();
    if l < 251 {
        w.push(l as u8);
    } else if l < 0x1_0000 {
        w.push(0xfc);
        put_le_bytes(w, l as u64, 2);
    } else if l < 0x100_0000 {
        w.push(0xfd);
        put_le_bytes(w, l as u64, 3);
    } else {
        w.push(0xfe);
        put_le_bytes(w, l as u64, 8);
    }
    push_slice(w, b);
    proof {
        assert(w@ =~= old(w)@ + lenenc_bytes(b@));
    }
}

} // verus!
