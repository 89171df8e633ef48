//! Floating-point wire values, handled through their IEEE-754 bit patterns.
//! The crate never computes with a float; a single-precision value is its
//! 32-bit pattern and a double-precision value its 64-bit pattern.  The one
//! numeric operation binary encoding needs — widening a single to the double
//! with the same value — is exact for every single-precision value, so it is
//! carried out on the bits: the exponent is re-biased, the fraction shifted,
//! and a subnormal single is normalized into an ordinary double.

use vstd::prelude::*;

use vstd::arithmetic::power2::lemma2_to64;
use vstd::arithmetic::power2::lemma_pow2_strictly_increases;
use vstd::arithmetic::power2::lemma_pow2_unfold;
use vstd::arithmetic::power2::pow2;

use crate::column::Column;
use crate::column::ColumnType;
use crate::error::bad;
use crate::error::EncodeError;
use crate::wire::le_bytes;

verus! {

/// One normalization step for the fraction of a subnormal single: double
/// the fraction and lower the exponent field until the fraction's leading
/// bit reaches the hidden-bit position.  Returns the pair (fraction,
/// exponent field).
pub open spec fn norm_sub(f: u64, e: u64) -> (u64, u64)
    decreases e,
{
    if f == 0 || e == 0 || f >= 0x800000 {
        (f, e)
    } else {
        norm_sub((2 * f) as u64, (e - 1) as u64)
    }
}

/// The double-precision bit pattern with the same value as the
/// single-precision bit pattern `b`.  The exponent bias moves from 127 to
/// 1023, the 23-bit fraction widens to 52 bits; an infinity or NaN keeps
/// the all-ones exponent and its payload, and a subnormal single becomes a
/// normal double.
pub open spec fn f32_to_f64_bits(b: u32) -> u64 {
    let sign = (b >> 31) as u64;
    let exp = ((b >> 23) & 0xff) as u64;
    let frac = (b & 0x7f_ffff) as u64;
    if exp == 0xff {
        (sign << 63) | (0x7ffu64 << 52) | (frac << 29)
    } else if exp == 0 {
        if frac == 0 {
            sign << 63
        } else {
            let fe = norm_sub(frac, 897);
            (sign << 63) | (fe.1 << 52) | ((fe.0 & 0x7f_ffff) << 29)
        }
    } else {
        (sign << 63) | (((exp + 896) as u64) << 52) | (frac << 29)
    }
}

/// Widen a single-precision bit pattern to the double-precision pattern
/// with the same value.
pub fn widen_f32_bits(b: u32) -> (r: u64)
    ensures
        r == f32_to_f64_bits(b),
{
    let sign: u64 = (b >> 31) as u64;
    let exp: u64 = ((b >> 23) & 0xff) as u64;
    let frac: u64 = (b & 0x7f_ffff) as u64;
    proof {
        assert(((b >> 23) & 0xff) < 256) by (bit_vector);
        assert((b & 0x7f_ffff) < 0x80_0000) by (bit_vector);
    }
    if exp == 0xff {
        (sign << 63) | (0x7ffu64 << 52) | (frac << 29)
    } else if exp == 0 {
        if frac == 0 {
            sign << 63
        } else {
            let mut f: u64 = frac;
            let mut e: u64 = 897;
            let mut j: u64 = 0;
            proof {
                lemma2_to64();
            }
            while f < 0x80_0000
                invariant
                    1 <= frac < 0x80_0000,
                    1 <= f,
                    j <= 23,
                    e == 897 - j,
                    f == frac * pow2(j as nat),
                    norm_sub(f, e) == norm_sub(frac, 897),
                decreases e,
            {
                proof {
                    lemma2_to64();
                    if j >= 23 {
                        if j > 23 {
                            lemma_pow2_strictly_increases(23, j as nat);
                        }
                        assert(frac * pow2(j as nat) >= pow2(23)) by (nonlinear_arith)
                            requires
                                frac >= 1,
                                pow2(j as nat) >= pow2(23),
                        ;
                        assert(false);
                    }
                    lemma_pow2_unfold((j + 1) as nat);
                    assert(2 * (frac * pow2(j as nat)) == frac * pow2((j + 1) as nat))
                        by (nonlinear_arith)
                        requires
                            pow2((j + 1) as nat) == 2 * pow2(j as nat),
                    ;
                    assert(norm_sub(f, e) == norm_sub((2 * f) as u64, (e - 1) as u64));
                }
                f = 2 * f;
                e = e - 1;
                j = j + 1;
            }
            proof {
                assert(norm_sub(f, e) == (f, e));
            }
            (sign << 63) | (e << 52) | ((f & 0x7f_ffff) << 29)
        }
    } else {
        (sign << 63) | ((exp + 896) << 52) | (frac << 29)
    }
}

/// What binary encoding produces for a single-precision bit pattern: its
/// four bytes little-endian against a FLOAT column, the widened pattern's
/// eight bytes against a DOUBLE column, the incompatible-value error
/// against any other.
pub open spec fn float_bin_spec(bits: u32, c: Column) -> Result<Seq<u8>, EncodeError> {
    match c.coltype {
        ColumnType::MYSQL_TYPE_FLOAT => Ok(le_bytes(bits as u64, 4)),
        ColumnType::MYSQL_TYPE_DOUBLE => Ok(le_bytes(f32_to_f64_bits(bits), 8)),
        _ => Err(EncodeError::Incompatible { expected: c.coltype }),
    }
}

/// What binary encoding produces for a double-precision bit pattern: its
/// eight bytes little-endian against a DOUBLE column, the
/// incompatible-value error against any other — a double never narrows to a
/// FLOAT column.
pub open spec fn double_bin_spec(bits: u64, c: Column) -> Result<Seq<u8>, EncodeError> {
    match c.coltype {
        ColumnType::MYSQL_TYPE_DOUBLE => Ok(le_bytes(bits, 8)),
        _ => Err(EncodeError::Incompatible { expected: c.coltype }),
    }
}

/// Binary-encode a single-precision bit pattern against column `c`.
pub fn encode_float_bin(w: &mut Vec<u8>, bits: u32, c: &Column) -> (r: Result<(), EncodeError>)
    ensures
        match float_bin_spec(bits, *c) {
            Ok(b) => r is Ok && final(w)@ == old(w)@ + b,
            Err(e) => r == Err::<(), EncodeError>(e) && final(w)@ == old(w)@,
        },
{
    match c.coltype {
        ColumnType::MYSQL_TYPE_FLOAT => {
            crate::wire::put_le_bytes(w, bits as u64, 4);
            Ok(())
        },
        ColumnType::MYSQL_TYPE_DOUBLE => {
            let wide = widen_f32_bits(bits);
            crate::wire::put_le_bytes(w, wide, 8);
            Ok(())
        },
        _ => Err(bad(c)),
    }
}

/// Binary-encode a double-precision bit pattern against column `c`.
pub fn encode_double_bin(w: &mut Vec<u8>, bits: u64, c: &Column) -> (r: Result<(), EncodeError>)
    ensures
        match double_bin_spec(bits, *c) {
            Ok(b) => r is Ok && final(w)@ == old(w)@ + b,
            Err(e) => r == Err::<(), EncodeError>(e) && final(w)@ == old(w)@,
        },
{
    match c.coltype {
        ColumnType::MYSQL_TYPE_DOUBLE => {
            crate::wire::put_le_bytes(w, bits, 8);
            Ok(())
        },
        _ => Err(bad(c)),
    }
}

} // verus!
