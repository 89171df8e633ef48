//! The integer coercion law: type-directed, overflow-checked conversion from
//! a native integer to the wire width the declared column type implies.
//!
//! The law is forgiving-widen / strict-narrow: a value may be written into
//! any integer column type whose range holds it exactly, and a value outside
//! that range is rejected — never truncated or wrapped.  Every native width
//! funnels through the one checked encoder here, so the law is stated and
//! proved once.

use vstd::prelude::*;

use vstd::arithmetic::power2::pow2;

use crate::column::Column;
use crate::column::ColumnType;
use crate::error::bad;
use crate::error::EncodeError;
use crate::wire::dec_digits;
use crate::wire::le_bytes;
use crate::wire::lemma_le_bytes_arith;
use crate::wire::lenenc_bytes;
use crate::wire::push_dec;
use crate::wire::push_lenenc_slice;
use crate::wire::put_le_bytes;

verus! {

/// The byte width of the integer wire slot a column type names, if it names
/// one: 8 for LONGLONG, 4 for LONG and INT24, 2 for SHORT and YEAR, 1 for
/// TINY.
pub open spec fn spec_int_width(t: ColumnType) -> Option<int> {
    match t {
        ColumnType::MYSQL_TYPE_LONGLONG => Some(8),
        ColumnType::MYSQL_TYPE_LONG => Some(4),
        ColumnType::MYSQL_TYPE_INT24 => Some(4),
        ColumnType::MYSQL_TYPE_SHORT => Some(2),
        ColumnType::MYSQL_TYPE_YEAR => Some(2),
        ColumnType::MYSQL_TYPE_TINY => Some(1),
        _ => None,
    }
}

/// The smallest value a `width`-byte integer slot holds.
pub open spec fn slot_min(width: int, unsigned: bool) -> int {
    if unsigned {
        0
    } else if width == 1 {
        -0x80
    } else if width == 2 {
        -0x8000
    } else if width == 4 {
        -0x8000_0000
    } else {
        -0x8000_0000_0000_0000
    }
}

/// The largest value a `width`-byte integer slot holds.
pub open spec fn slot_max(width: int, unsigned: bool) -> int {
    if unsigned {
        if width == 1 {
            0xff
        } else if width == 2 {
            0xffff
        } else if width == 4 {
            0xffff_ffff
        } else {
            0xffff_ffff_ffff_ffff
        }
    } else {
        if width == 1 {
            0x7f
        } else if width == 2 {
            0x7fff
        } else if width == 4 {
            0x7fff_ffff
        } else {
            0x7fff_ffff_ffff_ffff
        }
    }
}

/// The two's-complement image of `n` in a `width`-byte slot, as the
/// non-negative value whose little-endian bytes go on the wire.  Meaningful
/// when `n` lies in the slot's range.
pub open spec fn twos_complement(n: int, width: int) -> u64 {
    (if n >= 0 {
        n
    } else if width == 1 {
        n + 0x100
    } else if width == 2 {
        n + 0x1_0000
    } else if width == 4 {
        n + 0x1_0000_0000
    } else {
        n + 0x1_0000_0000_0000_0000
    }) as u64
}

/// What binary integer encoding produces for value `n` under column `c`: the
/// slot's width-many little-endian two's-complement bytes when the slot
/// holds `n` exactly, and the incompatible-value error otherwise — also when
/// the column type names no integer slot at all.
pub open spec fn int_bin_spec(n: int, c: Column) -> Result<Seq<u8>, EncodeError> {
    match spec_int_width(c.coltype) {
        Some(width) => {
            let u = c.spec_is_unsigned();
            if slot_min(width, u) <= n && n <= slot_max(width, u) {
                Ok(le_bytes(twos_complement(n, width), width as nat))
            } else {
                Err(EncodeError::Incompatible { expected: c.coltype })
            }
        },
        None => Err(EncodeError::Incompatible { expected: c.coltype }),
    }
}

/// Binary-encode integer `n` against column `c`: append the slot's bytes on
/// success, leave the sink untouched and report the incompatibility on
/// failure.
pub fn encode_int_bin(w: &mut Vec<u8>, n: i128, c: &Column) -> (r: Result<(), EncodeError>)
    ensures
        match int_bin_spec(n as int, *c) {
            Ok(b) => r is Ok && final(w)@ == old(w)@ + b,
            Err(e) => r == Err::<(), EncodeError>(e) && final(w)@ == old(w)@,
        },
{
    let width: usize = match c.coltype {
        ColumnType::MYSQL_TYPE_LONGLONG => 8,
        ColumnType::MYSQL_TYPE_LONG => 4,
        ColumnType::MYSQL_TYPE_INT24 => 4,
        ColumnType::MYSQL_TYPE_SHORT => 2,
        ColumnType::MYSQL_TYPE_YEAR => 2,
        ColumnType::MYSQL_TYPE_TINY => 1,
        _ => {
            return Err(bad(c));
        },
    };
    let unsigned = c.is_unsigned();
    let lo: i128 = if unsigned {
        0
    } else if width == 1 {
        -0x80
    } else if width == 2 {
        -0x8000
    } else if width == 4 {
        -0x8000_0000
    } else {
        -0x8000_0000_0000_0000
    };
    let hi: i128 = if unsigned {
        if width == 1 {
            0xff
        } else if width == 2 {
            0xffff
        } else if width == 4 {
            0xffff_ffff
        } else {
            0xffff_ffff_ffff_ffff
        }
    } else {
        if width == 1 {
            0x7f
        } else if width == 2 {
            0x7fff
        } else if width == 4 {
            0x7fff_ffff
        } else {
            0x7fff_ffff_ffff_ffff
        }
    };
    if n < lo || n > hi {
        return Err(bad(c));
    }
    let v: u64 = if n >= 0 {
        n as u64
    } else if width == 1 {
        (n + 0x100) as u64
    } else if width == 2 {
        (n + 0x1_0000) as u64
    } else if width == 4 {
        (n + 0x1_0000_0000) as u64
    } else {
        (n + 0x1_0000_0000_0000_0000) as u64
    };
    proof {
        assert(v == twos_complement(n as int, width as int));
    }
    put_le_bytes(w, v, width);
    Ok(())
}

/// The characters of integer `n` in decimal: a minus sign for a negative
/// value, then its digits.
pub open spec fn int_text_bytes(n: int) -> Seq<u8> {
    if n < 0 {
        seq![45u8] + dec_digits((-n) as nat)
    } else {
        dec_digits(n as nat)
    }
}

/// What text encoding produces for integer `n`: its decimal characters as a
/// length-encoded string.
pub open spec fn int_text_spec(n: int) -> Seq<u8> {
    lenenc_bytes(int_text_bytes(n))
}

/// Text-encode integer `n`: append its decimal characters as a
/// length-encoded string.  Text encoding takes no column descriptor and
/// cannot fail.
pub fn encode_int_text(w: &mut Vec<u8>, n: i128)
    requires
        -0x8000_0000_0000_0000 <= n <= 0xffff_ffff_ffff_ffff,
    ensures
        final(w)@ == old(w)@ + int_text_spec(n as int),
{
    let mut tmp: Vec<u8> = Vec::new();
    if n < 0 {
        tmp.push(45);
        push_dec(&mut tmp, (-n) as u64);
    } else {
        push_dec(&mut tmp, n as u64);
    }
    proof {
        assert(tmp@ =~= int_text_bytes(n as int));
    }
    push_lenenc_slice(w, tmp.as_slice());
}

/// Every integer a slot's range holds is encoded, as exactly the slot's
/// width in little-endian two's-complement bytes: for a non-negative value
/// the bytes of the value itself, for a negative one the bytes of the value
/// plus two to the power of the slot's bit width.  Byte `i` is that image
/// divided by 256 to the power `i`, modulo 256.
pub proof fn lemma_int_in_range_encodes(n: int, c: Column)
    requires
        spec_int_width(c.coltype) is Some,
        slot_min(spec_int_width(c.coltype)->Some_0, c.spec_is_unsigned()) <= n,
        n <= slot_max(spec_int_width(c.coltype)->Some_0, c.spec_is_unsigned()),
    ensures
        int_bin_spec(n, c) is Ok,
        int_bin_spec(n, c)->Ok_0.len() == spec_int_width(c.coltype)->Some_0,
        int_bin_spec(n, c)->Ok_0 == le_bytes(
            twos_complement(n, spec_int_width(c.coltype)->Some_0),
            spec_int_width(c.coltype)->Some_0 as nat,
        ),
        forall|i: int|
            0 <= i < spec_int_width(c.coltype)->Some_0 ==> #[trigger] int_bin_spec(
                n,
                c,
            )->Ok_0[i] as int == (twos_complement(n, spec_int_width(c.coltype)->Some_0) as int
                / pow2((8 * i) as nat) as int) % 256,
{
    let width = spec_int_width(c.coltype)->Some_0;
    assert forall|i: int| 0 <= i < width implies #[trigger] int_bin_spec(n, c)->Ok_0[i] as int == (
    twos_complement(n, width) as int / pow2((8 * i) as nat) as int) % 256 by {
        lemma_le_bytes_arith(twos_complement(n, width), width as nat, i);
    }
}

/// Every integer outside the slot's range — and every integer against a
/// column type that names no integer slot — is rejected with the
/// incompatible-value error; nothing reaches the sink in that case.
pub proof fn lemma_int_out_of_range_rejected(n: int, c: Column)
    requires
        spec_int_width(c.coltype) is None || n < slot_min(
            spec_int_width(c.coltype)->Some_0,
            c.spec_is_unsigned(),
        ) || n > slot_max(spec_int_width(c.coltype)->Some_0, c.spec_is_unsigned()),
    ensures
        int_bin_spec(n, c) == Err::<Seq<u8>, EncodeError>(
            EncodeError::Incompatible { expected: c.coltype },
        ),
{
}

} // verus!
