//! Sign extension of the immediate fields of an instruction.

use vstd::arithmetic::power2::{lemma2_to64, pow2};
use vstd::bits::lemma_u32_shl_is_mul;
use vstd::prelude::*;

verus! {

/// The word that `sign_extend` computes: when bit `bit_count - 1` of `x` is
/// set, every bit from `bit_count` upwards is set too; otherwise `x` itself.
pub open spec fn sign_extend_spec(x: u16, bit_count: u16) -> u16 {
    if (x >> ((bit_count - 1) as u16)) & 1 == 1 {
        x | (0xffffu16 << bit_count)
    } else {
        x
    }
}

/// The integer that `value` stands for when its low `bits` bits are read as a
/// two's-complement number of that width.
pub open spec fn twos_complement(value: int, bits: nat) -> int {
    if value >= pow2((bits - 1) as nat) {
        value - pow2(bits)
    } else {
        value
    }
}

/// Whether only the low `bit_count` bits of `x` can be set.
pub open spec fn fits_in_bits(x: u16, bit_count: u16) -> bool {
    (x as int) < pow2(bit_count as nat)
}

/// Extends the `bit_count`-bit two's-complement number held in the low bits of
/// `x` to sixteen bits.
pub fn sign_extend(x: u16, bit_count: u16) -> (extended: u16)
    requires
        1 <= bit_count <= 16,
    ensures
        extended == sign_extend_spec(x, bit_count),
        fits_in_bits(x, bit_count) ==> twos_complement(extended as int, 16) == twos_complement(
            x as int,
            bit_count as nat,
        ),
{
    proof {
        if fits_in_bits(x, bit_count) {
            lemma_sign_extend_value(x, bit_count);
        }
    }
    if bit_count == 16 {
        assert(x | (0xffffu16 << 16u16) == x) by (bit_vector);
        x
    } else if ((x >> (bit_count - 1)) & 1) == 1 {
        x | (u16::MAX << bit_count)
    } else {
        x
    }
}

/// Sign extension keeps the number: a word that fits in `bit_count` bits,
/// extended, reads as a sixteen-bit two's-complement number exactly as the
/// word read in `bit_count` bits.
pub proof fn lemma_sign_extend_value(x: u16, bit_count: u16)
    requires
        1 <= bit_count <= 16,
        fits_in_bits(x, bit_count),
    ensures
        twos_complement(sign_extend_spec(x, bit_count) as int, 16) == twos_complement(
            x as int,
            bit_count as nat,
        ),
{
    let n = bit_count;
    let full: u32 = 1u32 << (n as u32);
    let half: u32 = 1u32 << ((n - 1) as u32);
    lemma2_to64();
    lemma_u32_shl_is_mul(1u32, n as u32);
    lemma_u32_shl_is_mul(1u32, (n - 1) as u32);
    assert(((x >> ((n - 1) as u16)) & 1 == 1) <==> (x as u32) >= half) by (bit_vector)
        requires
            1 <= n <= 16,
            (x as u32) < full,
            full == 1u32 << (n as u32),
            half == 1u32 << ((n - 1) as u32),
    ;
    assert((x as u32) >= half ==> (x | (0xffffu16 << n)) as u32 == (x as u32) + 0x10000u32 - full)
        by (bit_vector)
        requires
            1 <= n <= 16,
            (x as u32) < full,
            full == 1u32 << (n as u32),
            half == 1u32 << ((n - 1) as u32),
    ;
}

} // verus!
