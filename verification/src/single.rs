//! Binary32 bit patterns of whole numbers.
//!
//! Vertex attributes travel to the device as IEEE-754 single-precision numbers.
//! Every coordinate the library produces is a whole number of small magnitude,
//! which binary32 holds exactly; its pattern is computed here with integer
//! arithmetic alone.

use vstd::arithmetic::power2::{lemma2_to64, lemma_pow2_adds, lemma_pow2_pos, pow2};
use vstd::prelude::*;

verus! {

/// Largest magnitude up to which every whole number is a binary32 value.
pub const EXACT_MAX: i32 = 0x100_0000;

/// Whether the whole number `n` has a binary32 pattern that the encoder finds.
pub open spec fn exact(n: int) -> bool {
    -0x100_0000 <= n <= 0x100_0000
}

/// The significand doubled until its leading bit reaches bit 23, with the
/// biased exponent lowered by one for every doubling.
pub open spec fn normalize(sig: int, exp: int) -> (int, int)
    decreases 0x100_0000 - sig,
{
    if 0 < sig < 0x80_0000 {
        normalize(2 * sig, exp - 1)
    } else {
        (sig, exp)
    }
}

/// The pattern of the positive whole number `m`: the biased exponent above the
/// 23 fraction bits, the leading bit of the significand left out.
pub open spec fn magnitude_bits(m: int) -> int {
    let (sig, exp) = normalize(m, 150);
    exp * 0x80_0000 + (sig - 0x80_0000)
}

/// The binary32 pattern of the whole number `n`.
pub open spec fn single_bits(n: int) -> u32 {
    if n == 0 {
        0
    } else if n > 0 {
        magnitude_bits(n) as u32
    } else {
        (0x8000_0000 + magnitude_bits(-n)) as u32
    }
}

/// The sign bit of a pattern.
pub open spec fn sign_field(bits: u32) -> int {
    bits as int / 0x8000_0000
}

/// The biased exponent of a pattern.
pub open spec fn exponent_field(bits: u32) -> int {
    bits as int / 0x80_0000 % 0x100
}

/// The fraction bits of a pattern.
pub open spec fn fraction_field(bits: u32) -> int {
    bits as int % 0x80_0000
}

/// Whether `bits` is a binary32 pattern of the whole number `n`: positive zero,
/// or a normal number whose sign, exponent `e` and fraction `f` satisfy
/// `(1 + f / 2^23) * 2^(e - 127) == |n|`, stated here with both sides
/// multiplied by `2^23`.
pub open spec fn represents(bits: u32, n: int) -> bool {
    if n == 0 {
        bits == 0
    } else {
        &&& sign_field(bits) == (if n < 0 { 1int } else { 0int })
        &&& 127 <= exponent_field(bits) <= 151
        &&& (0x80_0000 + fraction_field(bits)) * pow2((exponent_field(bits) - 127) as nat)
            == (if n < 0 { -n } else { n }) * 0x80_0000
    }
}

/// Normalizing a significand of at most 24 bits keeps its value: the result has
/// its leading bit at position 23 (or is `2^24` itself), and each doubling is
/// matched by one step of the exponent.
pub proof fn lemma_normalize(sig: int, exp: int, low: nat)
    requires
        1 <= sig <= 0x100_0000,
        low <= 23,
        pow2(low) <= sig,
    ensures
        0x80_0000 <= normalize(sig, exp).0 <= 0x100_0000,
        exp - (23 - low) <= normalize(sig, exp).1 <= exp,
        normalize(sig, exp).0 == sig * pow2((exp - normalize(sig, exp).1) as nat),
        normalize(sig, exp).0 == 0x100_0000 ==> sig == 0x100_0000,
    decreases 0x100_0000 - sig,
{
    lemma2_to64();
    if sig < 0x80_0000 {
        assert(low < 23);
        assert(pow2(low + 1) == 2 * pow2(low)) by {
            lemma_pow2_adds(low, 1);
        }
        lemma_normalize(2 * sig, exp - 1, low + 1);
        let out = normalize(2 * sig, exp - 1);
        let steps = (exp - 1 - out.1) as nat;
        assert(pow2(steps + 1) == 2 * pow2(steps)) by {
            lemma_pow2_adds(steps, 1);
        }
        assert(out.0 == sig * pow2(steps + 1)) by (nonlinear_arith)
            requires
                out.0 == (2 * sig) * pow2(steps),
                pow2(steps + 1) == 2 * pow2(steps),
        ;
    } else {
        assert(sig * pow2(0) == sig);
    }
}

/// The pattern that `single_bits` gives to a whole number in the exact range is
/// a binary32 pattern of that number.
pub proof fn lemma_single_bits_represents(n: int)
    requires
        exact(n),
    ensures
        represents(single_bits(n), n),
{
    if n != 0 {
        let m = if n < 0 { -n } else { n };
        lemma2_to64();
        lemma_normalize(m, 150, 0);
        let (sig, exp) = normalize(m, 150);
        let steps = (150 - exp) as nat;
        let bits = single_bits(n);
        if sig == 0x100_0000 {
            assert(exp == 150) by {
                lemma_pow2_pos(steps);
                if steps > 0 {
                    assert(pow2(steps) >= 2) by {
                        lemma_pow2_adds((steps - 1) as nat, 1);
                        lemma_pow2_pos((steps - 1) as nat);
                    }
                    assert(false) by (nonlinear_arith)
                        requires
                            m == 0x100_0000,
                            pow2(steps) >= 2,
                            0x100_0000 == m * pow2(steps),
                    ;
                }
            }
            assert(fraction_field(bits) == 0);
        } else {
            assert(fraction_field(bits) == sig - 0x80_0000);
            let up = (exp - 127) as nat;
            assert(pow2(steps) * pow2(up) == pow2(23)) by {
                lemma_pow2_adds(steps, up);
            }
            assert(sig * pow2(up) == m * 0x80_0000) by (nonlinear_arith)
                requires
                    sig == m * pow2(steps),
                    pow2(steps) * pow2(up) == 0x80_0000,
            ;
        }
    }
}

/// Different whole numbers in the exact range have different patterns.
pub proof fn lemma_single_bits_injective(a: int, b: int)
    requires
        exact(a),
        exact(b),
        single_bits(a) == single_bits(b),
    ensures
        a == b,
{
    lemma_single_bits_represents(a);
    lemma_single_bits_represents(b);
}

/// Computes the binary32 pattern of a whole number in the exact range.
pub fn single_of(n: i32) -> (bits: u32)
    requires
        exact(n as int),
    ensures
        bits == single_bits(n as int),
{
    if n == 0 {
        return 0;
    }
    let negative: bool = n < 0;
    let magnitude: u32 = if negative {
        (0 - n) as u32
    } else {
        n as u32
    };
    proof {
        lemma2_to64();
        lemma_normalize(magnitude as int, 150, 0);
    }
    let mut sig: u32 = magnitude;
    let mut exp: u32 = 150;
    while sig < 0x80_0000
        invariant
            1 <= sig <= 0x100_0000,
            exp <= 150,
            127 <= normalize(magnitude as int, 150).1,
            normalize(sig as int, exp as int) == normalize(magnitude as int, 150),
        decreases 0x100_0000 - sig,
    {
        proof {
            lemma2_to64();
            lemma_normalize(2 * sig as int, exp as int - 1, 0);
        }
        sig = 2 * sig;
        exp = exp - 1;
    }
    let pattern: u32 = exp * 0x80_0000 + (sig - 0x80_0000);
    if negative {
        pattern + 0x8000_0000
    } else {
        pattern
    }
}

} // verus!
