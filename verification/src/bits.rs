//! IEEE-754 bit-pattern arithmetic, written over plain integers.
//!
//! Floating-point values never appear in this crate as such: a
//! single-precision value is carried as its 32-bit pattern and a
//! double-precision value as its 64-bit pattern. The narrowing conversion
//! below is the explicit, endianness-free bit function that turns the
//! 64-bit pattern into the 32-bit pattern of the same value rounded to
//! nearest, ties to even — the rounding the IEEE-754 double-to-single
//! conversion performs. The tests hold it to the hardware conversion.

use vstd::prelude::*;
use vstd::arithmetic::power2::*;

verus! {

/// 2 to the `n`, as a machine word.
pub fn pow2_u64(n: u64) -> (r: u64)
    requires
        n < 64,
    ensures
        r == pow2(n as nat),
{
    proof {
        lemma2_to64();
        lemma2_to64_rest();
    }
    let mut i: u64 = 0;
    let mut r: u64 = 1;
    while i < n
        invariant
            i <= n < 64,
            r == pow2(i as nat),
        decreases n - i,
    {
        proof {
            lemma2_to64();
            lemma2_to64_rest();
            lemma_pow2_strictly_increases(i as nat + 1, 64);
            lemma_pow2_unfold(i as nat + 1);
        }
        r = r * 2;
        i = i + 1;
    }
    r
}

/// The 32-bit pattern of the single-precision value nearest (ties to even)
/// to the double-precision value with bit pattern `b`. A double too large in
/// magnitude becomes an infinity, a double below half of the smallest
/// subnormal single becomes a signed zero, and any NaN becomes the quiet NaN
/// `0x7fc00000` with the sign kept.
pub open spec fn f32_bits_of_f64_bits(b: u64) -> u32 {
    let sign: u64 = b / 0x8000_0000_0000_0000;
    let expf: u64 = (b / 0x10_0000_0000_0000) % 0x800;
    let frac: u64 = b % 0x10_0000_0000_0000;
    let sbit: int = sign * 0x8000_0000;
    if expf == 0x7ff {
        if frac == 0 {
            (sbit + 0x7f80_0000) as u32
        } else {
            (sbit + 0x7fc0_0000) as u32
        }
    } else if expf == 0 {
        sbit as u32
    } else {
        let e: int = expf - 1023;
        if e >= 128 {
            (sbit + 0x7f80_0000) as u32
        } else if e >= -126 {
            let mant: int = 0x10_0000_0000_0000 + frac;
            let keep: int = mant / 0x2000_0000;
            let rem: int = mant % 0x2000_0000;
            let up: bool = rem > 0x1000_0000 || (rem == 0x1000_0000 && keep % 2 == 1);
            let m2: int = if up {
                keep + 1
            } else {
                keep
            };
            let e2: int = if m2 == 0x100_0000 {
                e + 1
            } else {
                e
            };
            let m3: int = if m2 == 0x100_0000 {
                0x80_0000
            } else {
                m2
            };
            if e2 >= 128 {
                (sbit + 0x7f80_0000) as u32
            } else {
                (sbit + (e2 + 127) * 0x80_0000 + (m3 - 0x80_0000)) as u32
            }
        } else if e >= -150 {
            let sh: nat = (0 - 97 - e) as nat;
            let mant: int = 0x10_0000_0000_0000 + frac;
            let keep: int = mant / pow2(sh) as int;
            let rem: int = mant % pow2(sh) as int;
            let half: int = pow2((sh - 1) as nat) as int;
            let up: bool = rem > half || (rem == half && keep % 2 == 1);
            if up {
                (sbit + keep + 1) as u32
            } else {
                (sbit + keep) as u32
            }
        } else {
            sbit as u32
        }
    }
}

/// Narrows a double-precision bit pattern to the single-precision bit
/// pattern of the same value, rounded to nearest with ties to even.
pub fn narrow_f64_bits(b: u64) -> (r: u32)
    ensures
        r == f32_bits_of_f64_bits(b),
{
    let sign: u64 = b / 0x8000_0000_0000_0000;
    let expf: u64 = (b / 0x10_0000_0000_0000) % 0x800;
    let frac: u64 = b % 0x10_0000_0000_0000;
    let sbit: u32 = if sign == 1 {
        0x8000_0000
    } else {
        0
    };
    if expf == 0x7ff {
        if frac == 0 {
            sbit + 0x7f80_0000
        } else {
            sbit + 0x7fc0_0000
        }
    } else if expf == 0 {
        sbit
    } else {
        let e: i64 = (expf as i64) - 1023;
        if e >= 128 {
            sbit + 0x7f80_0000
        } else if e >= -126 {
            let mant: u64 = 0x10_0000_0000_0000 + frac;
            let keep: u64 = mant / 0x2000_0000;
            let rem: u64 = mant % 0x2000_0000;
            let up: bool = rem > 0x1000_0000 || (rem == 0x1000_0000 && keep % 2 == 1);
            let m2: u64 = if up {
                keep + 1
            } else {
                keep
            };
            let e2: i64 = if m2 == 0x100_0000 {
                e + 1
            } else {
                e
            };
            let m3: u64 = if m2 == 0x100_0000 {
                0x80_0000
            } else {
                m2
            };
            if e2 >= 128 {
                sbit + 0x7f80_0000
            } else {
                sbit + (((e2 + 127) as u32) * 0x80_0000) + ((m3 - 0x80_0000) as u32)
            }
        } else if e >= -150 {
            let sh: u64 = ((0 - 97 as i64) - e) as u64;
            let mant: u64 = 0x10_0000_0000_0000 + frac;
            let p: u64 = pow2_u64(sh);
            let h: u64 = pow2_u64(sh - 1);
            proof {
                lemma2_to64();
                if sh > 30 {
                    lemma_pow2_strictly_increases(30, sh as nat);
                }
                assert(p >= 0x4000_0000);
                assert(mant / p < 0x80_0000) by (nonlinear_arith)
                    requires
                        p >= 0x4000_0000,
                        mant < 0x20_0000_0000_0000,
                ;
            }
            let keep: u64 = mant / p;
            let rem: u64 = mant % p;
            let up: bool = rem > h || (rem == h && keep % 2 == 1);
            proof {
                lemma_pow2_adds((sh - 1) as nat, 1);
                lemma2_to64();
            }
            if up {
                sbit + ((keep + 1) as u32)
            } else {
                sbit + (keep as u32)
            }
        } else {
            sbit
        }
    }
}

} // verus!
