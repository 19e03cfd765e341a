//! Exact decimal numerals for floating-point bit patterns, computed with
//! integer arithmetic alone.
//!
//! Every finite IEEE-754 value is `m * 2^e` for integers `m` and `e`, and so
//! has a finite, exact decimal expansion: for `e >= 0` the integer
//! `m * 2^e`, and for `e < 0` the fraction `m * 5^k / 10^k` with `k = -e`.
//! The functions here render that expansion as a JSON numeral that denotes
//! precisely the stored value — nothing is rounded. The arithmetic runs on
//! little-endian decimal digit vectors, each step verified against the
//! mathematical value of the digits.

use vstd::prelude::*;
use vstd::arithmetic::div_mod::{lemma_div_denominator, lemma_fundamental_div_mod_converse};
use vstd::arithmetic::power2::{lemma_pow2_unfold, pow2};

use crate::fmt::{dec_digit, dec_of};

verus! {

/// Ten to the `k`.
pub open spec fn pow10(k: nat) -> nat
    decreases k,
{
    if k == 0 {
        1
    } else {
        10 * pow10((k - 1) as nat)
    }
}

/// Five to the `k`.
pub open spec fn pow5(k: nat) -> nat
    decreases k,
{
    if k == 0 {
        1
    } else {
        5 * pow5((k - 1) as nat)
    }
}

/// Every entry of a digit vector is one decimal digit.
pub open spec fn digits_ok(ds: Seq<u8>) -> bool {
    forall|i: int| 0 <= i < ds.len() ==> #[trigger] ds[i] < 10
}

/// The value of a little-endian decimal digit vector.
pub open spec fn val(ds: Seq<u8>) -> nat
    decreases ds.len(),
{
    if ds.len() == 0 {
        0
    } else {
        (ds[0] + 10 * val(ds.skip(1))) as nat
    }
}

proof fn lemma_val_push(ds: Seq<u8>, d: u8)
    ensures
        val(ds.push(d)) == val(ds) + d * pow10(ds.len()),
    decreases ds.len(),
{
    if ds.len() == 0 {
        assert(ds.push(d).skip(1) =~= Seq::<u8>::empty());
        assert(val(ds.push(d).skip(1)) == 0);
        assert(ds.push(d)[0] == d);
        assert(val(ds.push(d)) == d);
        assert(val(ds) == 0);
        assert(pow10(0) == 1);
    } else {
        assert(ds.push(d).skip(1) =~= ds.skip(1).push(d));
        lemma_val_push(ds.skip(1), d);
        assert(val(ds.push(d)) == ds[0] + 10 * val(ds.skip(1).push(d)));
        assert(val(ds.skip(1).push(d)) == val(ds.skip(1)) + d * pow10(ds.skip(1).len()));
        assert(10 * (val(ds.skip(1)) + d * pow10((ds.len() - 1) as nat)) == 10 * val(ds.skip(1))
            + d * (10 * pow10((ds.len() - 1) as nat))) by (nonlinear_arith);
        assert(pow10(ds.len()) == 10 * pow10((ds.len() - 1) as nat));
        assert(val(ds) == ds[0] + 10 * val(ds.skip(1)));
    }
}

proof fn lemma_val_take_succ(ds: Seq<u8>, i: int)
    requires
        0 <= i < ds.len(),
    ensures
        val(ds.take(i + 1)) == val(ds.take(i)) + ds[i] * pow10(i as nat),
{
    assert(ds.take(i + 1) =~= ds.take(i).push(ds[i]));
    lemma_val_push(ds.take(i), ds[i]);
}

/// A digit vector whose top digit is set has a positive value.
proof fn lemma_val_pos(ds: Seq<u8>)
    requires
        ds.len() > 0,
        ds.last() != 0,
    ensures
        val(ds) >= 1,
    decreases ds.len(),
{
    if ds.len() > 1 {
        assert(ds.skip(1).last() == ds.last());
        lemma_val_pos(ds.skip(1));
    }
}

/// The value of a digit vector stays below ten to its length.
proof fn lemma_val_upper(ds: Seq<u8>)
    requires
        digits_ok(ds),
    ensures
        val(ds) < pow10(ds.len()),
    decreases ds.len(),
{
    if ds.len() > 0 {
        assert(digits_ok(ds.skip(1)));
        lemma_val_upper(ds.skip(1));
    }
}

/// Splitting a digit vector at `k` splits its value at `10^k`.
proof fn lemma_val_split(ds: Seq<u8>, k: int)
    requires
        0 <= k <= ds.len(),
    ensures
        val(ds) == val(ds.take(k)) + val(ds.skip(k)) * pow10(k as nat),
    decreases k,
{
    if k == 0 {
        assert(ds.take(0) =~= Seq::<u8>::empty());
        assert(ds.skip(0) =~= ds);
        assert(val(ds.take(0)) == 0);
        assert(pow10(0) == 1);
    } else {
        assert(ds.skip(1).take(k - 1) =~= ds.take(k).skip(1));
        assert(ds.skip(1).skip(k - 1) =~= ds.skip(k));
        lemma_val_split(ds.skip(1), k - 1);
        assert(ds.take(k)[0] == ds[0]);
        assert(val(ds.take(k)) == ds[0] + 10 * val(ds.take(k).skip(1)));
        assert(val(ds.skip(1)) == val(ds.take(k).skip(1)) + val(ds.skip(k)) * pow10((k - 1) as nat));
        assert(val(ds) == ds[0] + 10 * val(ds.skip(1)));
        assert(10 * (val(ds.take(k).skip(1)) + val(ds.skip(k)) * pow10((k - 1) as nat)) == 10 * val(
            ds.take(k).skip(1),
        ) + val(ds.skip(k)) * (10 * pow10((k - 1) as nat))) by (nonlinear_arith);
        assert(pow10(k as nat) == 10 * pow10((k - 1) as nat));
        assert(val(ds) == val(ds.take(k)) + val(ds.skip(k)) * (10 * pow10((k - 1) as nat)));
    }
}

/// Builds the digit vector of a machine word.
fn digits_from_u64(m: u64) -> (r: Vec<u8>)
    ensures
        digits_ok(r@),
        val(r@) == m,
        r@.len() > 0,
        r@.last() != 0 || r@ =~= seq![0u8],
{
    let mut ds: Vec<u8> = Vec::new();
    if m == 0 {
        ds.push(0);
        assert(ds@ =~= seq![0u8]);
        assert(val(ds@) == 0) by {
            assert(ds@.skip(1) =~= Seq::<u8>::empty());
            assert(val(ds@.skip(1)) == 0);
        }
        return ds;
    }
    let mut cur: u64 = m;
    proof {
        assert(val(ds@) == 0);
        assert(pow10(0) == 1);
    }
    while cur > 0
        invariant
            digits_ok(ds@),
            val(ds@) + (cur as nat) * pow10(ds@.len()) == m,
            cur == 0 ==> ds@.len() > 0,
            cur > 0 || ds@.len() == 0 || ds@.last() != 0,
            ds@.len() > 0 || cur > 0,
        decreases cur,
    {
        let d: u8 = (cur % 10) as u8;
        let ghost prev_cur = cur;
        proof {
            lemma_val_push(ds@, d);
            assert((cur as nat) * pow10(ds@.len()) == (d + 10 * (cur / 10)) as nat * pow10(
                ds@.len(),
            ));
            assert((d + 10 * (cur / 10)) as nat * pow10(ds@.len()) == d * pow10(ds@.len()) + (cur
                / 10) as nat * (10 * pow10(ds@.len()))) by (nonlinear_arith);
        }
        ds.push(d);
        cur = cur / 10;
        proof {
            if cur == 0 {
                assert(prev_cur < 10);
                assert(d == prev_cur);
                assert(ds@.last() == d);
            }
        }
    }
    ds
}

/// Doubles the value of a digit vector.
fn times2(ds: &Vec<u8>) -> (r: Vec<u8>)
    requires
        digits_ok(ds@),
    ensures
        digits_ok(r@),
        val(r@) == 2 * val(ds@),
        r@.len() >= ds@.len(),
{
    let n = ds.len();
    let mut out: Vec<u8> = Vec::new();
    let mut carry: u8 = 0;
    proof {
        assert(ds@.take(0) =~= Seq::<u8>::empty());
        assert(out@.take(0) =~= Seq::<u8>::empty());
    }
    let mut i: usize = 0;
    while i < n
        invariant
            i <= n,
            n == ds@.len(),
            digits_ok(ds@),
            digits_ok(out@),
            out@.len() == i,
            carry < 2,
            val(out@) + carry * pow10(i as nat) == 2 * val(ds@.take(i as int)),
        decreases n - i,
    {
        let t: u8 = 2 * ds[i] + carry;
        proof {
            let p = pow10(i as nat);
            lemma_val_push(out@, t % 10);
            lemma_val_take_succ(ds@, i as int);
            assert(pow10((i + 1) as nat) == 10 * p);
            assert(2 * val(ds@.take(i as int + 1)) == 2 * val(ds@.take(i as int)) + 2 * (
            ds@[i as int] * p)) by (nonlinear_arith)
                requires
                    val(ds@.take(i as int + 1)) == val(ds@.take(i as int)) + ds@[i as int] * p,
            ;
            assert(t * p == (t % 10) * p + (t / 10) * (10 * p)) by (nonlinear_arith);
            assert(t * p == 2 * (ds@[i as int] * p) + carry * p) by (nonlinear_arith)
                requires
                    t == 2 * ds@[i as int] + carry,
            ;
        }
        out.push(t % 10);
        carry = t / 10;
        i += 1;
    }
    proof {
        assert(ds@.take(n as int) =~= ds@);
    }
    if carry > 0 {
        proof {
            lemma_val_push(out@, carry);
        }
        out.push(carry);
    }
    out
}

/// Quintuples the value of a digit vector.
fn times5(ds: &Vec<u8>) -> (r: Vec<u8>)
    requires
        digits_ok(ds@),
    ensures
        digits_ok(r@),
        val(r@) == 5 * val(ds@),
        r@.len() >= ds@.len(),
{
    let n = ds.len();
    let mut out: Vec<u8> = Vec::new();
    let mut carry: u8 = 0;
    proof {
        assert(ds@.take(0) =~= Seq::<u8>::empty());
        assert(out@.take(0) =~= Seq::<u8>::empty());
    }
    let mut i: usize = 0;
    while i < n
        invariant
            i <= n,
            n == ds@.len(),
            digits_ok(ds@),
            digits_ok(out@),
            out@.len() == i,
            carry < 5,
            val(out@) + carry * pow10(i as nat) == 5 * val(ds@.take(i as int)),
        decreases n - i,
    {
        let t: u8 = 5 * ds[i] + carry;
        proof {
            let p = pow10(i as nat);
            lemma_val_push(out@, t % 10);
            lemma_val_take_succ(ds@, i as int);
            assert(pow10((i + 1) as nat) == 10 * p);
            assert(5 * val(ds@.take(i as int + 1)) == 5 * val(ds@.take(i as int)) + 5 * (
            ds@[i as int] * p)) by (nonlinear_arith)
                requires
                    val(ds@.take(i as int + 1)) == val(ds@.take(i as int)) + ds@[i as int] * p,
            ;
            assert(t * p == (t % 10) * p + (t / 10) * (10 * p)) by (nonlinear_arith);
            assert(t * p == 5 * (ds@[i as int] * p) + carry * p) by (nonlinear_arith)
                requires
                    t == 5 * ds@[i as int] + carry,
            ;
        }
        out.push(t % 10);
        carry = t / 10;
        i += 1;
    }
    proof {
        assert(ds@.take(n as int) =~= ds@);
    }
    if carry > 0 {
        proof {
            lemma_val_push(out@, carry);
        }
        out.push(carry);
    }
    out
}

/// Scales a digit vector by two to the `e`.
fn scale_pow2(ds: Vec<u8>, e: u64) -> (r: Vec<u8>)
    requires
        digits_ok(ds@),
        ds@.len() > 0,
    ensures
        digits_ok(r@),
        val(r@) == val(ds@) * pow2(e as nat),
        r@.len() > 0,
{
    let mut cur = ds;
    let ghost base = val(cur@);
    proof {
        vstd::arithmetic::power2::lemma2_to64();
        assert(base * pow2(0) == base) by (nonlinear_arith)
            requires
                pow2(0) == 1,
        ;
    }
    let mut i: u64 = 0;
    while i < e
        invariant
            i <= e,
            digits_ok(cur@),
            cur@.len() > 0,
            val(cur@) == base * pow2(i as nat),
        decreases e - i,
    {
        proof {
            lemma_pow2_unfold((i + 1) as nat);
            assert(base * pow2((i + 1) as nat) == 2 * (base * pow2(i as nat))) by (nonlinear_arith)
                requires
                    pow2((i + 1) as nat) == 2 * pow2(i as nat),
            ;
        }
        cur = times2(&cur);
        i += 1;
    }
    cur
}

/// Scales a digit vector by five to the `k`.
fn scale_pow5(ds: Vec<u8>, k: u64) -> (r: Vec<u8>)
    requires
        digits_ok(ds@),
        ds@.len() > 0,
    ensures
        digits_ok(r@),
        val(r@) == val(ds@) * pow5(k as nat),
        r@.len() > 0,
{
    let mut cur = ds;
    let ghost base = val(cur@);
    proof {
        assert(pow5(0) == 1);
        assert(base * pow5(0) == base) by (nonlinear_arith)
            requires
                pow5(0) == 1,
        ;
    }
    let mut i: u64 = 0;
    while i < k
        invariant
            i <= k,
            digits_ok(cur@),
            cur@.len() > 0,
            val(cur@) == base * pow5(i as nat),
        decreases k - i,
    {
        proof {
            assert(base * pow5((i + 1) as nat) == 5 * (base * pow5(i as nat))) by (nonlinear_arith)
                requires
                    pow5((i + 1) as nat) == 5 * pow5(i as nat),
            ;
        }
        cur = times5(&cur);
        i += 1;
    }
    cur
}

/// Drops top zero digits, leaving the value unchanged and the top digit set
/// (a single zero digit stands for the value zero).
fn trim_top(ds: &mut Vec<u8>)
    requires
        digits_ok(old(ds)@),
        old(ds)@.len() > 0,
    ensures
        digits_ok(final(ds)@),
        val(final(ds)@) == val(old(ds)@),
        final(ds)@.len() > 0,
        final(ds)@.last() != 0 || final(ds)@ =~= seq![0u8],
{
    let mut done = false;
    while !done
        invariant
            digits_ok(ds@),
            ds@.len() > 0,
            val(ds@) == val(old(ds)@),
            done ==> ds@.last() != 0 || ds@.len() == 1,
        decreases ds@.len() + (if done {
            0int
        } else {
            1int
        }),
    {
        if ds.len() > 1 {
            let last = ds[ds.len() - 1];
            if last == 0 {
                proof {
                    lemma_val_push(ds@.drop_last(), 0);
                    assert(ds@.drop_last().push(0) =~= ds@);
                }
                ds.pop();
            } else {
                done = true;
            }
        } else {
            done = true;
        }
    }
    proof {
        if ds@.last() == 0 {
            assert(ds@ =~= seq![0u8]);
        }
    }
}

/// Renders the digits of `ds` from position `lo` up, most significant first,
/// as the decimal numeral of their value.
fn push_digits_msd(out: &mut Vec<char>, ds: &Vec<u8>, lo: usize)
    requires
        digits_ok(ds@),
        lo < ds@.len(),
        ds@.last() != 0 || ds@.len() == lo + 1,
    ensures
        final(out)@ == old(out)@ + dec_of(val(ds@.skip(lo as int))),
    decreases ds@.len() - lo,
{
    let n = ds.len();
    let ghost s = ds@.skip(lo as int);
    proof {
        assert(s[0] == ds@[lo as int]);
        assert(s.skip(1) =~= ds@.skip(lo as int + 1));
    }
    if lo < n - 1 {
        proof {
            assert(ds@.skip(lo as int + 1).last() == ds@.last());
            lemma_val_pos(ds@.skip(lo as int + 1));
            assert(val(s) == s[0] + 10 * val(s.skip(1)));
            assert(val(s) >= 10);
        }
        push_digits_msd(out, ds, lo + 1);
        crate::fmt::push_dec_digit(out, ds[lo]);
        proof {
            assert(val(s) % 10 == ds@[lo as int] && val(s) / 10 == val(s.skip(1))) by {
                lemma_fundamental_div_mod_converse(
                    val(s) as int,
                    10,
                    val(s.skip(1)) as int,
                    ds@[lo as int] as int,
                );
            }
            assert(final(out)@ =~= old(out)@ + dec_of(val(s)));
        }
    } else {
        proof {
            assert(s =~= seq![ds@[lo as int]]);
            assert(val(s) == ds@[lo as int] + 10 * val(s.skip(1)));
            assert(s.skip(1) =~= Seq::<u8>::empty());
        }
        let c = crate::fmt::push_dec_digit(out, ds[lo]);
        proof {
            assert(final(out)@ =~= old(out)@ + dec_of(val(s)));
        }
    }
}

// ---------------------------------------------------------------------------
// Fraction digits
// ---------------------------------------------------------------------------

/// Ten to the `k` is positive.
proof fn lemma_pow10_pos(k: nat)
    ensures
        pow10(k) >= 1,
    decreases k,
{
    if k > 0 {
        lemma_pow10_pos((k - 1) as nat);
    }
}

/// Ten to the `k` grows with `k`.
proof fn lemma_pow10_mono(a: nat, b: nat)
    requires
        a <= b,
    ensures
        pow10(a) <= pow10(b),
    decreases b,
{
    if a < b {
        lemma_pow10_mono(a, (b - 1) as nat);
        lemma_pow10_pos((b - 1) as nat);
    }
}

/// The `k` lowest decimal digits of `f`, most significant first, zero-padded
/// to exactly `k` characters.
pub open spec fn frac_all(f: nat, k: nat) -> Seq<char>
    decreases k,
{
    if k == 0 {
        Seq::empty()
    } else {
        frac_all(f / 10, (k - 1) as nat) + seq![dec_digit(f % 10)]
    }
}

/// Drops the trailing zero characters.
pub open spec fn trim_zeros(s: Seq<char>) -> Seq<char>
    decreases s.len(),
{
    if s.len() > 0 && s.last() == '0' {
        trim_zeros(s.drop_last())
    } else {
        s
    }
}

proof fn lemma_frac_all_len(f: nat, k: nat)
    ensures
        frac_all(f, k).len() == k,
    decreases k,
{
    if k > 0 {
        lemma_frac_all_len(f / 10, (k - 1) as nat);
    }
}

proof fn lemma_frac_all_index(f: nat, k: nat, j: int)
    requires
        0 <= j < k,
    ensures
        frac_all(f, k)[j] == dec_digit((f / pow10((k - 1 - j) as nat)) % 10),
    decreases k,
{
    lemma_frac_all_len(f / 10, (k - 1) as nat);
    if j == k - 1 {
        assert(frac_all(f, k)[j] == dec_digit(f % 10));
        assert(pow10(0) == 1);
        assert(f / 1 == f);
    } else {
        lemma_frac_all_index(f / 10, (k - 1) as nat, j);
        assert(frac_all(f, k)[j] == frac_all(f / 10, (k - 1) as nat)[j]);
        lemma_pow10_pos((k - 2 - j) as nat);
        lemma_div_denominator(f as int, 10, pow10((k - 2 - j) as nat) as int);
        assert(pow10((k - 1 - j) as nat) == 10 * pow10((k - 2 - j) as nat));
    }
}

/// Where the characters past position `n` are all zeros and the one before
/// `n` is not, trimming keeps exactly the first `n`.
proof fn lemma_trim_take(s: Seq<char>, n: int)
    requires
        0 <= n <= s.len(),
        forall|j: int| n <= j < s.len() ==> s[j] == '0',
        n > 0 ==> s[n - 1] != '0',
    ensures
        trim_zeros(s) == s.take(n),
    decreases s.len(),
{
    if s.len() == n {
        assert(s.take(n) =~= s);
    } else {
        assert(s.last() == '0');
        assert(s.drop_last().take(n) =~= s.take(n));
        lemma_trim_take(s.drop_last(), n);
    }
}

/// The digit of a vector at position `i`, zero past its end.
pub open spec fn digit_at(ds: Seq<u8>, i: int) -> u8 {
    if 0 <= i < ds.len() {
        ds[i]
    } else {
        0
    }
}

/// The decimal digit of the value at position `i` is the vector's digit.
proof fn lemma_digit_extract(ds: Seq<u8>, i: int)
    requires
        digits_ok(ds),
        0 <= i,
    ensures
        (val(ds) / pow10(i as nat)) % 10 == digit_at(ds, i),
    decreases i,
{
    lemma_pow10_pos(i as nat);
    if ds.len() == 0 {
        assert(val(ds) == 0);
        assert(0int / pow10(i as nat) as int == 0) by {
            lemma_fundamental_div_mod_converse(0, pow10(i as nat) as int, 0, 0);
        }
    } else if i == 0 {
        assert(val(ds) == (ds[0] + 10 * val(ds.skip(1))) as nat);
        assert(val(ds) / 1 == val(ds));
        lemma_fundamental_div_mod_converse(val(ds) as int, 10, val(ds.skip(1)) as int, ds[0] as int);
        assert(pow10(0) == 1);
    } else {
        assert(digits_ok(ds.skip(1)));
        lemma_digit_extract(ds.skip(1), i - 1);
        assert(val(ds) == (ds[0] + 10 * val(ds.skip(1))) as nat);
        lemma_fundamental_div_mod_converse(val(ds) as int, 10, val(ds.skip(1)) as int, ds[0] as int);
        lemma_pow10_pos((i - 1) as nat);
        lemma_div_denominator(val(ds) as int, 10, pow10((i - 1) as nat) as int);
        assert(pow10(i as nat) == 10 * pow10((i - 1) as nat));
        assert(digit_at(ds.skip(1), i - 1) == digit_at(ds, i));
    }
}

/// The fraction part of a numeral: a point and the `k` fraction digits of
/// `f`, trailing zeros dropped — or nothing where every digit is zero.
pub open spec fn frac_text_dec(f: nat, k: nat) -> Seq<char> {
    if trim_zeros(frac_all(f, k)).len() == 0 {
        Seq::empty()
    } else {
        seq!['.'] + trim_zeros(frac_all(f, k))
    }
}

/// The value of the lowest `k` digits of a vector: the whole value where
/// the vector is shorter than `k`.
pub open spec fn low_val(ds: Seq<u8>, k: int) -> nat {
    if k <= ds.len() {
        val(ds.take(k))
    } else {
        val(ds)
    }
}

/// The low digits of a vector read back out of its low value.
proof fn lemma_low_digit(ds: Seq<u8>, k: int, j: int)
    requires
        digits_ok(ds),
        0 <= j < k,
    ensures
        (low_val(ds, k) / pow10(j as nat)) % 10 == digit_at(ds, j),
{
    if k <= ds.len() {
        assert(digits_ok(ds.take(k)));
        lemma_digit_extract(ds.take(k), j);
        assert(digit_at(ds.take(k), j) == digit_at(ds, j));
    } else {
        lemma_digit_extract(ds, j);
    }
}

fn vec_digit_at(ds: &Vec<u8>, i: usize) -> (r: u8)
    ensures
        r == digit_at(ds@, i as int),
{
    if i < ds.len() {
        ds[i]
    } else {
        0
    }
}

/// Appends the fraction part of a numeral: the value of the lowest `k`
/// digits of `ds`, scaled by ten to the minus `k`.
#[verifier::loop_isolation(false)]
fn push_frac(out: &mut Vec<char>, ds: &Vec<u8>, k: usize)
    requires
        digits_ok(ds@),
    ensures
        final(out)@ == old(out)@ + frac_text_dec(low_val(ds@, k as int), k as nat),
{
    let ghost fval = low_val(ds@, k as int);
    proof {
        lemma_frac_all_len(fval, k as nat);
    }
    // the digits of the fraction value are the vector's low digits
    assert forall|j: int| 0 <= j < k implies (fval / pow10(j as nat)) % 10 == digit_at(ds@, j) by {
        lemma_low_digit(ds@, k as int, j);
    }
    // find the least fraction position whose digit is set
    let mut t: usize = k;
    let mut i: usize = k;
    while i > 0
        invariant
            0 <= i <= k,
            i <= t <= k,
            t == k ==> forall|j: int| i <= j < k ==> digit_at(ds@, j) == 0,
            t < k ==> digit_at(ds@, t as int) != 0 && (forall|j: int|
                i <= j < t ==> digit_at(ds@, j) == 0),
        decreases i,
    {
        let d = vec_digit_at(ds, i - 1);
        if d != 0 {
            t = i - 1;
        }
        i -= 1;
    }
    if t == k {
        // every fraction digit is zero: no fraction part at all
        proof {
            assert forall|j: int| 0 <= j < k implies frac_all(fval, k as nat)[j] == '0' by {
                lemma_frac_all_index(fval, k as nat, j);
                assert(digit_at(ds@, (k - 1 - j) as int) == 0);
            }
            lemma_trim_take(frac_all(fval, k as nat), 0);
            assert(frac_all(fval, k as nat).take(0) =~= Seq::<char>::empty());
        }
        return ;
    }
    proof {
        assert forall|j: int| k - t <= j < k implies frac_all(fval, k as nat)[j] == '0' by {
            lemma_frac_all_index(fval, k as nat, j);
            assert(digit_at(ds@, (k - 1 - j) as int) == 0);
        }
        lemma_frac_all_index(fval, k as nat, k - t - 1);
        assert(frac_all(fval, k as nat)[k - t - 1] == dec_digit(digit_at(ds@, t as int) as nat));
        assert(frac_all(fval, k as nat)[k - t - 1] != '0');
        lemma_trim_take(frac_all(fval, k as nat), k - t);
    }
    out.push('.');
    let ghost mid = out@;
    let n = k - t;
    let mut c: usize = 0;
    proof {
        assert(frac_all(fval, k as nat).take(0) =~= Seq::<char>::empty());
        assert(out@ =~= mid + frac_all(fval, k as nat).take(0));
    }
    while c < n
        invariant
            0 <= c <= n,
            out@ == mid + frac_all(fval, k as nat).take(c as int),
        decreases n - c,
    {
        let d = vec_digit_at(ds, k - 1 - c);
        proof {
            lemma_frac_all_index(fval, k as nat, c as int);
        }
        crate::fmt::push_dec_digit(out, d);
        proof {
            assert(frac_all(fval, k as nat).take(c as int + 1) =~= frac_all(
                fval,
                k as nat,
            ).take(c as int).push(frac_all(fval, k as nat)[c as int]));
            assert(out@ =~= mid + frac_all(fval, k as nat).take(c as int + 1));
        }
        c += 1;
    }
    proof {
        assert(frac_all(fval, k as nat).take(n as int) == trim_zeros(frac_all(fval, k as nat)));
        assert(final(out)@ =~= old(out)@ + frac_text_dec(fval, k as nat));
    }
}

// ---------------------------------------------------------------------------
// Whole numerals
// ---------------------------------------------------------------------------

/// The exact decimal numeral of `(-1)^neg * m * 2^e`: for a non-negative
/// exponent the integer numeral, otherwise integer and fraction parts of
/// `m * 5^k / 10^k` with `k = -e`, trailing fraction zeros dropped. The
/// numeral denotes precisely that value.
pub open spec fn decimal_number(neg: bool, m: nat, e: int) -> Seq<char> {
    let sign: Seq<char> = if neg {
        seq!['-']
    } else {
        Seq::empty()
    };
    if e >= 0 {
        sign + dec_of(m * pow2(e as nat))
    } else {
        let k = (0 - e) as nat;
        let scaled = m * pow5(k);
        sign + dec_of(scaled / pow10(k)) + frac_text_dec(scaled % pow10(k), k)
    }
}

/// Appends the exact decimal numeral of `(-1)^neg * m * 2^e`.
pub fn push_decimal_number(out: &mut Vec<char>, neg: bool, m: u64, e: i64)
    requires
        -1100 <= e <= 1100,
    ensures
        final(out)@ == old(out)@ + decimal_number(neg, m as nat, e as int),
{
    if neg {
        out.push('-');
    }
    if e >= 0 {
        let ds0 = digits_from_u64(m);
        let mut ds = scale_pow2(ds0, e as u64);
        trim_top(&mut ds);
        proof {
            assert(ds@.skip(0) =~= ds@);
            if !(ds@.last() != 0) {
                assert(ds@ =~= seq![0u8]);
                assert(ds@.len() == 1);
            }
        }
        push_digits_msd(out, &ds, 0);
        assert(final(out)@ =~= old(out)@ + decimal_number(neg, m as nat, e as int));
    } else {
        let k64: u64 = (0 - e) as u64;
        let k: usize = k64 as usize;
        let ds0 = digits_from_u64(m);
        let mut ds = scale_pow5(ds0, k64);
        trim_top(&mut ds);
        let ghost scaled = val(ds@);
        proof {
            lemma_pow10_pos(k as nat);
            if k <= ds@.len() {
                lemma_val_split(ds@, k as int);
                assert(digits_ok(ds@.take(k as int)));
                lemma_val_upper(ds@.take(k as int));
                lemma_fundamental_div_mod_converse(
                    scaled as int,
                    pow10(k as nat) as int,
                    val(ds@.skip(k as int)) as int,
                    val(ds@.take(k as int)) as int,
                );
            } else {
                lemma_val_upper(ds@);
                lemma_pow10_mono(ds@.len(), k as nat);
                lemma_fundamental_div_mod_converse(
                    scaled as int,
                    pow10(k as nat) as int,
                    0,
                    scaled as int,
                );
            }
            assert(scaled % pow10(k as nat) == low_val(ds@, k as int));
        }
        if k < ds.len() {
            proof {
                assert(ds@.last() != 0 || ds@.len() == k + 1) by {
                    if !(ds@.last() != 0) {
                        assert(ds@ =~= seq![0u8]);
                    }
                }
            }
            push_digits_msd(out, &ds, k);
        } else {
            proof {
                if k <= ds@.len() {
                    assert(ds@.skip(k as int) =~= Seq::<u8>::empty());
                    assert(val(ds@.skip(k as int)) == 0);
                }
                assert(scaled / pow10(k as nat) == 0);
            }
            out.push('0');
            proof {
                assert(dec_of(0) =~= seq![dec_digit(0)]);
            }
        }
        push_frac(out, &ds, k);
        assert(final(out)@ =~= old(out)@ + decimal_number(neg, m as nat, e as int));
    }
}

// ---------------------------------------------------------------------------
// Numerals of floating-point bit patterns
// ---------------------------------------------------------------------------

/// The exact decimal numeral of the double-precision value with bit pattern
/// `bits`; `null`, as JSON has it, for the non-finite patterns.
pub open spec fn dec_f64_text(bits: u64) -> Seq<char> {
    let sign: u64 = bits / 0x8000_0000_0000_0000;
    let expf: u64 = (bits / 0x10_0000_0000_0000) % 0x800;
    let frac: u64 = bits % 0x10_0000_0000_0000;
    if expf == 0x7ff {
        "null"@
    } else if expf == 0 {
        decimal_number(sign == 1, frac as nat, -1074)
    } else {
        decimal_number(sign == 1, (0x10_0000_0000_0000 + frac) as nat, expf - 1075)
    }
}

/// The exact decimal numeral of the single-precision value with bit pattern
/// `bits`; `null` for the non-finite patterns. Widening to double is exact,
/// so this is also the numeral of the widened value.
pub open spec fn dec_f32_text(bits: u32) -> Seq<char> {
    let sign: u32 = bits / 0x8000_0000;
    let expf: u32 = (bits / 0x80_0000) % 0x100;
    let frac: u32 = bits % 0x80_0000;
    if expf == 0xff {
        "null"@
    } else if expf == 0 {
        decimal_number(sign == 1, frac as nat, -149)
    } else {
        decimal_number(sign == 1, (0x80_0000 + frac) as nat, expf - 150)
    }
}

/// Appends the exact decimal numeral of a double-precision bit pattern.
pub fn push_dec_f64(out: &mut Vec<char>, bits: u64)
    ensures
        final(out)@ == old(out)@ + dec_f64_text(bits),
{
    let sign: u64 = bits / 0x8000_0000_0000_0000;
    let expf: u64 = (bits / 0x10_0000_0000_0000) % 0x800;
    let frac: u64 = bits % 0x10_0000_0000_0000;
    if expf == 0x7ff {
        crate::fmt::push_chars(out, "null");
    } else if expf == 0 {
        push_decimal_number(out, sign == 1, frac, -1074);
    } else {
        push_decimal_number(out, sign == 1, 0x10_0000_0000_0000 + frac, (expf as i64) - 1075);
    }
}

/// Appends the exact decimal numeral of a single-precision bit pattern.
pub fn push_dec_f32(out: &mut Vec<char>, bits: u32)
    ensures
        final(out)@ == old(out)@ + dec_f32_text(bits),
{
    let sign: u32 = bits / 0x8000_0000;
    let expf: u32 = (bits / 0x80_0000) % 0x100;
    let frac: u32 = bits % 0x80_0000;
    if expf == 0xff {
        crate::fmt::push_chars(out, "null");
    } else if expf == 0 {
        push_decimal_number(out, sign == 1, frac as u64, -149);
    } else {
        push_decimal_number(out, sign == 1, (0x80_0000 + frac) as u64, (expf as i64) - 150);
    }
}

/// The exact decimal numeral of a single-precision bit pattern, as a string.
pub fn f32_decimal(bits: u32) -> (r: String)
    ensures
        r@ == dec_f32_text(bits),
{
    let mut out: Vec<char> = Vec::new();
    push_dec_f32(&mut out, bits);
    crate::fmt::chars_to_string(&out)
}

/// The exact decimal numeral of a double-precision bit pattern, as a string.
pub fn f64_decimal(bits: u64) -> (r: String)
    ensures
        r@ == dec_f64_text(bits),
{
    let mut out: Vec<char> = Vec::new();
    push_dec_f64(&mut out, bits);
    crate::fmt::chars_to_string(&out)
}

} // verus!
