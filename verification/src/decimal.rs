//! Fixed-precision decimal numbers.
//!
//! Quotes and monetary amounts are held as a sign, an unsigned mantissa and a
//! decimal scale: the value denoted is `mantissa / 10^scale`, negated when the
//! sign flag is set.  The mantissa is bounded by `2^96` and the scale by 28,
//! so every quote a response can carry is representable exactly.  Binary
//! floating point is never used: multiplying and rounding are integer
//! operations with a stated result, so conversion rounding is reproducible.

use vstd::prelude::*;

verus! {

/// Upper bound (exclusive) on a mantissa: `2^96`.
pub const MANT_LIMIT: u128 = 79228162514264337593543950336;

/// Largest representable scale (number of decimal places).
pub const MAX_SCALE: u32 = 28;

/// A signed fixed-point decimal: `mantissa / 10^scale`, negative when `neg`.
#[derive(Clone, Copy, Debug, PartialEq, Eq, Structural)]
pub struct Dec {
    /// Sign flag; never set when the mantissa is zero.
    pub neg: bool,
    /// Unsigned mantissa, below `MANT_LIMIT`.
    pub mant: u128,
    /// Decimal scale, at most `MAX_SCALE`.
    pub scale: u32,
}

/// Well-formedness of a decimal: bounded mantissa and scale, canonical zero.
pub open spec fn dec_wf(d: Dec) -> bool {
    &&& d.mant < MANT_LIMIT
    &&& d.scale <= MAX_SCALE
    &&& (d.mant == 0 ==> !d.neg)
}

/// The signed mantissa of a decimal, as a mathematical integer.
pub open spec fn dec_signed(d: Dec) -> int {
    if d.neg {
        -(d.mant as int)
    } else {
        d.mant as int
    }
}

/// `10^k`.
pub open spec fn pow10(k: nat) -> nat
    decreases k,
{
    if k == 0 {
        1
    } else {
        10 * pow10((k - 1) as nat)
    }
}

/// Round `x / d` to the nearest integer, ties to even (banker's rounding).
pub open spec fn round_half_even_div(x: int, d: int) -> int
    recommends
        x >= 0,
        d > 0,
{
    let q = x / d;
    let r = x % d;
    if 2 * r > d {
        q + 1
    } else if 2 * r < d {
        q
    } else if q % 2 == 0 {
        q
    } else {
        q + 1
    }
}

/// Build a decimal from an unsigned mantissa, keeping zero canonical.
pub open spec fn mk_dec(neg: bool, mant: u128, scale: u32) -> Dec {
    Dec { neg: neg && mant != 0, mant, scale }
}

/// The exact product of two decimals, rounded half-even to scale `p`.
///
/// `None` is the overflow outcome: the exact mantissa product does not fit in
/// 128 bits, the rounded mantissa reaches `MANT_LIMIT`, or `p` itself is not
/// a representable scale.
pub open spec fn spec_mul_round(a: Dec, b: Dec, p: u32) -> Option<Dec> {
    if p > MAX_SCALE {
        None
    } else {
        let prod = (a.mant as int) * (b.mant as int);
        if prod > u128::MAX {
            None
        } else {
            let s = a.scale + b.scale;
            let m = if s >= p {
                round_half_even_div(prod, pow10((s - p) as nat) as int)
            } else {
                prod * pow10((p - s) as nat)
            };
            if m >= MANT_LIMIT {
                None
            } else {
                Some(mk_dec(a.neg != b.neg, m as u128, p))
            }
        }
    }
}

pub proof fn lemma_pow10_pos(k: nat)
    ensures
        pow10(k) >= 1,
    decreases k,
{
    if k > 0 {
        lemma_pow10_pos((k - 1) as nat);
    }
}

pub proof fn lemma_pow10_mono(i: nat, j: nat)
    requires
        i <= j,
    ensures
        pow10(i) <= pow10(j),
    decreases j,
{
    if i < j {
        lemma_pow10_mono(i, (j - 1) as nat);
        lemma_pow10_pos((j - 1) as nat);
    }
}

pub proof fn lemma_pow10_39()
    ensures
        pow10(38) == 100000000000000000000000000000000000000,
        pow10(39) == 1000000000000000000000000000000000000000,
{
    reveal_with_fuel(pow10, 41);
}

/// `10^k` as a machine integer, for `k` small enough to fit.
pub fn pow10_u128(k: u32) -> (r: u128)
    requires
        k <= 38,
    ensures
        r == pow10(k as nat),
    decreases k,
{
    if k == 0 {
        1
    } else {
        let sub = pow10_u128(k - 1);
        proof {
            lemma_pow10_mono((k - 1) as nat, 37);
            lemma_pow10_39();
        }
        sub * 10
    }
}

/// Multiply two decimals exactly, then round half-even to scale `p`.
///
/// Returns `None` exactly when `spec_mul_round` does: on any overflow of the
/// 128-bit product, of the bounded mantissa, or of the scale.
pub fn dec_mul_round(a: &Dec, b: &Dec, p: u32) -> (r: Option<Dec>)
    requires
        dec_wf(*a),
        dec_wf(*b),
    ensures
        r == spec_mul_round(*a, *b, p),
        r is Some ==> dec_wf(r->0),
{
    if p > MAX_SCALE {
        return None;
    }
    let prod = match a.mant.checked_mul(b.mant) {
        Some(x) => x,
        None => {
            return None;
        },
    };
    let s: u32 = a.scale + b.scale;
    let neg = a.neg != b.neg;
    if s >= p {
        let k = s - p;
        if k >= 39 {
            proof {
                lemma_pow10_39();
                lemma_pow10_mono(39, k as nat);
                vstd::arithmetic::div_mod::lemma_basic_div(prod as int, pow10(k as nat) as int);
                vstd::arithmetic::div_mod::lemma_small_mod(prod as nat, pow10(k as nat));
            }
            Some(Dec { neg: false, mant: 0, scale: p })
        } else {
            let d = pow10_u128(k);
            proof {
                lemma_pow10_pos(k as nat);
                lemma_pow10_mono(k as nat, 38);
                lemma_pow10_39();
            }
            let q = prod / d;
            let r2 = prod % d;
            if q >= MANT_LIMIT {
                return None;
            }
            let m = if 2 * r2 > d {
                q + 1
            } else if 2 * r2 < d {
                q
            } else if q % 2 == 0 {
                q
            } else {
                q + 1
            };
            if m >= MANT_LIMIT {
                None
            } else {
                Some(Dec { neg: neg && m != 0, mant: m, scale: p })
            }
        }
    } else {
        let k = p - s;
        let pw = pow10_u128(k);
        match prod.checked_mul(pw) {
            None => {
                proof {
                    lemma_pow10_39();
                }
                None
            },
            Some(m) => {
                if m >= MANT_LIMIT {
                    None
                } else {
                    Some(Dec { neg: neg && m != 0, mant: m, scale: p })
                }
            },
        }
    }
}

} // verus!
