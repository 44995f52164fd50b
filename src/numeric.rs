use vstd::prelude::*;

use cosmwasm_std::{Decimal, Uint128};
use std::str::FromStr;

verus! {

/// Number of fractional digits of the remote chain's fixed-point decimals.
pub const DECIMAL_PLACES: u32 = 18;

/// `10^18`: the fixed-point scale.
pub const DECIMAL_FRACTIONAL: u128 = 1_000_000_000_000_000_000;

pub open spec fn is_digit(c: char) -> bool {
    '0' <= c && c <= '9'
}

/// The value of a string of decimal digits.
pub open spec fn digits_value(s: Seq<char>) -> int
    decreases s.len(),
{
    if s.len() == 0 {
        0
    } else {
        digits_value(s.drop_last()) * 10 + (s.last() as int - '0' as int)
    }
}

/// The unsigned integer written by `s`: an optional `+` and then one or more
/// decimal digits, whose value fits in 128 bits.
pub open spec fn unsigned_value(s: Seq<char>) -> Option<u128> {
    let d = if s.len() > 0 && s[0] == '+' { s.drop_first() } else { s };
    if d.len() > 0 && (forall|i: int| 0 <= i < d.len() ==> is_digit(#[trigger] d[i]))
        && digits_value(d) <= u128::MAX {
        Some(digits_value(d) as u128)
    } else {
        None
    }
}

/// Relies on `Uint128::from_str`, which parses `s` as a `u128`: an optional
/// `+` followed by decimal digits, in range.
#[verifier::external_body]
pub(crate) fn parse_u128(s: &str) -> (r: Option<u128>)
    ensures
        r == unsigned_value(s@),
{
    Uint128::from_str(s).ok().map(|u| u.u128())
}

/// A non-negative fixed-point decimal with 18 fractional digits; its value is
/// `atomics / 10^18`.
#[derive(Clone, Copy, Debug, PartialEq, Eq, Structural)]
pub struct Dec {
    pub atomics: u128,
}

/// The decimal whose value is the whole number `v`, if it is in range.
pub open spec fn whole_dec(v: u128) -> Option<Dec> {
    if v * DECIMAL_FRACTIONAL <= u128::MAX {
        Some(Dec { atomics: (v * DECIMAL_FRACTIONAL) as u128 })
    } else {
        None
    }
}

/// The decimal whose value is the whole number `v`, if it is in range.
pub fn dec_from_whole(v: u128) -> (r: Option<Dec>)
    ensures
        r == whole_dec(v),
{
    match v.checked_mul(DECIMAL_FRACTIONAL) {
        Some(a) => Some(Dec { atomics: a }),
        None => None,
    }
}

/// Relies on `Decimal::checked_mul`: the product of two decimals, truncated
/// to 18 places, or an error where it exceeds the range.
#[verifier::external_body]
fn decimal_mul(a: u128, b: u128) -> (r: Option<u128>)
    ensures
        r == (if a * b / DECIMAL_FRACTIONAL as int <= u128::MAX {
            Some((a * b / DECIMAL_FRACTIONAL as int) as u128)
        } else {
            None::<u128>
        }),
{
    Decimal::raw(a).checked_mul(Decimal::raw(b)).ok().map(|d| d.atomics().u128())
}

/// Relies on `Decimal::checked_div`: the quotient of two decimals, truncated
/// to 18 places, or an error where the divisor is zero or the quotient
/// exceeds the range.
#[verifier::external_body]
fn decimal_div(a: u128, b: u128) -> (r: Option<u128>)
    ensures
        r == (if b != 0 && a * DECIMAL_FRACTIONAL / b as int <= u128::MAX {
            Some((a * DECIMAL_FRACTIONAL / b as int) as u128)
        } else {
            None::<u128>
        }),
{
    Decimal::raw(a).checked_div(Decimal::raw(b)).ok().map(|d| d.atomics().u128())
}

/// The number of tokens that `shares` delegator shares stand for at a
/// validator holding `tokens` tokens against `delegator_shares` shares;
/// shares are fixed-point decimals with 18 places, tokens whole numbers.
/// This is `shares * tokens / delegator_shares`, truncated; `None` where a
/// step of the computation leaves the 128-bit range or the validator has
/// no shares.
pub open spec fn delegated_amount(shares: u128, tokens: u128, delegator_shares: u128) -> Option<u128> {
    if tokens * DECIMAL_FRACTIONAL <= u128::MAX && shares * tokens <= u128::MAX
        && delegator_shares != 0
        && shares * tokens * DECIMAL_FRACTIONAL / delegator_shares as int <= u128::MAX {
        Some((shares * tokens / delegator_shares as int) as u128)
    } else {
        None
    }
}

proof fn lemma_scaled_quotient(p: int, d: int)
    requires
        p >= 0,
        d > 0,
    ensures
        p * DECIMAL_FRACTIONAL / d / DECIMAL_FRACTIONAL as int == p / d,
{
    let f = DECIMAL_FRACTIONAL as int;
    vstd::arithmetic::div_mod::lemma_div_denominator(p * f, d, f);
    vstd::arithmetic::mul::lemma_mul_is_commutative(d, f);
    vstd::arithmetic::mul::lemma_mul_is_commutative(p, f);
    vstd::arithmetic::div_mod::lemma_div_multiples_vanish_quotient(f, p, d);
}

/// Computes [`delegated_amount`] with fixed-point decimal arithmetic.
pub fn delegated_tokens(shares: u128, tokens: u128, delegator_shares: u128) -> (r: Option<u128>)
    ensures
        r == delegated_amount(shares, tokens, delegator_shares),
{
    let tokens_dec = match dec_from_whole(tokens) {
        Some(d) => d.atomics,
        None => return None,
    };
    proof {
        let f = DECIMAL_FRACTIONAL as int;
        vstd::arithmetic::mul::lemma_mul_is_associative(shares as int, tokens as int, f);
        vstd::arithmetic::mul::lemma_mul_is_commutative(shares * tokens, f);
        vstd::arithmetic::div_mod::lemma_div_multiples_vanish(shares * tokens, f);
        assert(shares * (tokens * f) / f == shares * tokens);
    }
    let product = match decimal_mul(shares, tokens_dec) {
        Some(p) => p,
        None => return None,
    };
    assert(product == shares * tokens);
    let quotient = match decimal_div(product, delegator_shares) {
        Some(q) => q,
        None => return None,
    };
    proof {
        lemma_scaled_quotient(product as int, delegator_shares as int);
    }
    Some(quotient / DECIMAL_FRACTIONAL)
}

/// Where shares, tokens and delegator shares are one and the same number
/// `t`, the delegation stands for exactly `t` tokens.
pub proof fn equal_shares_give_all_tokens(t: u128)
    requires
        0 < t,
        t * DECIMAL_FRACTIONAL <= u128::MAX,
        t * t <= u128::MAX,
    ensures
        delegated_amount(t, t, t) == Some(t),
{
    let f = DECIMAL_FRACTIONAL as int;
    let ti = t as int;
    assert(ti * ti * f / ti == ti * f) by {
        vstd::arithmetic::mul::lemma_mul_is_associative(ti, ti, f);
        vstd::arithmetic::div_mod::lemma_div_multiples_vanish(ti * f, ti);
    };
    assert(ti * ti / ti == ti) by {
        vstd::arithmetic::mul::lemma_mul_is_commutative(ti, ti);
        vstd::arithmetic::div_mod::lemma_div_multiples_vanish(ti, ti);
    };
}

} // verus!
