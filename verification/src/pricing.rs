use vstd::prelude::*;
use vstd::arithmetic::power::{lemma_pow_increases, lemma_pow_positive, pow};
use crate::error::PreSaleError;

verus! {

/// Ten to the power `token_decimal`: the factor by which a whole number of tokens is scaled.
pub open spec fn decimal_scale(token_decimal: u64) -> int {
    pow(10, token_decimal as nat)
}

/// The tokens that `amount` of currency buys: the whole number of times that `token_price`
/// goes into `amount`, scaled by ten to the power `token_decimal`. There is none where the
/// price is zero, or where the scale or the scaled number does not fit in 64 bits.
pub open spec fn tokens_for(amount: u64, token_price: u64, token_decimal: u64) -> Option<u64> {
    if token_price == 0 || decimal_scale(token_decimal) > u64::MAX || (amount / token_price)
        * decimal_scale(token_decimal) > u64::MAX {
        None
    } else {
        Some(((amount / token_price) * decimal_scale(token_decimal)) as u64)
    }
}

/// `num_traits::checked_pow` on `u64`: `base` raised to `exp` where that fits in 64 bits,
/// `None` where it does not. It multiplies with `checked_mul` and squares only while part
/// of the exponent is left, so it gives `None` on no power that fits.
#[verifier::external_body]
fn checked_pow_u64(base: u64, exp: usize) -> (r: Option<u64>)
    ensures
        r == (if pow(base as int, exp as nat) <= u64::MAX {
            Some(pow(base as int, exp as nat) as u64)
        } else {
            None
        }),
{
    num_traits::checked_pow(base, exp)
}

/// Ten to the twentieth power is the first power of ten beyond 64 bits.
proof fn lemma_scale_beyond_u64(token_decimal: u64)
    requires
        token_decimal >= 20,
    ensures
        decimal_scale(token_decimal) > u64::MAX,
{
    reveal_with_fuel(pow, 21);
    assert(pow(10, 20) == 100_000_000_000_000_000_000int);
    lemma_pow_increases(10, 20, token_decimal as nat);
}

/// Where an amount buys tokens at all, their number is the whole quotient of amount and
/// price times the scale, exactly.
pub proof fn lemma_tokens_for_exact(amount: u64, token_price: u64, token_decimal: u64)
    ensures
        tokens_for(amount, token_price, token_decimal) matches Some(tokens) ==> tokens == (amount
            / token_price) * decimal_scale(token_decimal),
{
    if token_price != 0 {
        lemma_pow_positive(10, token_decimal as nat);
        assert((amount / token_price) * decimal_scale(token_decimal) >= 0) by (nonlinear_arith)
            requires
                amount / token_price >= 0,
                decimal_scale(token_decimal) > 0,
        ;
    }
}

/// Computes `tokens_for`, and reports as an overflow each case in which it has no value.
pub fn token_amount(amount: u64, token_price: u64, token_decimal: u64) -> (r: Result<
    u64,
    PreSaleError,
>)
    ensures
        r == (match tokens_for(amount, token_price, token_decimal) {
            Some(tokens) => Ok::<u64, PreSaleError>(tokens),
            None => Err(PreSaleError::ArithmeticOverflow),
        }),
        r matches Ok(tokens) ==> tokens == (amount / token_price) * decimal_scale(token_decimal),
{
    proof {
        lemma_tokens_for_exact(amount, token_price, token_decimal);
    }
    if token_decimal > usize::MAX as u64 {
        proof {
            lemma_scale_beyond_u64(token_decimal);
        }
        return Err(PreSaleError::ArithmeticOverflow);
    }
    proof {
        lemma_pow_positive(10, token_decimal as nat);
    }
    let scale: u64 = match checked_pow_u64(10, token_decimal as usize) {
        Some(scale) => scale,
        None => {
            return Err(PreSaleError::ArithmeticOverflow);
        },
    };
    let whole: u64 = match amount.checked_div(token_price) {
        Some(whole) => whole,
        None => {
            return Err(PreSaleError::ArithmeticOverflow);
        },
    };
    match whole.checked_mul(scale) {
        Some(tokens) => Ok(tokens),
        None => Err(PreSaleError::ArithmeticOverflow),
    }
}

} // verus!
