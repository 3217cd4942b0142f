//! The constant-product pricing engine.
//!
//! Pure arithmetic: given the reserve of the traded outcome token, the
//! reference-currency reserve and an input amount, compute how many tokens a
//! buyer is owed (`quote_mint`) or how much reference currency a seller is
//! owed (`quote_burn`). Divisions truncate toward zero, which favors the
//! pool over the trader by at most one unit per operation.

use vstd::prelude::*;
use crate::market::ErrorCode;

verus! {

/// True when the mint quote's intermediate products and sums fit in 64 bits.
pub open spec fn mint_quote_fits(amount_in: u64, outcome_reserve: u64, reference_reserve: u64) -> bool {
    outcome_reserve != 0 ==> {
        &&& amount_in * outcome_reserve <= u64::MAX
        &&& reference_reserve + amount_in <= u64::MAX
    }
}

/// True when the mint quote's divisor is nonzero (it is zero only when both
/// the reference reserve and the input amount are zero).
pub open spec fn mint_quote_defined(amount_in: u64, outcome_reserve: u64, reference_reserve: u64) -> bool {
    outcome_reserve != 0 ==> reference_reserve + amount_in > 0
}

/// The number of outcome tokens owed for `amount_in` units of reference
/// currency: one-for-one on a virgin pool side, otherwise the constant-product
/// step `floor(amount_in * outcome_reserve / (reference_reserve + amount_in))`.
pub open spec fn mint_quote(amount_in: u64, outcome_reserve: u64, reference_reserve: u64) -> int {
    if outcome_reserve == 0 {
        amount_in as int
    } else {
        (amount_in * outcome_reserve) / (reference_reserve + amount_in)
    }
}

/// True when the burn quote's intermediate products and sums fit in 64 bits.
pub open spec fn burn_quote_fits(amount_in: u64, outcome_reserve: u64, reference_reserve: u64) -> bool {
    reference_reserve != 0 ==> {
        &&& amount_in * reference_reserve <= u64::MAX
        &&& outcome_reserve + amount_in <= u64::MAX
    }
}

/// True when the burn quote's divisor is nonzero (it is zero only when both
/// the outcome reserve and the input amount are zero).
pub open spec fn burn_quote_defined(amount_in: u64, outcome_reserve: u64, reference_reserve: u64) -> bool {
    reference_reserve != 0 ==> outcome_reserve + amount_in > 0
}

/// The reference currency owed for burning `amount_in` outcome tokens:
/// nothing if the reference reserve is empty, otherwise
/// `floor(amount_in * reference_reserve / (outcome_reserve + amount_in))`.
pub open spec fn burn_quote(amount_in: u64, outcome_reserve: u64, reference_reserve: u64) -> int {
    if reference_reserve == 0 {
        0
    } else {
        (amount_in * reference_reserve) / (outcome_reserve + amount_in)
    }
}

/// Quote a purchase: how many outcome tokens `amount_in` units of reference
/// currency buy at the current reserves.
pub fn quote_mint(amount_in: u64, outcome_reserve: u64, reference_reserve: u64) -> (r: Result<u64, ErrorCode>)
    ensures
        r is Ok <==> mint_quote_fits(amount_in, outcome_reserve, reference_reserve)
            && mint_quote_defined(amount_in, outcome_reserve, reference_reserve),
        r matches Ok(v) ==> v == mint_quote(amount_in, outcome_reserve, reference_reserve),
        r matches Err(e) ==> e == (if !mint_quote_fits(amount_in, outcome_reserve, reference_reserve) {
            ErrorCode::ArithmeticOverflow
        } else {
            ErrorCode::DivisionUndefined
        }),
{
    if outcome_reserve == 0 {
        return Ok(amount_in);
    }
    let numerator = match amount_in.checked_mul(outcome_reserve) {
        Some(n) => n,
        None => {
            return Err(ErrorCode::ArithmeticOverflow);
        },
    };
    let denominator = match reference_reserve.checked_add(amount_in) {
        Some(d) => d,
        None => {
            return Err(ErrorCode::ArithmeticOverflow);
        },
    };
    if denominator == 0 {
        return Err(ErrorCode::DivisionUndefined);
    }
    Ok(numerator / denominator)
}

/// Quote a sale: how much reference currency burning `amount_in` outcome
/// tokens returns at the current reserves. The sale must not exceed the
/// outcome reserve.
pub fn quote_burn(amount_in: u64, outcome_reserve: u64, reference_reserve: u64) -> (r: Result<u64, ErrorCode>)
    ensures
        r is Ok <==> amount_in <= outcome_reserve
            && burn_quote_fits(amount_in, outcome_reserve, reference_reserve)
            && burn_quote_defined(amount_in, outcome_reserve, reference_reserve),
        r matches Ok(v) ==> v == burn_quote(amount_in, outcome_reserve, reference_reserve),
        r matches Err(e) ==> e == (if amount_in > outcome_reserve {
            ErrorCode::InsufficientLiquidity
        } else if !burn_quote_fits(amount_in, outcome_reserve, reference_reserve) {
            ErrorCode::ArithmeticOverflow
        } else {
            ErrorCode::DivisionUndefined
        }),
{
    if amount_in > outcome_reserve {
        return Err(ErrorCode::InsufficientLiquidity);
    }
    if reference_reserve == 0 {
        return Ok(0);
    }
    let numerator = match amount_in.checked_mul(reference_reserve) {
        Some(n) => n,
        None => {
            return Err(ErrorCode::ArithmeticOverflow);
        },
    };
    let denominator = match outcome_reserve.checked_add(amount_in) {
        Some(d) => d,
        None => {
            return Err(ErrorCode::ArithmeticOverflow);
        },
    };
    if denominator == 0 {
        return Err(ErrorCode::DivisionUndefined);
    }
    Ok(numerator / denominator)
}

/// A burn quote never exceeds the reference reserve: the pool can always
/// pay what `quote_burn` promises.
pub proof fn lemma_burn_quote_le_reference(amount_in: u64, outcome_reserve: u64, reference_reserve: u64)
    requires
        burn_quote_defined(amount_in, outcome_reserve, reference_reserve),
    ensures
        0 <= burn_quote(amount_in, outcome_reserve, reference_reserve) <= reference_reserve,
{
    if reference_reserve != 0 {
        let num = amount_in * reference_reserve;
        let den = outcome_reserve + amount_in;
        vstd::arithmetic::div_mod::lemma_div_pos_is_pos(num, den);
        assert(num <= den * (reference_reserve as int)) by (nonlinear_arith)
            requires
                num == amount_in * reference_reserve,
                den == outcome_reserve + amount_in,
        ;
        vstd::arithmetic::div_mod::lemma_multiply_divide_le(num, den, reference_reserve as int);
    }
}

/// A mint quote on a nonempty pool side never exceeds that side's reserve:
/// the buyer is granted tokens out of the tracked reserve, never more.
pub proof fn lemma_mint_quote_le_outcome_reserve(amount_in: u64, outcome_reserve: u64, reference_reserve: u64)
    requires
        mint_quote_defined(amount_in, outcome_reserve, reference_reserve),
        outcome_reserve != 0,
    ensures
        0 <= mint_quote(amount_in, outcome_reserve, reference_reserve) <= outcome_reserve,
{
    let num = amount_in * outcome_reserve;
    let den = reference_reserve + amount_in;
    vstd::arithmetic::div_mod::lemma_div_pos_is_pos(num, den);
    assert(num <= den * (outcome_reserve as int)) by (nonlinear_arith)
        requires
            num == amount_in * outcome_reserve,
            den == reference_reserve + amount_in,
    ;
    vstd::arithmetic::div_mod::lemma_multiply_divide_le(num, den, outcome_reserve as int);
}

} // verus!
