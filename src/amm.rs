use vstd::prelude::*;

use crate::market::{ErrorCode, Market};

verus! {

/// Basis points in a whole (100%).
pub const BASIS_POINTS: u64 = 10000;

/// The price shown when both reserves are empty: an even split.
pub const EVEN_PRICE: u64 = 5000;

/// Shares issued for a bet of `amount` on `outcome`, by the constant-product
/// rule: the chosen reserve grows by `amount`, the other falls to
/// `floor(k / grown)`, and the fall is what the bettor receives.
pub open spec fn shares_out(m: Market, outcome: bool, amount: u64) -> Result<u64, ErrorCode> {
    let chosen = if outcome { m.virtual_yes_reserve } else { m.virtual_no_reserve };
    let other = if outcome { m.virtual_no_reserve } else { m.virtual_yes_reserve };
    let grown = chosen + amount;
    if grown > u64::MAX || grown == 0 {
        Err(ErrorCode::MathOverflow)
    } else if m.k_constant as int / grown >= other {
        Err(ErrorCode::InsufficientLiquidity)
    } else {
        Ok((other - m.k_constant as int / grown) as u64)
    }
}

/// The reserve sum used for display, saturated at the largest `u64`.
pub open spec fn reserve_total(a: u64, b: u64) -> int {
    if a + b > u64::MAX { u64::MAX as int } else { a + b }
}

/// The price of the side with `reserve`, in basis points of the reserve total.
pub open spec fn price_of(reserve: u64, other: u64) -> u64 {
    let total = reserve_total(reserve, other);
    if total == 0 {
        EVEN_PRICE
    } else {
        (reserve * BASIS_POINTS / total) as u64
    }
}

/// Shares a bet of `bet_amount` on `outcome` buys from the curve.
pub fn calculate_shares_out(market: &Market, outcome: bool, bet_amount: u64) -> (r: Result<
    u64,
    ErrorCode,
>)
    ensures
        r == shares_out(*market, outcome, bet_amount),
{
    let (chosen, other) = if outcome {
        (market.virtual_yes_reserve, market.virtual_no_reserve)
    } else {
        (market.virtual_no_reserve, market.virtual_yes_reserve)
    };
    let grown = match chosen.checked_add(bet_amount) {
        Some(g) => g,
        None => return Err(ErrorCode::MathOverflow),
    };
    if grown == 0 {
        return Err(ErrorCode::MathOverflow);
    }
    let rest = market.k_constant / grown;
    if rest >= other {
        return Err(ErrorCode::InsufficientLiquidity);
    }
    Ok(other - rest)
}

fn price_in_basis_points(reserve: u64, other: u64) -> (r: u64)
    ensures
        r == price_of(reserve, other),
        r <= BASIS_POINTS,
{
    let total = reserve.saturating_add(other);
    if total == 0 {
        return EVEN_PRICE;
    }
    proof {
        assert(reserve * 10000 <= u64::MAX * 10000) by (nonlinear_arith)
            requires
                reserve <= u64::MAX,
        ;
    }
    let scaled = reserve as u128 * BASIS_POINTS as u128;
    let q = scaled / total as u128;
    proof {
        assert(reserve <= total);
        assert((scaled as int) / (total as int) <= 10000) by (nonlinear_arith)
            requires
                scaled as int == reserve * 10000,
                reserve <= total,
                total > 0,
        ;
    }
    q as u64
}

/// Price of YES in basis points (5000 is an even chance).
pub fn get_yes_price(market: &Market) -> (r: u64)
    ensures
        r == price_of(market.virtual_yes_reserve, market.virtual_no_reserve),
        r <= BASIS_POINTS,
{
    price_in_basis_points(market.virtual_yes_reserve, market.virtual_no_reserve)
}

/// Price of NO in basis points (5000 is an even chance).
pub fn get_no_price(market: &Market) -> (r: u64)
    ensures
        r == price_of(market.virtual_no_reserve, market.virtual_yes_reserve),
        r <= BASIS_POINTS,
{
    price_in_basis_points(market.virtual_no_reserve, market.virtual_yes_reserve)
}

} // verus!
