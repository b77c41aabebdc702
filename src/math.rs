use vstd::prelude::*;
use crate::errors::DegenError;
use crate::state::{Order, Side, BPS_DENOMINATOR, SHARE_MULTIPLIER, USDC_MULTIPLIER};

verus! {

/// `a / b` rounded up, for `a >= 0` and `b > 0`.
pub open spec fn ceil_div(a: int, b: int) -> int {
    (a + b - 1) / b
}

/// USDC owed for `size` shares at `price`, rounded up so that the protocol
/// never collects too little.
pub open spec fn share_cost(price: int, size: int) -> int {
    ceil_div(price * size, SHARE_MULTIPLIER as int)
}

/// Whether the rounded-up cost can be computed in 64 bits.
pub open spec fn share_cost_fits(price: int, size: int) -> bool {
    price * size + (SHARE_MULTIPLIER - 1) <= u64::MAX
}

/// A fee of `bps` basis points on `amount`, rounded down.
pub open spec fn fee_on(amount: int, bps: int) -> int {
    amount * bps / BPS_DENOMINATOR as int
}

/// Price per share of the contract an order pays for: a bid pays for the
/// outcome it names, an ask pays for the opposite outcome.
pub open spec fn collateral_price(side: Side, price: int) -> int {
    match side {
        Side::Bid => price,
        Side::Ask => USDC_MULTIPLIER - price,
    }
}

/// Collateral that an order of `size` at `price` locks.
pub open spec fn lock_amount(side: Side, price: int, size: int) -> int {
    share_cost(collateral_price(side, price), size)
}

/// What cancelling an order returns out of its locked collateral: all of it
/// when nothing was filled, nothing when it was filled completely, and the
/// unfilled share of it, rounded down, in between.
pub open spec fn refund_amount(locked: int, size: int, filled: int) -> int {
    if filled == 0 {
        locked
    } else if filled >= size {
        0
    } else {
        locked * (size - filled) / size
    }
}

pub proof fn lemma_mul_bound_u64(a: u64, b: u64)
    ensures
        0 <= a * b <= u64::MAX * u64::MAX,
{
    assert(0 <= a * b <= u64::MAX * u64::MAX) by (nonlinear_arith)
        requires
            a <= u64::MAX,
            b <= u64::MAX,
    ;
}

/// `ceil(price * size / 10^6)`, or `MathOverflow` where the sum that rounds
/// it up does not fit in 64 bits.
pub fn cost_for(price: u64, size: u64) -> (r: Result<u64, DegenError>)
    ensures
        share_cost_fits(price as int, size as int) ==> r == Ok::<u64, DegenError>(
            share_cost(price as int, size as int) as u64,
        ),
        share_cost_fits(price as int, size as int) ==> share_cost(price as int, size as int)
            <= u64::MAX,
        !share_cost_fits(price as int, size as int) ==> r == Err::<u64, DegenError>(
            DegenError::MathOverflow,
        ),
{
    proof {
        lemma_mul_bound_u64(price, size);
    }
    let product: u128 = (price as u128) * (size as u128);
    if product > (u64::MAX - (SHARE_MULTIPLIER - 1)) as u128 {
        return Err(DegenError::MathOverflow);
    }
    let rounded: u128 = (product + (SHARE_MULTIPLIER - 1) as u128) / SHARE_MULTIPLIER as u128;
    Ok(rounded as u64)
}

/// A fee of `bps` basis points on `amount`, rounded down; `MathOverflow`
/// where `amount * bps` does not fit in 64 bits.
pub fn fee_for(amount: u64, bps: u16) -> (r: Result<u64, DegenError>)
    ensures
        amount * bps <= u64::MAX ==> r == Ok::<u64, DegenError>(
            fee_on(amount as int, bps as int) as u64,
        ),
        amount * bps <= u64::MAX ==> fee_on(amount as int, bps as int) <= amount * bps,
        amount * bps > u64::MAX ==> r == Err::<u64, DegenError>(DegenError::MathOverflow),
{
    proof {
        lemma_mul_bound_u64(amount, bps as u64);
    }
    let product: u128 = (amount as u128) * (bps as u128);
    if product > u64::MAX as u128 {
        return Err(DegenError::MathOverflow);
    }
    Ok((product / BPS_DENOMINATOR as u128) as u64)
}

/// Collateral locked by an order: a bid locks the cost of the shares it
/// buys, an ask the cost of the opposite shares; both rounded up.
pub fn locked_amount_for(side: Side, price: u64, size: u64) -> (r: Result<u64, DegenError>)
    requires
        price <= USDC_MULTIPLIER,
    ensures
        share_cost_fits(collateral_price(side, price as int), size as int) ==> r == Ok::<
            u64,
            DegenError,
        >(lock_amount(side, price as int, size as int) as u64),
        !share_cost_fits(collateral_price(side, price as int), size as int) ==> r == Err::<
            u64,
            DegenError,
        >(DegenError::MathOverflow),
{
    match side {
        Side::Bid => cost_for(price, size),
        Side::Ask => cost_for(USDC_MULTIPLIER - price, size),
    }
}

/// The refund owed when `order` is cancelled.
pub fn refund_for(order: &Order) -> (r: u64)
    ensures
        r == refund_amount(
            order.locked_amount as int,
            order.size as int,
            order.filled_size as int,
        ),
        r <= order.locked_amount,
{
    if order.filled_size == 0 {
        order.locked_amount
    } else if order.filled_size >= order.size {
        0
    } else {
        let remaining: u64 = order.size - order.filled_size;
        let locked = order.locked_amount;
        let size = order.size;
        proof {
            lemma_mul_bound_u64(locked, remaining);
            assert((locked * remaining) / (size as int) <= locked) by (nonlinear_arith)
                requires
                    0 < remaining < size,
                    locked >= 0,
            ;
        }
        let scaled: u128 = (locked as u128) * (remaining as u128);
        (scaled / size as u128) as u64
    }
}

} // verus!
