use vstd::prelude::*;
use crate::errors::DegenError;
use crate::ledger::{Party, Transfer};
use crate::matching::{credit, credit_position, lemma_cost_bounds, within_cap};
use crate::math::{cost_for, fee_for, fee_on, lemma_mul_bound_u64, share_cost};
use crate::orders::{on_tick, price_in_range, size_in_range};
use crate::state::{
    trading_open, GlobalState, Key, Market, MarketStatus, Outcome, UserPosition, MAX_FEE_BPS,
    MAX_ORDER_SIZE, MAX_POSITION_SIZE, MAX_PRICE, MIN_ORDER_SIZE, MIN_PRICE, PRICE_TICK,
};

verus! {


/// The terms of a closing trade: the seller sells `size` shares of `outcome`
/// to the buyer at `price`.
#[derive(Clone, Copy, PartialEq, Eq, Debug, Structural)]
pub struct CloseTradeArgs {
    pub outcome: Outcome,
    pub price: u64,
    pub size: u64,
}

/// The records and balances a closing trade reads and writes. Both
/// positions must already belong to their traders.
#[derive(Clone, Copy, Debug)]
pub struct ExecuteClose {
    pub global_state: GlobalState,
    pub market_key: Key,
    pub market: Market,
    pub fee_recipient_amount: u64,
    pub buyer: Key,
    pub buyer_position: UserPosition,
    pub buyer_usdc_amount: u64,
    pub seller: Key,
    pub seller_position: UserPosition,
    pub seller_usdc_amount: u64,
}

/// What a closing trade reports.
#[derive(Clone, Copy, Debug)]
pub struct CloseExecuted {
    pub market: Key,
    pub buyer: Key,
    pub seller: Key,
    pub outcome: Outcome,
    pub price: u64,
    pub size: u64,
    pub transfer_amount: u64,
    pub fee: u64,
    pub seller_realized_pnl: i64,
}

/// What the buyer pays in all: the shares' cost, rounded up.
pub open spec fn close_transfer_amount(args: CloseTradeArgs) -> int {
    share_cost(args.price as int, args.size as int)
}

/// The part of the buyer's payment that goes to the fee recipient.
pub open spec fn close_fee(c: ExecuteClose, args: CloseTradeArgs) -> int {
    fee_on(close_transfer_amount(args), c.global_state.taker_fee_bps as int)
}

/// The seller's realized profit: the payment less the per-share cost basis
/// (rounded down) times the shares sold.
pub open spec fn sale_pnl(transfer_amount: int, cost_basis: int, shares: int, size: int) -> int {
    transfer_amount - (cost_basis / shares) * size
}

/// The part of the seller's cost basis that leaves with the shares sold,
/// rounded down.
pub open spec fn cost_reduction(cost_basis: int, size: int, shares: int) -> int {
    cost_basis * size / shares
}

pub open spec fn close_pnl(c: ExecuteClose, args: CloseTradeArgs) -> int {
    sale_pnl(
        close_transfer_amount(args),
        c.seller_position.cost_basis_of(args.outcome) as int,
        c.seller_position.shares_of(args.outcome) as int,
        args.size as int,
    )
}

/// Every counter and balance that a closing trade raises stays within its
/// type.
pub open spec fn close_fits(c: ExecuteClose, args: CloseTradeArgs) -> bool {
    let t = close_transfer_amount(args);
    let fee = close_fee(c, args);
    let pnl = close_pnl(c, args);
    &&& c.seller_usdc_amount + (t - fee) <= u64::MAX
    &&& c.fee_recipient_amount + fee <= u64::MAX
    &&& i64::MIN <= pnl <= i64::MAX
    &&& i64::MIN <= c.seller_position.realized_pnl + pnl <= i64::MAX
    &&& c.buyer_position.cost_basis_of(args.outcome) + t + fee <= u64::MAX
    &&& c.market.total_volume + t <= u64::MAX
    &&& c.market.total_trades + 1 <= u32::MAX
}

/// The first check that a closing trade fails, if it fails one.
pub open spec fn close_error(c: ExecuteClose, now: i64, args: CloseTradeArgs) -> Option<DegenError> {
    if c.buyer_position.owner@ != c.buyer@ || c.seller_position.owner@ != c.seller@ {
        Some(DegenError::Unauthorized)
    } else if c.global_state.paused {
        Some(DegenError::ProtocolPaused)
    } else if c.market.status != MarketStatus::Open {
        Some(DegenError::MarketNotOpen)
    } else if !trading_open(c.market, now) {
        Some(DegenError::MarketClosing)
    } else if c.buyer@ == c.seller@ {
        Some(DegenError::SelfTrade)
    } else if !price_in_range(args.price) {
        Some(DegenError::InvalidPrice)
    } else if !on_tick(args.price) {
        Some(DegenError::InvalidTickSize)
    } else if !size_in_range(args.size) {
        Some(DegenError::InvalidSize)
    } else if c.seller_position.shares_of(args.outcome) < args.size {
        Some(DegenError::InsufficientShares)
    } else if !within_cap(c.buyer_position.shares_of(args.outcome), args.size) {
        Some(DegenError::PositionLimitExceeded)
    } else if c.buyer_usdc_amount < close_transfer_amount(args) {
        Some(DegenError::InsufficientBalance)
    } else if !close_fits(c, args) {
        Some(DegenError::MathOverflow)
    } else {
        None
    }
}

/// Takes `size` shares of `outcome` out of a seller's position, with their
/// share of the cost basis, and books the sale's profit.
pub open spec fn debit(p: UserPosition, outcome: Outcome, size: u64, pnl: int) -> UserPosition {
    let shares = p.shares_of(outcome) as int;
    let basis = p.cost_basis_of(outcome) as int;
    let reduced = (basis - cost_reduction(basis, size as int, shares)) as u64;
    let realized = (p.realized_pnl + pnl) as i64;
    match outcome {
        Outcome::Yes => UserPosition {
            yes_shares: (shares - size) as u64,
            yes_cost_basis: reduced,
            realized_pnl: realized,
            ..p
        },
        Outcome::No => UserPosition {
            no_shares: (shares - size) as u64,
            no_cost_basis: reduced,
            realized_pnl: realized,
            ..p
        },
    }
}

/// The records and balances after a successful closing trade.
pub open spec fn close_state(c: ExecuteClose, args: CloseTradeArgs) -> ExecuteClose {
    let t = close_transfer_amount(args);
    let fee = close_fee(c, args);
    ExecuteClose {
        market: Market {
            total_volume: (c.market.total_volume + t) as u64,
            total_trades: (c.market.total_trades + 1) as u32,
            ..c.market
        },
        fee_recipient_amount: (c.fee_recipient_amount + fee) as u64,
        buyer_usdc_amount: (c.buyer_usdc_amount - t) as u64,
        seller_usdc_amount: (c.seller_usdc_amount + t - fee) as u64,
        buyer_position: credit(
            c.buyer_position,
            args.outcome == Outcome::Yes,
            args.size,
            (t + fee) as u64,
        ),
        seller_position: debit(c.seller_position, args.outcome, args.size, close_pnl(c, args)),
        ..c
    }
}

/// The buyer pays the seller the payment less the fee, and pays the fee to
/// the fee recipient; the vault takes no part.
pub open spec fn close_transfers(c: ExecuteClose, args: CloseTradeArgs) -> Seq<Transfer> {
    let t = close_transfer_amount(args);
    let fee = close_fee(c, args);
    let s1 = seq![Transfer { from: Party::Buyer, to: Party::Seller, amount: (t - fee) as u64 }];
    if fee > 0 {
        s1.push(Transfer { from: Party::Buyer, to: Party::FeeRecipient, amount: fee as u64 })
    } else {
        s1
    }
}

pub open spec fn close_event(c: ExecuteClose, args: CloseTradeArgs) -> CloseExecuted {
    CloseExecuted {
        market: c.market_key,
        buyer: c.buyer,
        seller: c.seller,
        outcome: args.outcome,
        price: args.price,
        size: args.size,
        transfer_amount: close_transfer_amount(args) as u64,
        fee: close_fee(c, args) as u64,
        seller_realized_pnl: close_pnl(c, args) as i64,
    }
}

fn shares_held(p: &UserPosition, outcome: Outcome) -> (r: u64)
    ensures
        r == p.shares_of(outcome),
{
    match outcome {
        Outcome::Yes => p.yes_shares,
        Outcome::No => p.no_shares,
    }
}

fn cost_basis_held(p: &UserPosition, outcome: Outcome) -> (r: u64)
    ensures
        r == p.cost_basis_of(outcome),
{
    match outcome {
        Outcome::Yes => p.yes_cost_basis,
        Outcome::No => p.no_cost_basis,
    }
}

proof fn lemma_sale_bounds(basis: int, size: int, shares: int)
    requires
        0 <= basis <= u64::MAX,
        0 < size <= shares,
    ensures
        0 <= (basis / shares) * size <= basis,
        0 <= cost_reduction(basis, size, shares) <= basis,
{
    assert(0 <= (basis / shares) * size <= basis) by (nonlinear_arith)
        requires
            0 <= basis,
            0 < size <= shares,
    ;
    assert(0 <= basis * size / shares <= basis) by (nonlinear_arith)
        requires
            0 <= basis,
            0 < size <= shares,
    ;
}

/// Executes a closing trade: the seller's existing shares pass to the buyer,
/// who pays `ceil(price * size / 10^6)`, less the taker fee to the seller
/// and the fee to the fee recipient. The seller's cost basis shrinks in
/// proportion and the sale's profit is booked; no pair is minted, so open
/// interest stays as it is. On failure nothing changes.
pub fn execute_close(ctx: &mut ExecuteClose, now: i64, args: CloseTradeArgs) -> (r: Result<
    (CloseExecuted, Vec<Transfer>),
    DegenError,
>)
    requires
        old(ctx).global_state.wf(),
    ensures
        match r {
            Ok((ev, ts)) => {
                &&& close_error(*old(ctx), now, args) is None
                &&& *final(ctx) == close_state(*old(ctx), args)
                &&& ev == close_event(*old(ctx), args)
                &&& ts@ == close_transfers(*old(ctx), args)
            },
            Err(e) => {
                &&& close_error(*old(ctx), now, args) == Some(e)
                &&& *final(ctx) == *old(ctx)
            },
        },
{
    if !ctx.buyer_position.owner.same(&ctx.buyer) || !ctx.seller_position.owner.same(&ctx.seller) {
        return Err(DegenError::Unauthorized);
    }
    if ctx.global_state.paused {
        return Err(DegenError::ProtocolPaused);
    }
    if ctx.market.status != MarketStatus::Open {
        return Err(DegenError::MarketNotOpen);
    }
    if !ctx.market.is_trading_open(now) {
        return Err(DegenError::MarketClosing);
    }
    if ctx.buyer.same(&ctx.seller) {
        return Err(DegenError::SelfTrade);
    }
    if args.price < MIN_PRICE || args.price > MAX_PRICE {
        return Err(DegenError::InvalidPrice);
    }
    if args.price % PRICE_TICK != 0 {
        return Err(DegenError::InvalidTickSize);
    }
    if args.size < MIN_ORDER_SIZE || args.size > MAX_ORDER_SIZE {
        return Err(DegenError::InvalidSize);
    }
    let seller_shares = shares_held(&ctx.seller_position, args.outcome);
    if seller_shares < args.size {
        return Err(DegenError::InsufficientShares);
    }
    let buyer_shares = shares_held(&ctx.buyer_position, args.outcome);
    if buyer_shares > MAX_POSITION_SIZE - args.size {
        return Err(DegenError::PositionLimitExceeded);
    }
    proof {
        lemma_cost_bounds(args.price as int, args.size as int);
        assert(args.price * args.size + 999_999 <= u64::MAX) by (nonlinear_arith)
            requires
                args.price <= MAX_PRICE,
                args.size <= MAX_ORDER_SIZE,
        ;
    }
    let transfer_amount = match cost_for(args.price, args.size) {
        Ok(t) => t,
        Err(_) => 0,
    };
    proof {
        assert(transfer_amount * ctx.global_state.taker_fee_bps <= u64::MAX) by (nonlinear_arith)
            requires
                transfer_amount <= MAX_ORDER_SIZE,
                ctx.global_state.taker_fee_bps <= MAX_FEE_BPS,
        ;
        assert((transfer_amount * ctx.global_state.taker_fee_bps) / 10_000 <= transfer_amount)
            by (nonlinear_arith)
            requires
                0 <= transfer_amount,
                0 <= ctx.global_state.taker_fee_bps <= MAX_FEE_BPS,
        ;
    }
    let fee = match fee_for(transfer_amount, ctx.global_state.taker_fee_bps) {
        Ok(f) => f,
        Err(_) => 0,
    };
    if ctx.buyer_usdc_amount < transfer_amount {
        return Err(DegenError::InsufficientBalance);
    }
    let seller_receives: u64 = transfer_amount - fee;
    let seller_basis = cost_basis_held(&ctx.seller_position, args.outcome);
    proof {
        lemma_sale_bounds(seller_basis as int, args.size as int, seller_shares as int);
        lemma_mul_bound_u64(seller_basis, args.size);
    }
    let cost_per_share: u64 = seller_basis / seller_shares;
    let basis_sold: u128 = cost_per_share as u128 * args.size as u128;
    let pnl_wide: i128 = transfer_amount as i128 - basis_sold as i128;
    let realized_wide: i128 = ctx.seller_position.realized_pnl as i128 + pnl_wide;
    let buyer_basis = cost_basis_held(&ctx.buyer_position, args.outcome);
    if ctx.seller_usdc_amount > u64::MAX - seller_receives || ctx.fee_recipient_amount > u64::MAX
        - fee || pnl_wide < i64::MIN as i128 || pnl_wide > i64::MAX as i128 || realized_wide
        < i64::MIN as i128 || realized_wide > i64::MAX as i128 || buyer_basis as u128
        + transfer_amount as u128 + fee as u128 > u64::MAX as u128 || ctx.market.total_volume
        > u64::MAX - transfer_amount || ctx.market.total_trades == u32::MAX {
        return Err(DegenError::MathOverflow);
    }
    // Every check has passed: apply the trade.

    let reduction: u64 = ((seller_basis as u128 * args.size as u128) / seller_shares as u128) as u64;
    let mut transfers: Vec<Transfer> = Vec::new();
    transfers.push(Transfer { from: Party::Buyer, to: Party::Seller, amount: seller_receives });
    if fee > 0 {
        transfers.push(Transfer { from: Party::Buyer, to: Party::FeeRecipient, amount: fee });
    }
    ctx.buyer_usdc_amount = ctx.buyer_usdc_amount - transfer_amount;
    ctx.seller_usdc_amount = ctx.seller_usdc_amount + seller_receives;
    ctx.fee_recipient_amount = ctx.fee_recipient_amount + fee;
    match args.outcome {
        Outcome::Yes => {
            ctx.seller_position.yes_shares = seller_shares - args.size;
            ctx.seller_position.yes_cost_basis = seller_basis - reduction;
        },
        Outcome::No => {
            ctx.seller_position.no_shares = seller_shares - args.size;
            ctx.seller_position.no_cost_basis = seller_basis - reduction;
        },
    }
    ctx.seller_position.realized_pnl = realized_wide as i64;
    credit_position(
        &mut ctx.buyer_position,
        args.outcome == Outcome::Yes,
        args.size,
        transfer_amount + fee,
    );
    ctx.market.total_volume = ctx.market.total_volume + transfer_amount;
    ctx.market.total_trades = ctx.market.total_trades + 1;
    let ev = CloseExecuted {
        market: ctx.market_key,
        buyer: ctx.buyer,
        seller: ctx.seller,
        outcome: args.outcome,
        price: args.price,
        size: args.size,
        transfer_amount,
        fee,
        seller_realized_pnl: pnl_wide as i64,
    };
    Ok((ev, transfers))
}


/// Every closing trade is at a price in [10000, 990000] for a size in
/// [1000, 100_000_000_000]; it leaves the buyer holding at most
/// 500_000_000_000 shares of the outcome, takes from the seller no more
/// shares or cost basis than it held, and keeps both positions within the
/// cap when they were.
pub proof fn lemma_closing_trade_within_limits(c: ExecuteClose, now: i64, args: CloseTradeArgs)
    requires
        close_error(c, now, args) is None,
    ensures
        price_in_range(args.price),
        on_tick(args.price),
        size_in_range(args.size),
        close_state(c, args).buyer_position.shares_of(args.outcome) <= MAX_POSITION_SIZE,
        close_state(c, args).buyer_position.shares_of(args.outcome) == c.buyer_position.shares_of(
            args.outcome,
        ) + args.size,
        close_state(c, args).seller_position.shares_of(args.outcome) == c.seller_position.shares_of(
            args.outcome,
        ) - args.size,
        close_state(c, args).seller_position.cost_basis_of(args.outcome)
            <= c.seller_position.cost_basis_of(args.outcome),
        c.buyer_position.wf() ==> close_state(c, args).buyer_position.wf(),
        c.seller_position.wf() ==> close_state(c, args).seller_position.wf(),
        close_state(c, args).market.open_interest == c.market.open_interest,
{
    let basis = c.seller_position.cost_basis_of(args.outcome) as int;
    let shares = c.seller_position.shares_of(args.outcome) as int;
    lemma_sale_bounds(basis, args.size as int, shares);
}

} // verus!
