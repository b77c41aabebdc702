use vstd::prelude::*;
use crate::errors::DegenError;
use crate::ledger::{Party, Transfer};
use crate::math::{collateral_price, lock_amount, locked_amount_for, refund_amount, refund_for};
use crate::state::{
    trading_open, GlobalState, Key, Market, Order, OrderStatus, OrderType, Outcome, Side,
    MAX_ORDER_SIZE, MAX_PRICE, MIN_ORDER_SIZE, MIN_PRICE, PRICE_TICK, TRADING_CLOSE_BUFFER,
    USDC_MULTIPLIER,
};

verus! {

/// The terms of an order, as a user places it or as a market maker quotes it.
#[derive(Clone, Copy, PartialEq, Eq, Debug, Structural)]
pub struct PlaceOrderArgs {
    pub side: Side,
    pub outcome: Outcome,
    pub order_type: OrderType,
    /// Limit price, six decimals.
    pub price: u64,
    /// Number of shares, six decimals.
    pub size: u64,
    pub expiry_ts: i64,
    /// Chosen by the client; identifies the order among its owner's orders.
    pub client_order_id: u64,
}

pub open spec fn price_in_range(price: u64) -> bool {
    MIN_PRICE <= price <= MAX_PRICE
}

pub open spec fn on_tick(price: u64) -> bool {
    price % PRICE_TICK == 0
}

pub open spec fn size_in_range(size: u64) -> bool {
    MIN_ORDER_SIZE <= size <= MAX_ORDER_SIZE
}


// ---------------------------------------------------------------------------
// Placing an order
// ---------------------------------------------------------------------------

/// The records and balances that placing an order reads and writes.
#[derive(Clone, Copy, Debug)]
pub struct PlaceOrder {
    pub global_state: GlobalState,
    pub market_key: Key,
    pub market: Market,
    /// Identity of the new order record.
    pub order_key: Key,
    /// The new order record; whatever it holds before is overwritten, but
    /// for its `bump`.
    pub order: Order,
    pub vault_amount: u64,
    pub user: Key,
    pub user_usdc_amount: u64,
}

/// What placing an order reports.
#[derive(Clone, Copy, Debug)]
pub struct OrderPlaced {
    pub order: Key,
    pub owner: Key,
    pub market: Key,
    pub side: Side,
    pub outcome: Outcome,
    pub order_type: OrderType,
    pub price: u64,
    pub size: u64,
    pub locked_amount: u64,
    pub client_order_id: u64,
    pub expiry_ts: i64,
    pub created_at: i64,
}

/// The collateral an order with these terms locks.
pub open spec fn order_lock(args: PlaceOrderArgs) -> int {
    lock_amount(args.side, args.price as int, args.size as int)
}

/// The first check that placing an order fails, if it fails one.
pub open spec fn place_error(c: PlaceOrder, now: i64, args: PlaceOrderArgs) -> Option<DegenError> {
    if !trading_open(c.market, now) {
        Some(DegenError::MarketNotOpen)
    } else if c.global_state.paused {
        Some(DegenError::ProtocolPaused)
    } else if !price_in_range(args.price) {
        Some(DegenError::InvalidPrice)
    } else if !on_tick(args.price) {
        Some(DegenError::InvalidTickSize)
    } else if !size_in_range(args.size) {
        Some(DegenError::InvalidSize)
    } else if args.order_type == OrderType::Limit && args.expiry_ts <= now {
        Some(DegenError::OrderExpired)
    } else if c.user_usdc_amount < order_lock(args) {
        Some(DegenError::InsufficientBalance)
    } else if c.vault_amount + order_lock(args) > u64::MAX {
        Some(DegenError::MathOverflow)
    } else {
        None
    }
}

/// The order record that placing an order writes: unfilled and open.
pub open spec fn placed_order(c: PlaceOrder, now: i64, args: PlaceOrderArgs) -> Order {
    Order {
        owner: c.user,
        market: c.market_key,
        side: args.side,
        outcome: args.outcome,
        order_type: args.order_type,
        price: args.price,
        size: args.size,
        filled_size: 0,
        status: OrderStatus::Open,
        client_order_id: args.client_order_id,
        expiry_ts: args.expiry_ts,
        created_at: now,
        locked_amount: order_lock(args) as u64,
        bump: c.order.bump,
    }
}

pub open spec fn place_state(c: PlaceOrder, now: i64, args: PlaceOrderArgs) -> PlaceOrder {
    PlaceOrder {
        order: placed_order(c, now, args),
        vault_amount: (c.vault_amount + order_lock(args)) as u64,
        user_usdc_amount: (c.user_usdc_amount - order_lock(args)) as u64,
        ..c
    }
}

pub open spec fn place_event(c: PlaceOrder, now: i64, args: PlaceOrderArgs) -> OrderPlaced {
    OrderPlaced {
        order: c.order_key,
        owner: c.user,
        market: c.market_key,
        side: args.side,
        outcome: args.outcome,
        order_type: args.order_type,
        price: args.price,
        size: args.size,
        locked_amount: order_lock(args) as u64,
        client_order_id: args.client_order_id,
        expiry_ts: args.expiry_ts,
        created_at: now,
    }
}

/// Places an order: checks its terms, locks its collateral (rounded up) by
/// moving it from the user into the vault, and writes the order record,
/// unfilled. On failure nothing changes.
pub fn place_order(ctx: &mut PlaceOrder, now: i64, args: PlaceOrderArgs) -> (r: Result<
    (OrderPlaced, Vec<Transfer>),
    DegenError,
>)
    ensures
        match r {
            Ok((ev, ts)) => {
                &&& place_error(*old(ctx), now, args) is None
                &&& *final(ctx) == place_state(*old(ctx), now, args)
                &&& ev == place_event(*old(ctx), now, args)
                &&& ts@ == seq![
                    Transfer {
                        from: Party::Owner,
                        to: Party::Vault,
                        amount: order_lock(args) as u64,
                    },
                ]
            },
            Err(e) => {
                &&& place_error(*old(ctx), now, args) == Some(e)
                &&& *final(ctx) == *old(ctx)
            },
        },
{
    if !ctx.market.is_trading_open(now) {
        return Err(DegenError::MarketNotOpen);
    }
    if ctx.global_state.paused {
        return Err(DegenError::ProtocolPaused);
    }
    if args.price < MIN_PRICE || args.price > MAX_PRICE {
        return Err(DegenError::InvalidPrice);
    }
    if args.price % PRICE_TICK != 0 {
        return Err(DegenError::InvalidTickSize);
    }
    if args.size < MIN_ORDER_SIZE || args.size > MAX_ORDER_SIZE {
        return Err(DegenError::InvalidSize);
    }
    if args.order_type == OrderType::Limit && args.expiry_ts <= now {
        return Err(DegenError::OrderExpired);
    }
    proof {
        let p = collateral_price(args.side, args.price as int);
        assert(p * args.size + 999_999 <= u64::MAX) by (nonlinear_arith)
            requires
                0 <= p <= USDC_MULTIPLIER,
                0 <= args.size <= MAX_ORDER_SIZE,
        ;
    }
    let lock = match locked_amount_for(args.side, args.price, args.size) {
        Ok(l) => l,
        Err(_) => 0,
    };
    if ctx.user_usdc_amount < lock {
        return Err(DegenError::InsufficientBalance);
    }
    if ctx.vault_amount > u64::MAX - lock {
        return Err(DegenError::MathOverflow);
    }
    let mut transfers: Vec<Transfer> = Vec::new();
    transfers.push(Transfer { from: Party::Owner, to: Party::Vault, amount: lock });
    ctx.user_usdc_amount = ctx.user_usdc_amount - lock;
    ctx.vault_amount = ctx.vault_amount + lock;
    ctx.order = Order {
        owner: ctx.user,
        market: ctx.market_key,
        side: args.side,
        outcome: args.outcome,
        order_type: args.order_type,
        price: args.price,
        size: args.size,
        filled_size: 0,
        status: OrderStatus::Open,
        client_order_id: args.client_order_id,
        expiry_ts: args.expiry_ts,
        created_at: now,
        locked_amount: lock,
        bump: ctx.order.bump,
    };
    let ev = OrderPlaced {
        order: ctx.order_key,
        owner: ctx.user,
        market: ctx.market_key,
        side: args.side,
        outcome: args.outcome,
        order_type: args.order_type,
        price: args.price,
        size: args.size,
        locked_amount: lock,
        client_order_id: args.client_order_id,
        expiry_ts: args.expiry_ts,
        created_at: now,
    };
    Ok((ev, transfers))
}

// ---------------------------------------------------------------------------
// Cancelling an order
// ---------------------------------------------------------------------------

/// The records and balances that an owner's cancellation reads and writes.
#[derive(Clone, Copy, Debug)]
pub struct CancelOrder {
    pub market_key: Key,
    pub market: Market,
    pub vault_amount: u64,
    /// The signer, who must own the order.
    pub owner: Key,
    pub user_usdc_amount: u64,
    pub order_key: Key,
    /// The order record; `None` once it has been removed.
    pub order: Option<Order>,
}

/// The records and balances that the market authority's forced
/// cancellation reads and writes.
#[derive(Clone, Copy, Debug)]
pub struct CancelOrderByRelayer {
    pub market_key: Key,
    pub market: Market,
    pub vault_amount: u64,
    /// The order's owner, who receives the refund.
    pub owner: Key,
    pub user_usdc_amount: u64,
    pub order_key: Key,
    pub order: Option<Order>,
    /// The signer, who must be the market's authority.
    pub authority: Key,
}

/// What a cancellation reports.
#[derive(Clone, Copy, Debug)]
pub struct OrderCancelled {
    pub order: Key,
    pub owner: Key,
    pub market: Key,
    pub remaining_size: u64,
    pub refund_amount: u64,
}

pub open spec fn order_refund(o: Order) -> int {
    refund_amount(o.locked_amount as int, o.size as int, o.filled_size as int)
}

/// The first check that a refund of `o` out of the vault fails, if it
/// fails one.
pub open spec fn refund_error(o: Order, vault_amount: u64, user_usdc_amount: u64) -> Option<DegenError> {
    if order_refund(o) > 0 && vault_amount < order_refund(o) {
        Some(DegenError::InsufficientVaultBalance)
    } else if order_refund(o) > 0 && user_usdc_amount + order_refund(o) > u64::MAX {
        Some(DegenError::MathOverflow)
    } else {
        None
    }
}

/// The first check that an owner's cancellation fails, if it fails one.
pub open spec fn cancel_error(c: CancelOrder) -> Option<DegenError> {
    match c.order {
        None => Some(DegenError::OrderNotFound),
        Some(o) => if c.market_key@ != o.market@ {
            Some(DegenError::InvalidMarketParams)
        } else if o.owner@ != c.owner@ {
            Some(DegenError::Unauthorized)
        } else if !o.active() {
            Some(DegenError::OrderNotActive)
        } else {
            refund_error(o, c.vault_amount, c.user_usdc_amount)
        },
    }
}

/// The first check that a forced cancellation at `now` fails, if it fails
/// one. It is only allowed once the market's close buffer has begun.
pub open spec fn force_cancel_error(c: CancelOrderByRelayer, now: i64) -> Option<DegenError> {
    match c.order {
        None => Some(DegenError::OrderNotFound),
        Some(o) => if c.market_key@ != o.market@ {
            Some(DegenError::InvalidMarketParams)
        } else if !o.active() {
            Some(DegenError::OrderNotActive)
        } else if c.owner@ != o.owner@ {
            Some(DegenError::Unauthorized)
        } else if c.authority@ != c.market.authority@ {
            Some(DegenError::Unauthorized)
        } else if now < c.market.expiry_at - TRADING_CLOSE_BUFFER {
            Some(DegenError::MarketNotOpen)
        } else {
            refund_error(o, c.vault_amount, c.user_usdc_amount)
        },
    }
}

pub open spec fn refund_transfers(o: Order) -> Seq<Transfer> {
    if order_refund(o) > 0 {
        seq![Transfer { from: Party::Vault, to: Party::Owner, amount: order_refund(o) as u64 }]
    } else {
        Seq::empty()
    }
}

pub open spec fn cancel_event(order_key: Key, o: Order) -> OrderCancelled {
    OrderCancelled {
        order: order_key,
        owner: o.owner,
        market: o.market,
        remaining_size: o.remaining() as u64,
        refund_amount: order_refund(o) as u64,
    }
}

/// Refunds what is left of an order's collateral and reports it.
fn refund_order(
    order_key: &Key,
    o: &Order,
    vault_amount: &mut u64,
    user_usdc_amount: &mut u64,
) -> (r: Result<(OrderCancelled, Vec<Transfer>), DegenError>)
    ensures
        match r {
            Ok((ev, ts)) => {
                &&& refund_error(*o, *old(vault_amount), *old(user_usdc_amount)) is None
                &&& *final(vault_amount) == *old(vault_amount) - order_refund(*o)
                &&& *final(user_usdc_amount) == *old(user_usdc_amount) + order_refund(*o)
                &&& ev == cancel_event(*order_key, *o)
                &&& ts@ == refund_transfers(*o)
            },
            Err(e) => {
                &&& refund_error(*o, *old(vault_amount), *old(user_usdc_amount)) == Some(e)
                &&& *final(vault_amount) == *old(vault_amount)
                &&& *final(user_usdc_amount) == *old(user_usdc_amount)
            },
        },
{
    let refund = refund_for(o);
    let mut transfers: Vec<Transfer> = Vec::new();
    if refund > 0 {
        if *vault_amount < refund {
            return Err(DegenError::InsufficientVaultBalance);
        }
        if *user_usdc_amount > u64::MAX - refund {
            return Err(DegenError::MathOverflow);
        }
        *vault_amount = *vault_amount - refund;
        *user_usdc_amount = *user_usdc_amount + refund;
        transfers.push(Transfer { from: Party::Vault, to: Party::Owner, amount: refund });
    }
    proof {
        assert(transfers@ =~= refund_transfers(*o));
    }
    let ev = OrderCancelled {
        order: *order_key,
        owner: o.owner,
        market: o.market,
        remaining_size: o.remaining_size(),
        refund_amount: refund,
    };
    Ok((ev, transfers))
}

/// Cancels an order at its owner's request: refunds the unfilled share of
/// its collateral (all of it if untouched, none if filled) from the vault
/// and removes the order record. On failure nothing changes.
pub fn cancel_order(ctx: &mut CancelOrder) -> (r: Result<(OrderCancelled, Vec<Transfer>), DegenError>)
    ensures
        match r {
            Ok((ev, ts)) => {
                &&& cancel_error(*old(ctx)) is None
                &&& old(ctx).order is Some
                &&& *final(ctx) == CancelOrder {
                    vault_amount: (old(ctx).vault_amount - order_refund(old(ctx).order->0)) as u64,
                    user_usdc_amount: (old(ctx).user_usdc_amount + order_refund(
                        old(ctx).order->0,
                    )) as u64,
                    order: None,
                    ..*old(ctx)
                }
                &&& ev == cancel_event(old(ctx).order_key, old(ctx).order->0)
                &&& ts@ == refund_transfers(old(ctx).order->0)
            },
            Err(e) => {
                &&& cancel_error(*old(ctx)) == Some(e)
                &&& *final(ctx) == *old(ctx)
            },
        },
{
    let o = match &ctx.order {
        None => return Err(DegenError::OrderNotFound),
        Some(o) => *o,
    };
    if !ctx.market_key.same(&o.market) {
        return Err(DegenError::InvalidMarketParams);
    }
    if !o.owner.same(&ctx.owner) {
        return Err(DegenError::Unauthorized);
    }
    if !o.is_active() {
        return Err(DegenError::OrderNotActive);
    }
    let res = refund_order(&ctx.order_key, &o, &mut ctx.vault_amount, &mut ctx.user_usdc_amount);
    if res.is_ok() {
        ctx.order = None;
    }
    res
}

/// Cancels an order at the market authority's request, once the market's
/// close buffer has begun; the refund and the removal are those of an
/// owner's cancellation. On failure nothing changes.
pub fn cancel_order_by_relayer(ctx: &mut CancelOrderByRelayer, now: i64) -> (r: Result<
    (OrderCancelled, Vec<Transfer>),
    DegenError,
>)
    ensures
        match r {
            Ok((ev, ts)) => {
                &&& force_cancel_error(*old(ctx), now) is None
                &&& old(ctx).order is Some
                &&& *final(ctx) == CancelOrderByRelayer {
                    vault_amount: (old(ctx).vault_amount - order_refund(old(ctx).order->0)) as u64,
                    user_usdc_amount: (old(ctx).user_usdc_amount + order_refund(
                        old(ctx).order->0,
                    )) as u64,
                    order: None,
                    ..*old(ctx)
                }
                &&& ev == cancel_event(old(ctx).order_key, old(ctx).order->0)
                &&& ts@ == refund_transfers(old(ctx).order->0)
            },
            Err(e) => {
                &&& force_cancel_error(*old(ctx), now) == Some(e)
                &&& *final(ctx) == *old(ctx)
            },
        },
{
    let o = match &ctx.order {
        None => return Err(DegenError::OrderNotFound),
        Some(o) => *o,
    };
    if !ctx.market_key.same(&o.market) {
        return Err(DegenError::InvalidMarketParams);
    }
    if !o.is_active() {
        return Err(DegenError::OrderNotActive);
    }
    if !ctx.owner.same(&o.owner) {
        return Err(DegenError::Unauthorized);
    }
    if !ctx.authority.same(&ctx.market.authority) {
        return Err(DegenError::Unauthorized);
    }
    if (now as i128) < ctx.market.expiry_at as i128 - TRADING_CLOSE_BUFFER as i128 {
        return Err(DegenError::MarketNotOpen);
    }
    let res = refund_order(&ctx.order_key, &o, &mut ctx.vault_amount, &mut ctx.user_usdc_amount);
    if res.is_ok() {
        ctx.order = None;
    }
    res
}


// ---------------------------------------------------------------------------
// Laws of the order ledger
// ---------------------------------------------------------------------------

/// A placed order starts unfilled and open, so its fill is within its size
/// and its status is the one its fill level determines; its price is a
/// multiple of 10000 in [10000, 990000], its size in [1000, 100_000_000_000],
/// and it locks `ceil(price * size / 10^6)` for a bid or
/// `ceil((10^6 - price) * size / 10^6)` for an ask.
pub proof fn lemma_placed_order_wf(c: PlaceOrder, now: i64, args: PlaceOrderArgs)
    requires
        place_error(c, now, args) is None,
    ensures
        placed_order(c, now, args).wf(),
        price_in_range(placed_order(c, now, args).price),
        on_tick(placed_order(c, now, args).price),
        size_in_range(placed_order(c, now, args).size),
        args.side == Side::Bid ==> placed_order(c, now, args).locked_amount == crate::math::share_cost(
            args.price as int,
            args.size as int,
        ),
        args.side == Side::Ask ==> placed_order(c, now, args).locked_amount == crate::math::share_cost(
            USDC_MULTIPLIER - args.price,
            args.size as int,
        ),
{
    let p = collateral_price(args.side, args.price as int);
    assert(0 <= p * args.size <= USDC_MULTIPLIER * MAX_ORDER_SIZE) by (nonlinear_arith)
        requires
            0 <= p <= USDC_MULTIPLIER,
            0 <= args.size <= MAX_ORDER_SIZE,
    ;
}

/// A cancellation refunds the whole lock when nothing was filled, nothing
/// when the order was filled completely, and otherwise
/// `floor(locked * (size - filled) / size)`; never more than was locked.
pub proof fn lemma_refund_cases(o: Order)
    ensures
        o.filled_size == 0 ==> order_refund(o) == o.locked_amount,
        o.filled_size >= o.size && o.filled_size > 0 ==> order_refund(o) == 0,
        0 < o.filled_size < o.size ==> order_refund(o) == o.locked_amount * (o.size
            - o.filled_size) / (o.size as int),
        0 <= order_refund(o) <= o.locked_amount,
{
    if 0 < o.filled_size < o.size {
        let l = o.locked_amount as int;
        let rem = o.size - o.filled_size;
        let sz = o.size as int;
        assert(0 <= l * rem / sz <= l) by (nonlinear_arith)
            requires
                0 <= l,
                0 < rem < sz,
        ;
    }
}


/// Placing an order succeeds whenever the protocol runs, the market trades,
/// the terms are legal and the user can pay the lock into the vault; the
/// order then starts unfilled and open.
pub proof fn lemma_place_succeeds(c: PlaceOrder, now: i64, args: PlaceOrderArgs)
    requires
        !c.global_state.paused,
        trading_open(c.market, now),
        price_in_range(args.price),
        on_tick(args.price),
        size_in_range(args.size),
        args.order_type == OrderType::Limit ==> args.expiry_ts > now,
        c.user_usdc_amount >= order_lock(args),
        c.vault_amount + order_lock(args) <= u64::MAX,
    ensures
        place_error(c, now, args) is None,
        placed_order(c, now, args).filled_size == 0,
        placed_order(c, now, args).size == args.size,
        placed_order(c, now, args).status == OrderStatus::Open,
        placed_order(c, now, args).wf(),
{
}

/// A cancellation by the owner of an active order in this market succeeds
/// whenever the vault holds the refund and the owner's account can take
/// it; the refund follows the three cases of `lemma_refund_cases`, and
/// nothing is transferred when it is zero.
pub proof fn lemma_cancel_succeeds(c: CancelOrder)
    requires
        c.order is Some,
        c.order->0.market@ == c.market_key@,
        c.order->0.owner@ == c.owner@,
        c.order->0.active(),
        c.vault_amount >= order_refund(c.order->0),
        c.user_usdc_amount + order_refund(c.order->0) <= u64::MAX,
    ensures
        cancel_error(c) is None,
        order_refund(c.order->0) == 0 ==> refund_transfers(c.order->0) == Seq::<Transfer>::empty(),
        order_refund(c.order->0) > 0 ==> refund_transfers(c.order->0) == seq![
            Transfer {
                from: Party::Vault,
                to: Party::Owner,
                amount: order_refund(c.order->0) as u64,
            },
        ],
{
    lemma_refund_cases(c.order->0);
}

/// A forced cancellation of an active order in this market, by the market's
/// authority once the close buffer has begun, succeeds whenever the vault
/// holds the refund and the owner's account can take it.
pub proof fn lemma_force_cancel_succeeds(c: CancelOrderByRelayer, now: i64)
    requires
        c.order is Some,
        c.order->0.market@ == c.market_key@,
        c.order->0.owner@ == c.owner@,
        c.order->0.active(),
        c.authority@ == c.market.authority@,
        now >= c.market.expiry_at - TRADING_CLOSE_BUFFER,
        c.vault_amount >= order_refund(c.order->0),
        c.user_usdc_amount + order_refund(c.order->0) <= u64::MAX,
    ensures
        force_cancel_error(c, now) is None,
{
    lemma_refund_cases(c.order->0);
}

} // verus!
