use vstd::prelude::*;
use crate::errors::DegenError;
use crate::ledger::{flow_of, lemma_net_flow_push, net_flow, Party, Transfer};
use crate::math::{cost_for, fee_for, fee_on, share_cost};
use crate::orders::{on_tick, price_in_range, size_in_range, PlaceOrderArgs};
use crate::state::{
    trading_open, GlobalState, Key, Market, MarketStatus, Order, OrderStatus, Outcome, Side,
    TradeType, UserPosition, MAX_FEE_BPS, MAX_ORDER_SIZE, MAX_POSITION_SIZE, MAX_PRICE,
    MIN_ORDER_SIZE, MIN_PRICE, PRICE_TICK, USDC_MULTIPLIER,
};

verus! {

// ---------------------------------------------------------------------------
// Order data
// ---------------------------------------------------------------------------

/// The fields the matching engine reads from an order, whether it is stored
/// with escrow or quoted inline.
#[derive(Clone, Copy, PartialEq, Eq, Debug, Structural)]
pub struct OrderTerms {
    pub side: Side,
    pub outcome: Outcome,
    pub price: u64,
    pub size: u64,
    pub expiry_ts: i64,
}

/// A stored order's terms where there is one, else the inline quote's.
pub open spec fn terms_of(order: Option<Order>, args: PlaceOrderArgs) -> OrderTerms {
    match order {
        Some(o) => OrderTerms {
            side: o.side,
            outcome: o.outcome,
            price: o.price,
            size: o.size,
            expiry_ts: o.expiry_ts,
        },
        None => OrderTerms {
            side: args.side,
            outcome: args.outcome,
            price: args.price,
            size: args.size,
            expiry_ts: args.expiry_ts,
        },
    }
}

pub fn order_terms(order: &Option<Order>, args: &PlaceOrderArgs) -> (r: OrderTerms)
    ensures
        r == terms_of(*order, *args),
{
    match order {
        Some(o) => OrderTerms {
            side: o.side,
            outcome: o.outcome,
            price: o.price,
            size: o.size,
            expiry_ts: o.expiry_ts,
        },
        None => OrderTerms {
            side: args.side,
            outcome: args.outcome,
            price: args.price,
            size: args.size,
            expiry_ts: args.expiry_ts,
        },
    }
}

/// Why a stored order may not take part in a match for `owner` in the market
/// `market_key`, if it may not.
pub open spec fn stored_order_error(order: Option<Order>, owner: Key, market_key: Key) -> Option<
    DegenError,
> {
    match order {
        Some(o) => if o.owner@ != owner@ {
            Some(DegenError::Unauthorized)
        } else if o.market@ != market_key@ {
            Some(DegenError::InvalidMarketParams)
        } else if !o.active() {
            Some(DegenError::OrderNotActive)
        } else {
            None
        },
        None => None,
    }
}

fn check_stored_order(order: &Option<Order>, owner: &Key, market_key: &Key) -> (r: Result<
    (),
    DegenError,
>)
    ensures
        r == (match stored_order_error(*order, *owner, *market_key) {
            Some(e) => Err(e),
            None => Ok(()),
        }),
{
    match order {
        Some(o) => {
            if !o.owner.same(owner) {
                return Err(DegenError::Unauthorized);
            }
            if !o.market.same(market_key) {
                return Err(DegenError::InvalidMarketParams);
            }
            if !o.is_active() {
                return Err(DegenError::OrderNotActive);
            }
            Ok(())
        },
        None => Ok(()),
    }
}

/// A position record is either not yet written or belongs to `owner`.
pub open spec fn held_by(p: UserPosition, owner: Key) -> bool {
    p.owner.is_zero() || p.owner@ == owner@
}

/// A stored order has at least `match_size` left unfilled.
pub open spec fn fill_fits(order: Option<Order>, match_size: u64) -> bool {
    match order {
        Some(o) => match_size <= o.remaining(),
        None => true,
    }
}

/// The orders cross: a maker's bid is at or above the taker's ask, or a
/// maker's ask is at or below the taker's bid.
pub open spec fn crosses(maker_side: Side, maker_price: u64, taker_price: u64) -> bool {
    match maker_side {
        Side::Bid => taker_price <= maker_price,
        Side::Ask => taker_price >= maker_price,
    }
}

/// Records the fill of `match_size` more shares on a stored order.
pub open spec fn fill_order(o: Order, match_size: u64) -> Order {
    let filled = (o.filled_size + match_size) as u64;
    Order {
        filled_size: filled,
        status: if filled >= o.size {
            OrderStatus::Filled
        } else {
            OrderStatus::PartialFill
        },
        ..o
    }
}

pub open spec fn fill_stored(order: Option<Order>, match_size: u64) -> Option<Order> {
    match order {
        Some(o) => Some(fill_order(o, match_size)),
        None => None,
    }
}

// ---------------------------------------------------------------------------
// Pricing an opening trade
// ---------------------------------------------------------------------------

/// What an opening trade costs each side.
#[derive(Clone, Copy, PartialEq, Eq, Debug, Structural)]
pub struct MatchQuote {
    /// Paid for the YES shares.
    pub yes_cost: u64,
    /// Paid for the NO shares.
    pub no_cost: u64,
    /// Charged to the taker on top of the taker's leg.
    pub taker_fee: u64,
    /// Owed by the maker.
    pub maker_cost: u64,
    /// Owed by the taker, fee included.
    pub taker_cost: u64,
    /// The maker receives the YES shares, the taker the NO shares.
    pub maker_buys_yes: bool,
}

/// The price of a YES share when `outcome` trades at `price`.
pub open spec fn yes_price_for(outcome: Outcome, price: int) -> int {
    match outcome {
        Outcome::Yes => price,
        Outcome::No => USDC_MULTIPLIER - price,
    }
}

/// A bid on YES or an ask on NO makes the maker the YES buyer.
pub open spec fn buys_yes(side: Side, outcome: Outcome) -> bool {
    (side == Side::Bid && outcome == Outcome::Yes) || (side == Side::Ask && outcome == Outcome::No)
}

/// The quote for `match_size` shares of `outcome` at the maker's `price`,
/// with a taker fee of `fee_bps` basis points.
pub open spec fn match_quote(
    maker_side: Side,
    outcome: Outcome,
    price: u64,
    match_size: u64,
    fee_bps: u16,
) -> MatchQuote {
    let yes_price = yes_price_for(outcome, price as int);
    let no_price = USDC_MULTIPLIER - yes_price;
    let yes_cost = share_cost(yes_price, match_size as int);
    let no_cost = share_cost(no_price, match_size as int);
    let maker_yes = buys_yes(maker_side, outcome);
    let fee = fee_on(
        if maker_yes {
            no_cost
        } else {
            yes_cost
        },
        fee_bps as int,
    );
    MatchQuote {
        yes_cost: yes_cost as u64,
        no_cost: no_cost as u64,
        taker_fee: fee as u64,
        maker_cost: (if maker_yes {
            yes_cost
        } else {
            no_cost
        }) as u64,
        taker_cost: (if maker_yes {
            no_cost + fee
        } else {
            yes_cost + fee
        }) as u64,
        maker_buys_yes: maker_yes,
    }
}

/// Bounds every amount of a quote, so that no field of it was cut short.
pub open spec fn quote_bounds(q: MatchQuote) -> bool {
    &&& q.yes_cost <= MAX_ORDER_SIZE
    &&& q.no_cost <= MAX_ORDER_SIZE
    &&& q.taker_fee <= MAX_ORDER_SIZE
    &&& q.maker_cost <= MAX_ORDER_SIZE
    &&& q.taker_cost <= 2 * MAX_ORDER_SIZE
}

pub(crate) proof fn lemma_cost_bounds(price: int, size: int)
    requires
        0 <= price <= USDC_MULTIPLIER,
        0 <= size <= MAX_ORDER_SIZE,
    ensures
        0 <= share_cost(price, size) <= size,
        share_cost(price, size) * USDC_MULTIPLIER >= price * size,
{
    assert(0 <= price * size <= USDC_MULTIPLIER * size) by (nonlinear_arith)
        requires
            0 <= price <= USDC_MULTIPLIER,
            0 <= size,
    ;
}

/// Prices an opening trade. The YES leg costs `ceil(yes_price * size / 10^6)`
/// and the NO leg `ceil(no_price * size / 10^6)`; the taker also pays a fee
/// on the leg it buys, rounded down.
pub fn quote_match(maker_side: Side, outcome: Outcome, price: u64, match_size: u64, fee_bps: u16) -> (q:
    MatchQuote)
    requires
        MIN_PRICE <= price <= MAX_PRICE,
        match_size <= MAX_ORDER_SIZE,
        fee_bps <= MAX_FEE_BPS,
    ensures
        q == match_quote(maker_side, outcome, price, match_size, fee_bps),
        quote_bounds(q),
        q.yes_cost == share_cost(yes_price_for(outcome, price as int), match_size as int),
        q.no_cost == share_cost(
            USDC_MULTIPLIER - yes_price_for(outcome, price as int),
            match_size as int,
        ),
        q.taker_fee == fee_on(
            if q.maker_buys_yes {
                q.no_cost as int
            } else {
                q.yes_cost as int
            },
            fee_bps as int,
        ),
        q.maker_cost + q.taker_cost == q.yes_cost + q.no_cost + q.taker_fee,
{
    let yes_price: u64 = match outcome {
        Outcome::Yes => price,
        Outcome::No => USDC_MULTIPLIER - price,
    };
    let no_price: u64 = USDC_MULTIPLIER - yes_price;
    proof {
        lemma_cost_bounds(yes_price as int, match_size as int);
        lemma_cost_bounds(no_price as int, match_size as int);
        assert(yes_price * match_size + 999_999 <= u64::MAX) by (nonlinear_arith)
            requires
                yes_price <= USDC_MULTIPLIER,
                match_size <= MAX_ORDER_SIZE,
        ;
        assert(no_price * match_size + 999_999 <= u64::MAX) by (nonlinear_arith)
            requires
                no_price <= USDC_MULTIPLIER,
                match_size <= MAX_ORDER_SIZE,
        ;
    }
    let yes_cost = match cost_for(yes_price, match_size) {
        Ok(c) => c,
        Err(_) => 0,
    };
    let no_cost = match cost_for(no_price, match_size) {
        Ok(c) => c,
        Err(_) => 0,
    };
    let maker_yes = (maker_side == Side::Bid && outcome == Outcome::Yes) || (maker_side == Side::Ask
        && outcome == Outcome::No);
    let taker_leg = if maker_yes {
        no_cost
    } else {
        yes_cost
    };
    proof {
        assert(taker_leg * fee_bps <= u64::MAX) by (nonlinear_arith)
            requires
                taker_leg <= MAX_ORDER_SIZE,
                fee_bps <= MAX_FEE_BPS,
        ;
        assert((taker_leg * fee_bps) / 10_000 <= taker_leg) by (nonlinear_arith)
            requires
                0 <= taker_leg,
                0 <= fee_bps <= MAX_FEE_BPS,
        ;
    }
    let fee = match fee_for(taker_leg, fee_bps) {
        Ok(f) => f,
        Err(_) => 0,
    };
    let (maker_cost, taker_cost) = if maker_yes {
        (yes_cost, no_cost + fee)
    } else {
        (no_cost, yes_cost + fee)
    };
    MatchQuote {
        yes_cost,
        no_cost,
        taker_fee: fee,
        maker_cost,
        taker_cost,
        maker_buys_yes: maker_yes,
    }
}


// ---------------------------------------------------------------------------
// Opening trade
// ---------------------------------------------------------------------------

/// The records and balances an opening trade reads and writes. Each
/// position must be unwritten or belong to its trader.
#[derive(Clone, Copy, Debug)]
pub struct ExecuteMatch {
    pub global_state: GlobalState,
    /// Identity of the market record.
    pub market_key: Key,
    pub market: Market,
    /// USDC held by the market's vault.
    pub vault_amount: u64,
    /// USDC held by the fee recipient's account.
    pub fee_recipient_amount: u64,
    pub maker: Key,
    /// The maker's position in this market; its owner is the zero key until
    /// the maker first trades here.
    pub maker_position: UserPosition,
    pub maker_usdc_amount: u64,
    /// The maker's stored order, whose collateral is already in the vault;
    /// `None` for an inline quote.
    pub maker_order: Option<Order>,
    pub taker: Key,
    pub taker_position: UserPosition,
    pub taker_usdc_amount: u64,
    pub taker_order: Option<Order>,
}

/// What an opening trade reports.
#[derive(Clone, Copy, Debug)]
pub struct MatchExecuted {
    pub market: Key,
    pub maker: Key,
    pub taker: Key,
    pub outcome: Outcome,
    pub price: u64,
    pub size: u64,
    pub yes_cost: u64,
    pub no_cost: u64,
    pub taker_fee: u64,
    pub maker_has_escrow: bool,
    pub taker_has_escrow: bool,
    pub trade_type: TradeType,
}

/// The first check that an opening trade fails before any amount is
/// computed, if it fails one.
pub open spec fn match_validation_error(
    c: ExecuteMatch,
    now: i64,
    maker_args: PlaceOrderArgs,
    taker_args: PlaceOrderArgs,
    match_size: u64,
) -> Option<DegenError> {
    let mt = terms_of(c.maker_order, maker_args);
    let tt = terms_of(c.taker_order, taker_args);
    if stored_order_error(c.maker_order, c.maker, c.market_key) is Some {
        stored_order_error(c.maker_order, c.maker, c.market_key)
    } else if stored_order_error(c.taker_order, c.taker, c.market_key) is Some {
        stored_order_error(c.taker_order, c.taker, c.market_key)
    } else if !held_by(c.maker_position, c.maker) || !held_by(c.taker_position, c.taker) {
        Some(DegenError::Unauthorized)
    } else if c.global_state.paused {
        Some(DegenError::ProtocolPaused)
    } else if c.market.status != MarketStatus::Open {
        Some(DegenError::MarketNotOpen)
    } else if !trading_open(c.market, now) {
        Some(DegenError::MarketClosing)
    } else if c.maker@ == c.taker@ {
        Some(DegenError::SelfTrade)
    } else if mt.side == tt.side {
        Some(DegenError::SameSide)
    } else if mt.outcome != tt.outcome {
        Some(DegenError::OutcomeMismatch)
    } else if mt.expiry_ts <= now || tt.expiry_ts <= now {
        Some(DegenError::OrderExpired)
    } else if !price_in_range(mt.price) || !price_in_range(tt.price) {
        Some(DegenError::InvalidPrice)
    } else if !on_tick(mt.price) || !on_tick(tt.price) {
        Some(DegenError::InvalidTickSize)
    } else if !size_in_range(mt.size) || !size_in_range(tt.size) || !size_in_range(match_size) {
        Some(DegenError::InvalidSize)
    } else if !fill_fits(c.maker_order, match_size) || !fill_fits(c.taker_order, match_size) {
        Some(DegenError::InvalidSize)
    } else if !crosses(mt.side, mt.price, tt.price) {
        Some(DegenError::PriceMismatch)
    } else {
        None
    }
}

/// The quote of an opening trade: at the maker's price, on the maker's
/// outcome, with the configured taker fee.
pub open spec fn quote_of(c: ExecuteMatch, maker_args: PlaceOrderArgs, match_size: u64) -> MatchQuote {
    let mt = terms_of(c.maker_order, maker_args);
    match_quote(mt.side, mt.outcome, mt.price, match_size, c.global_state.taker_fee_bps)
}

pub open spec fn within_cap(shares: u64, added: u64) -> bool {
    shares + added <= MAX_POSITION_SIZE
}

/// Neither buyer's share count passes the cap after the trade.
pub open spec fn limits_hold(c: ExecuteMatch, q: MatchQuote, match_size: u64) -> bool {
    if q.maker_buys_yes {
        within_cap(c.maker_position.yes_shares, match_size) && within_cap(
            c.taker_position.no_shares,
            match_size,
        )
    } else {
        within_cap(c.taker_position.yes_shares, match_size) && within_cap(
            c.maker_position.no_shares,
            match_size,
        )
    }
}

/// What the maker pays into the vault now: nothing where a stored order's
/// collateral is already there.
pub open spec fn maker_deposit(c: ExecuteMatch, q: MatchQuote) -> int {
    if c.maker_order is None {
        q.maker_cost as int
    } else {
        0
    }
}

pub open spec fn taker_deposit(c: ExecuteMatch, q: MatchQuote) -> int {
    if c.taker_order is None {
        q.taker_cost as int
    } else {
        0
    }
}

/// How many of the two positions this trade writes for the first time.
pub open spec fn new_positions(c: ExecuteMatch) -> int {
    (if c.maker_position.owner.is_zero() {
        1int
    } else {
        0int
    }) + (if c.taker_position.owner.is_zero() {
        1int
    } else {
        0int
    })
}

/// Every counter and balance that the trade raises stays within its type.
pub open spec fn match_fits(c: ExecuteMatch, q: MatchQuote, match_size: u64) -> bool {
    &&& c.fee_recipient_amount + q.taker_fee <= u64::MAX
    &&& c.market.total_positions + new_positions(c) <= u32::MAX
    &&& if q.maker_buys_yes {
        c.maker_position.yes_cost_basis + q.maker_cost <= u64::MAX
            && c.taker_position.no_cost_basis + q.taker_cost <= u64::MAX
    } else {
        c.taker_position.yes_cost_basis + q.taker_cost <= u64::MAX
            && c.maker_position.no_cost_basis + q.maker_cost <= u64::MAX
    }
    &&& c.market.open_interest + match_size <= u64::MAX
    &&& c.market.total_volume + q.yes_cost + q.no_cost <= u64::MAX
    &&& c.market.total_trades + 1 <= u32::MAX
}

/// The first check that an opening trade fails, if it fails one.
pub open spec fn match_error(
    c: ExecuteMatch,
    now: i64,
    maker_args: PlaceOrderArgs,
    taker_args: PlaceOrderArgs,
    match_size: u64,
) -> Option<DegenError> {
    let q = quote_of(c, maker_args, match_size);
    let deposits = maker_deposit(c, q) + taker_deposit(c, q);
    if match_validation_error(c, now, maker_args, taker_args, match_size) is Some {
        match_validation_error(c, now, maker_args, taker_args, match_size)
    } else if !limits_hold(c, q, match_size) {
        Some(DegenError::PositionLimitExceeded)
    } else if c.maker_order is None && c.maker_usdc_amount < q.maker_cost {
        Some(DegenError::InsufficientBalance)
    } else if c.taker_order is None && c.taker_usdc_amount < q.taker_cost {
        Some(DegenError::InsufficientBalance)
    } else if c.vault_amount + deposits > u64::MAX {
        Some(DegenError::MathOverflow)
    } else if c.vault_amount + deposits < q.taker_fee {
        Some(DegenError::InsufficientVaultBalance)
    } else if !match_fits(c, q, match_size) {
        Some(DegenError::MathOverflow)
    } else {
        None
    }
}

/// Writes a position record for `owner` the first time it is touched.
pub open spec fn claim(p: UserPosition, owner: Key, market_key: Key) -> UserPosition {
    if p.owner.is_zero() {
        UserPosition { owner, market: market_key, ..p }
    } else {
        p
    }
}

/// Adds `shares` shares bought for `cost` to one outcome of a position.
pub open spec fn credit(p: UserPosition, yes: bool, shares: u64, cost: u64) -> UserPosition {
    if yes {
        UserPosition {
            yes_shares: (p.yes_shares + shares) as u64,
            yes_cost_basis: (p.yes_cost_basis + cost) as u64,
            ..p
        }
    } else {
        UserPosition {
            no_shares: (p.no_shares + shares) as u64,
            no_cost_basis: (p.no_cost_basis + cost) as u64,
            ..p
        }
    }
}

/// The records and balances after a successful opening trade.
pub open spec fn match_state(c: ExecuteMatch, maker_args: PlaceOrderArgs, match_size: u64) -> ExecuteMatch {
    let q = quote_of(c, maker_args, match_size);
    let md = maker_deposit(c, q);
    let td = taker_deposit(c, q);
    ExecuteMatch {
        market: Market {
            total_positions: (c.market.total_positions + new_positions(c)) as u32,
            open_interest: (c.market.open_interest + match_size) as u64,
            total_volume: (c.market.total_volume + q.yes_cost + q.no_cost) as u64,
            total_trades: (c.market.total_trades + 1) as u32,
            ..c.market
        },
        vault_amount: (c.vault_amount + md + td - q.taker_fee) as u64,
        fee_recipient_amount: (c.fee_recipient_amount + q.taker_fee) as u64,
        maker_usdc_amount: (c.maker_usdc_amount - md) as u64,
        taker_usdc_amount: (c.taker_usdc_amount - td) as u64,
        maker_position: credit(
            claim(c.maker_position, c.maker, c.market_key),
            q.maker_buys_yes,
            match_size,
            q.maker_cost,
        ),
        taker_position: credit(
            claim(c.taker_position, c.taker, c.market_key),
            !q.maker_buys_yes,
            match_size,
            q.taker_cost,
        ),
        maker_order: fill_stored(c.maker_order, match_size),
        taker_order: fill_stored(c.taker_order, match_size),
        ..c
    }
}

/// The custodian transfers of a successful opening trade: each side without
/// escrow pays what it owes into the vault, then the vault pays the fee.
pub open spec fn match_transfers(c: ExecuteMatch, q: MatchQuote) -> Seq<Transfer> {
    let s0 = Seq::<Transfer>::empty();
    let s1 = if c.maker_order is None {
        s0.push(Transfer { from: Party::Maker, to: Party::Vault, amount: q.maker_cost })
    } else {
        s0
    };
    let s2 = if c.taker_order is None {
        s1.push(Transfer { from: Party::Taker, to: Party::Vault, amount: q.taker_cost })
    } else {
        s1
    };
    if q.taker_fee > 0 {
        s2.push(Transfer { from: Party::Vault, to: Party::FeeRecipient, amount: q.taker_fee })
    } else {
        s2
    }
}

pub open spec fn match_event(c: ExecuteMatch, maker_args: PlaceOrderArgs, match_size: u64) -> MatchExecuted {
    let mt = terms_of(c.maker_order, maker_args);
    let q = quote_of(c, maker_args, match_size);
    MatchExecuted {
        market: c.market_key,
        maker: c.maker,
        taker: c.taker,
        outcome: mt.outcome,
        price: mt.price,
        size: match_size,
        yes_cost: q.yes_cost,
        no_cost: q.no_cost,
        taker_fee: q.taker_fee,
        maker_has_escrow: c.maker_order is Some,
        taker_has_escrow: c.taker_order is Some,
        trade_type: TradeType::Opening,
    }
}

fn fill_fits_exec(order: &Option<Order>, match_size: u64) -> (r: bool)
    ensures
        r == fill_fits(*order, match_size),
{
    match order {
        Some(o) => match_size <= o.remaining_size(),
        None => true,
    }
}

fn validate_match(
    c: &ExecuteMatch,
    now: i64,
    mt: &OrderTerms,
    tt: &OrderTerms,
    maker_args: &PlaceOrderArgs,
    taker_args: &PlaceOrderArgs,
    match_size: u64,
) -> (r: Result<(), DegenError>)
    requires
        *mt == terms_of(c.maker_order, *maker_args),
        *tt == terms_of(c.taker_order, *taker_args),
    ensures
        r == (match match_validation_error(*c, now, *maker_args, *taker_args, match_size) {
            Some(e) => Err(e),
            None => Ok(()),
        }),
{
    match check_stored_order(&c.maker_order, &c.maker, &c.market_key) {
        Err(e) => return Err(e),
        Ok(()) => {},
    }
    match check_stored_order(&c.taker_order, &c.taker, &c.market_key) {
        Err(e) => return Err(e),
        Ok(()) => {},
    }
    let maker_holds = c.maker_position.owner.check_zero() || c.maker_position.owner.same(&c.maker);
    let taker_holds = c.taker_position.owner.check_zero() || c.taker_position.owner.same(&c.taker);
    if !maker_holds || !taker_holds {
        return Err(DegenError::Unauthorized);
    }
    if c.global_state.paused {
        return Err(DegenError::ProtocolPaused);
    }
    if c.market.status != MarketStatus::Open {
        return Err(DegenError::MarketNotOpen);
    }
    if !c.market.is_trading_open(now) {
        return Err(DegenError::MarketClosing);
    }
    if c.maker.same(&c.taker) {
        return Err(DegenError::SelfTrade);
    }
    if mt.side == tt.side {
        return Err(DegenError::SameSide);
    }
    if mt.outcome != tt.outcome {
        return Err(DegenError::OutcomeMismatch);
    }
    if mt.expiry_ts <= now || tt.expiry_ts <= now {
        return Err(DegenError::OrderExpired);
    }
    if mt.price < MIN_PRICE || mt.price > MAX_PRICE || tt.price < MIN_PRICE || tt.price > MAX_PRICE {
        return Err(DegenError::InvalidPrice);
    }
    if mt.price % PRICE_TICK != 0 || tt.price % PRICE_TICK != 0 {
        return Err(DegenError::InvalidTickSize);
    }
    if mt.size < MIN_ORDER_SIZE || mt.size > MAX_ORDER_SIZE || tt.size < MIN_ORDER_SIZE || tt.size
        > MAX_ORDER_SIZE || match_size < MIN_ORDER_SIZE || match_size > MAX_ORDER_SIZE {
        return Err(DegenError::InvalidSize);
    }
    if !fill_fits_exec(&c.maker_order, match_size) || !fill_fits_exec(&c.taker_order, match_size) {
        return Err(DegenError::InvalidSize);
    }
    let crossed = match mt.side {
        Side::Bid => tt.price <= mt.price,
        Side::Ask => tt.price >= mt.price,
    };
    if !crossed {
        return Err(DegenError::PriceMismatch);
    }
    Ok(())
}

pub(crate) fn credit_position(p: &mut UserPosition, yes: bool, shares: u64, cost: u64)
    requires
        yes ==> old(p).yes_shares + shares <= u64::MAX && old(p).yes_cost_basis + cost <= u64::MAX,
        !yes ==> old(p).no_shares + shares <= u64::MAX && old(p).no_cost_basis + cost <= u64::MAX,
    ensures
        *final(p) == credit(*old(p), yes, shares, cost),
{
    if yes {
        p.yes_shares = p.yes_shares + shares;
        p.yes_cost_basis = p.yes_cost_basis + cost;
    } else {
        p.no_shares = p.no_shares + shares;
        p.no_cost_basis = p.no_cost_basis + cost;
    }
}

fn fill_stored_exec(order: &mut Option<Order>, match_size: u64)
    requires
        fill_fits(*old(order), match_size),
    ensures
        *final(order) == fill_stored(*old(order), match_size),
{
    match order {
        Some(o) => {
            o.filled_size = o.filled_size + match_size;
            o.status = if o.filled_size >= o.size {
                OrderStatus::Filled
            } else {
                OrderStatus::PartialFill
            };
        },
        None => {},
    }
}

/// Executes an opening trade between a maker and a taker: validates both
/// orders, prices the YES and NO legs at the maker's price, collects what
/// each side without escrow owes into the vault, pays the taker fee out of
/// the vault, records fills on stored orders, credits both positions and
/// updates the market's aggregates. On failure nothing changes.
pub fn execute_match(
    ctx: &mut ExecuteMatch,
    now: i64,
    maker_args: PlaceOrderArgs,
    taker_args: PlaceOrderArgs,
    match_size: u64,
) -> (r: Result<(MatchExecuted, Vec<Transfer>), DegenError>)
    requires
        old(ctx).global_state.wf(),
    ensures
        match r {
            Ok((ev, ts)) => {
                &&& match_error(*old(ctx), now, maker_args, taker_args, match_size) is None
                &&& *final(ctx) == match_state(*old(ctx), maker_args, match_size)
                &&& ev == match_event(*old(ctx), maker_args, match_size)
                &&& ts@ == match_transfers(*old(ctx), quote_of(*old(ctx), maker_args, match_size))
            },
            Err(e) => {
                &&& match_error(*old(ctx), now, maker_args, taker_args, match_size) == Some(e)
                &&& *final(ctx) == *old(ctx)
            },
        },
{
    let mt = order_terms(&ctx.maker_order, &maker_args);
    let tt = order_terms(&ctx.taker_order, &taker_args);
    match validate_match(ctx, now, &mt, &tt, &maker_args, &taker_args, match_size) {
        Err(e) => return Err(e),
        Ok(()) => {},
    }
    let q = quote_match(mt.side, mt.outcome, mt.price, match_size, ctx.global_state.taker_fee_bps);
    let cap_room: u64 = MAX_POSITION_SIZE - match_size;
    let limits_ok = if q.maker_buys_yes {
        ctx.maker_position.yes_shares <= cap_room && ctx.taker_position.no_shares <= cap_room
    } else {
        ctx.taker_position.yes_shares <= cap_room && ctx.maker_position.no_shares <= cap_room
    };
    if !limits_ok {
        return Err(DegenError::PositionLimitExceeded);
    }
    let maker_escrowed = ctx.maker_order.is_some();
    let taker_escrowed = ctx.taker_order.is_some();
    if !maker_escrowed && ctx.maker_usdc_amount < q.maker_cost {
        return Err(DegenError::InsufficientBalance);
    }
    if !taker_escrowed && ctx.taker_usdc_amount < q.taker_cost {
        return Err(DegenError::InsufficientBalance);
    }
    let md: u64 = if maker_escrowed {
        0
    } else {
        q.maker_cost
    };
    let td: u64 = if taker_escrowed {
        0
    } else {
        q.taker_cost
    };
    let funded: u128 = ctx.vault_amount as u128 + md as u128 + td as u128;
    if funded > u64::MAX as u128 {
        return Err(DegenError::MathOverflow);
    }
    if funded < q.taker_fee as u128 {
        return Err(DegenError::InsufficientVaultBalance);
    }
    let maker_new = ctx.maker_position.owner.check_zero();
    let taker_new = ctx.taker_position.owner.check_zero();
    let added_positions: u64 = (if maker_new {
        1u64
    } else {
        0u64
    }) + (if taker_new {
        1u64
    } else {
        0u64
    });
    let basis_ok = if q.maker_buys_yes {
        ctx.maker_position.yes_cost_basis <= u64::MAX - q.maker_cost
            && ctx.taker_position.no_cost_basis <= u64::MAX - q.taker_cost
    } else {
        ctx.taker_position.yes_cost_basis <= u64::MAX - q.taker_cost
            && ctx.maker_position.no_cost_basis <= u64::MAX - q.maker_cost
    };
    if ctx.fee_recipient_amount > u64::MAX - q.taker_fee || ctx.market.total_positions as u64
        + added_positions > u32::MAX as u64 || !basis_ok || ctx.market.open_interest > u64::MAX
        - match_size || ctx.market.total_volume as u128 + q.yes_cost as u128 + q.no_cost as u128
        > u64::MAX as u128 || ctx.market.total_trades == u32::MAX {
        return Err(DegenError::MathOverflow);
    }
    // Every check has passed: apply the trade.

    let mut transfers: Vec<Transfer> = Vec::new();
    if !maker_escrowed {
        transfers.push(Transfer { from: Party::Maker, to: Party::Vault, amount: q.maker_cost });
    }
    if !taker_escrowed {
        transfers.push(Transfer { from: Party::Taker, to: Party::Vault, amount: q.taker_cost });
    }
    if q.taker_fee > 0 {
        transfers.push(Transfer { from: Party::Vault, to: Party::FeeRecipient, amount: q.taker_fee });
    }
    ctx.maker_usdc_amount = ctx.maker_usdc_amount - md;
    ctx.taker_usdc_amount = ctx.taker_usdc_amount - td;
    ctx.vault_amount = (funded - q.taker_fee as u128) as u64;
    ctx.fee_recipient_amount = ctx.fee_recipient_amount + q.taker_fee;
    fill_stored_exec(&mut ctx.maker_order, match_size);
    fill_stored_exec(&mut ctx.taker_order, match_size);
    if maker_new {
        ctx.maker_position.owner = ctx.maker;
        ctx.maker_position.market = ctx.market_key;
    }
    if taker_new {
        ctx.taker_position.owner = ctx.taker;
        ctx.taker_position.market = ctx.market_key;
    }
    credit_position(&mut ctx.maker_position, q.maker_buys_yes, match_size, q.maker_cost);
    credit_position(&mut ctx.taker_position, !q.maker_buys_yes, match_size, q.taker_cost);
    ctx.market.total_positions = (ctx.market.total_positions as u64 + added_positions) as u32;
    ctx.market.open_interest = ctx.market.open_interest + match_size;
    ctx.market.total_volume = ctx.market.total_volume + q.yes_cost + q.no_cost;
    ctx.market.total_trades = ctx.market.total_trades + 1;
    let ev = MatchExecuted {
        market: ctx.market_key,
        maker: ctx.maker,
        taker: ctx.taker,
        outcome: mt.outcome,
        price: mt.price,
        size: match_size,
        yes_cost: q.yes_cost,
        no_cost: q.no_cost,
        taker_fee: q.taker_fee,
        maker_has_escrow: maker_escrowed,
        taker_has_escrow: taker_escrowed,
        trade_type: TradeType::Opening,
    };
    Ok((ev, transfers))
}


// ---------------------------------------------------------------------------
// Laws of the opening trade
// ---------------------------------------------------------------------------

/// Within the legal ranges a quote's amounts are exact: the two legs cost
/// at least the `match_size` dollars that the minted pair will pay out, and
/// what the two sides owe adds up to both legs plus the fee.
pub proof fn lemma_quote_exact(
    maker_side: Side,
    outcome: Outcome,
    price: u64,
    match_size: u64,
    fee_bps: u16,
)
    requires
        MIN_PRICE <= price <= MAX_PRICE,
        match_size <= MAX_ORDER_SIZE,
        fee_bps <= MAX_FEE_BPS,
    ensures
        ({
            let q = match_quote(maker_side, outcome, price, match_size, fee_bps);
            let yp = yes_price_for(outcome, price as int);
            &&& quote_bounds(q)
            &&& q.yes_cost == share_cost(yp, match_size as int)
            &&& q.no_cost == share_cost(USDC_MULTIPLIER - yp, match_size as int)
            &&& q.maker_cost + q.taker_cost == q.yes_cost + q.no_cost + q.taker_fee
            &&& q.yes_cost + q.no_cost >= match_size
        }),
{
    let yp = yes_price_for(outcome, price as int);
    let np = USDC_MULTIPLIER - yp;
    let ms = match_size as int;
    lemma_cost_bounds(yp, ms);
    lemma_cost_bounds(np, ms);
    let yc = share_cost(yp, ms);
    let nc = share_cost(np, ms);
    assert(yc + nc >= ms) by (nonlinear_arith)
        requires
            yc * 1_000_000 >= yp * ms,
            nc * 1_000_000 >= np * ms,
            yp + np == 1_000_000,
    ;
    let leg = if buys_yes(maker_side, outcome) {
        nc
    } else {
        yc
    };
    assert(0 <= (leg * fee_bps) / 10_000 <= leg) by (nonlinear_arith)
        requires
            0 <= leg,
            0 <= fee_bps <= MAX_FEE_BPS,
    ;
}

/// An opening trade collects exactly what it owes the vault and loses
/// nothing: what the two sides owe is both legs plus the fee, and each side
/// either pays it now or had it in escrow already; the legs together cover
/// the dollar per pair that the minted shares pay out; the vault ends with
/// its balance plus the deposits less the fee; every balance changes by the
/// net of the transfers issued, and those nets add up to zero.
pub proof fn lemma_opening_trade_collects(
    c: ExecuteMatch,
    now: i64,
    maker_args: PlaceOrderArgs,
    taker_args: PlaceOrderArgs,
    match_size: u64,
)
    requires
        c.global_state.wf(),
        match_error(c, now, maker_args, taker_args, match_size) is None,
    ensures
        ({
            let q = quote_of(c, maker_args, match_size);
            let after = match_state(c, maker_args, match_size);
            let ts = match_transfers(c, q);
            let escrowed = (if c.maker_order is Some {
                q.maker_cost as int
            } else {
                0int
            }) + (if c.taker_order is Some {
                q.taker_cost as int
            } else {
                0int
            });
            &&& q.maker_cost + q.taker_cost == q.yes_cost + q.no_cost + q.taker_fee
            &&& maker_deposit(c, q) + taker_deposit(c, q) + escrowed == q.maker_cost + q.taker_cost
            &&& q.yes_cost + q.no_cost >= match_size
            &&& after.vault_amount == c.vault_amount + maker_deposit(c, q) + taker_deposit(c, q)
                - q.taker_fee
            &&& after.vault_amount == c.vault_amount + net_flow(ts, Party::Vault)
            &&& after.maker_usdc_amount == c.maker_usdc_amount + net_flow(ts, Party::Maker)
            &&& after.taker_usdc_amount == c.taker_usdc_amount + net_flow(ts, Party::Taker)
            &&& after.fee_recipient_amount == c.fee_recipient_amount + net_flow(
                ts,
                Party::FeeRecipient,
            )
            &&& net_flow(ts, Party::Vault) + net_flow(ts, Party::Maker) + net_flow(ts, Party::Taker)
                + net_flow(ts, Party::FeeRecipient) == 0
        }),
{
    let mt = terms_of(c.maker_order, maker_args);
    let q = quote_of(c, maker_args, match_size);
    lemma_quote_exact(mt.side, mt.outcome, mt.price, match_size, c.global_state.taker_fee_bps);
    let s0 = Seq::<Transfer>::empty();
    let t1 = Transfer { from: Party::Maker, to: Party::Vault, amount: q.maker_cost };
    let t2 = Transfer { from: Party::Taker, to: Party::Vault, amount: q.taker_cost };
    let t3 = Transfer { from: Party::Vault, to: Party::FeeRecipient, amount: q.taker_fee };
    let s1 = if c.maker_order is None {
        s0.push(t1)
    } else {
        s0
    };
    let s2 = if c.taker_order is None {
        s1.push(t2)
    } else {
        s1
    };
    let parties = seq![Party::Vault, Party::Maker, Party::Taker, Party::FeeRecipient];
    assert forall|i: int| 0 <= i < 4 implies net_flow(s0, #[trigger] parties[i]) == 0 by {}
    if c.maker_order is None {
        assert forall|i: int| 0 <= i < 4 implies net_flow(s1, #[trigger] parties[i]) == net_flow(
            s0,
            parties[i],
        ) + flow_of(t1, parties[i]) by {
            lemma_net_flow_push(s0, t1, parties[i]);
        }
    }
    if c.taker_order is None {
        assert forall|i: int| 0 <= i < 4 implies net_flow(s2, #[trigger] parties[i]) == net_flow(
            s1,
            parties[i],
        ) + flow_of(t2, parties[i]) by {
            lemma_net_flow_push(s1, t2, parties[i]);
        }
    }
    if q.taker_fee > 0 {
        assert forall|i: int| 0 <= i < 4 implies net_flow(
            s2.push(t3),
            #[trigger] parties[i],
        ) == net_flow(s2, parties[i]) + flow_of(t3, parties[i]) by {
            lemma_net_flow_push(s2, t3, parties[i]);
        }
    }
    assert(parties[0] == Party::Vault);
    assert(parties[1] == Party::Maker);
    assert(parties[2] == Party::Taker);
    assert(parties[3] == Party::FeeRecipient);
}

/// After an opening trade both stored orders still have their fill within
/// their size and the status their fill level determines.
pub proof fn lemma_match_keeps_orders_wf(
    c: ExecuteMatch,
    now: i64,
    maker_args: PlaceOrderArgs,
    taker_args: PlaceOrderArgs,
    match_size: u64,
)
    requires
        match_error(c, now, maker_args, taker_args, match_size) is None,
    ensures
        match_state(c, maker_args, match_size).maker_order matches Some(o) ==> o.wf(),
        match_state(c, maker_args, match_size).taker_order matches Some(o) ==> o.wf(),
{
}

/// Every opening trade is at prices in [10000, 990000] and sizes in
/// [1000, 100_000_000_000], and leaves each buyer holding at most
/// 500_000_000_000 shares of the outcome it bought; a position within the
/// cap stays within it.
pub proof fn lemma_opening_trade_within_limits(
    c: ExecuteMatch,
    now: i64,
    maker_args: PlaceOrderArgs,
    taker_args: PlaceOrderArgs,
    match_size: u64,
)
    requires
        c.global_state.wf(),
        match_error(c, now, maker_args, taker_args, match_size) is None,
    ensures
        price_in_range(terms_of(c.maker_order, maker_args).price),
        price_in_range(terms_of(c.taker_order, taker_args).price),
        on_tick(terms_of(c.maker_order, maker_args).price),
        on_tick(terms_of(c.taker_order, taker_args).price),
        size_in_range(terms_of(c.maker_order, maker_args).size),
        size_in_range(terms_of(c.taker_order, taker_args).size),
        size_in_range(match_size),
        quote_of(c, maker_args, match_size).maker_buys_yes ==> match_state(
            c,
            maker_args,
            match_size,
        ).maker_position.yes_shares <= MAX_POSITION_SIZE && match_state(
            c,
            maker_args,
            match_size,
        ).taker_position.no_shares <= MAX_POSITION_SIZE,
        !quote_of(c, maker_args, match_size).maker_buys_yes ==> match_state(
            c,
            maker_args,
            match_size,
        ).taker_position.yes_shares <= MAX_POSITION_SIZE && match_state(
            c,
            maker_args,
            match_size,
        ).maker_position.no_shares <= MAX_POSITION_SIZE,
        c.maker_position.wf() ==> match_state(c, maker_args, match_size).maker_position.wf(),
        c.taker_position.wf() ==> match_state(c, maker_args, match_size).taker_position.wf(),
{
}

} // verus!
