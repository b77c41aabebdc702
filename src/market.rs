use vstd::prelude::*;
use crate::errors::DegenError;
use crate::ledger::{Party, Transfer};
use crate::state::{
    asset_named, timeframe_named, Asset, GlobalState, Key, Market, MarketOutcome, MarketStatus,
    Timeframe, MAX_ASSET_LEN, MAX_TIMEFRAME_LEN, MIN_EXPIRY_BUFFER,
};

verus! {

// ---------------------------------------------------------------------------
// Creation
// ---------------------------------------------------------------------------

/// The records that creating a market reads and writes.
#[derive(Clone, Copy, Debug)]
pub struct InitializeMarket {
    pub global_state: GlobalState,
    /// The new market record; whatever it holds before is overwritten, but
    /// for its `bump`.
    pub market: Market,
    /// The signer, who becomes the market's authority.
    pub authority: Key,
}

/// The first check that creating a market fails, if it fails one.
pub open spec fn initialize_market_error(
    c: InitializeMarket,
    now: i64,
    asset: &str,
    timeframe: &str,
    expiry_ts: i64,
) -> Option<DegenError> {
    if asset.len() > MAX_ASSET_LEN {
        Some(DegenError::InvalidAsset)
    } else if timeframe.len() > MAX_TIMEFRAME_LEN {
        Some(DegenError::InvalidTimeframe)
    } else if expiry_ts <= now + MIN_EXPIRY_BUFFER {
        Some(DegenError::InvalidExpiry)
    } else if asset_named(asset@) is None {
        Some(DegenError::InvalidAsset)
    } else if timeframe_named(timeframe@) is None {
        Some(DegenError::InvalidTimeframe)
    } else if c.global_state.total_markets == u64::MAX {
        Some(DegenError::MathOverflow)
    } else {
        None
    }
}

/// A new market: open at once when a strike is given, else pending until
/// it is activated.
pub open spec fn new_market(
    c: InitializeMarket,
    now: i64,
    asset: Asset,
    timeframe: Timeframe,
    strike_price: u64,
    expiry_ts: i64,
) -> Market {
    Market {
        id: (c.global_state.total_markets + 1) as u64,
        authority: c.authority,
        asset,
        timeframe,
        strike_price,
        final_price: 0,
        created_at: now,
        expiry_at: expiry_ts,
        resolved_at: 0,
        settled_at: 0,
        status: if strike_price > 0 {
            MarketStatus::Open
        } else {
            MarketStatus::Pending
        },
        outcome: MarketOutcome::Pending,
        total_volume: 0,
        total_trades: 0,
        total_positions: 0,
        settled_positions: 0,
        open_interest: 0,
        bump: c.market.bump,
    }
}

/// Creates a market on a supported asset and timeframe that expires more
/// than a minute from `now`, and counts it in the global state. On failure
/// nothing changes.
pub fn initialize_market(
    ctx: &mut InitializeMarket,
    now: i64,
    asset: &str,
    timeframe: &str,
    strike_price: u64,
    expiry_ts: i64,
) -> (r: Result<(), DegenError>)
    ensures
        match r {
            Ok(()) => {
                &&& initialize_market_error(*old(ctx), now, asset, timeframe, expiry_ts) is None
                &&& final(ctx).global_state == GlobalState {
                    total_markets: (old(ctx).global_state.total_markets + 1) as u64,
                    ..old(ctx).global_state
                }
                &&& final(ctx).market == new_market(
                    *old(ctx),
                    now,
                    asset_named(asset@)->0,
                    timeframe_named(timeframe@)->0,
                    strike_price,
                    expiry_ts,
                )
                &&& final(ctx).authority == old(ctx).authority
            },
            Err(e) => {
                &&& initialize_market_error(*old(ctx), now, asset, timeframe, expiry_ts) == Some(e)
                &&& *final(ctx) == *old(ctx)
            },
        },
{
    if asset.len() > MAX_ASSET_LEN {
        return Err(DegenError::InvalidAsset);
    }
    if timeframe.len() > MAX_TIMEFRAME_LEN {
        return Err(DegenError::InvalidTimeframe);
    }
    if expiry_ts as i128 <= now as i128 + MIN_EXPIRY_BUFFER as i128 {
        return Err(DegenError::InvalidExpiry);
    }
    let a = match Asset::parse(asset) {
        Some(a) => a,
        None => return Err(DegenError::InvalidAsset),
    };
    let t = match Timeframe::parse(timeframe) {
        Some(t) => t,
        None => return Err(DegenError::InvalidTimeframe),
    };
    if ctx.global_state.total_markets == u64::MAX {
        return Err(DegenError::MathOverflow);
    }
    ctx.global_state.total_markets = ctx.global_state.total_markets + 1;
    ctx.market = Market {
        id: ctx.global_state.total_markets,
        authority: ctx.authority,
        asset: a,
        timeframe: t,
        strike_price,
        final_price: 0,
        created_at: now,
        expiry_at: expiry_ts,
        resolved_at: 0,
        settled_at: 0,
        status: if strike_price > 0 {
            MarketStatus::Open
        } else {
            MarketStatus::Pending
        },
        outcome: MarketOutcome::Pending,
        total_volume: 0,
        total_trades: 0,
        total_positions: 0,
        settled_positions: 0,
        open_interest: 0,
        bump: ctx.market.bump,
    };
    Ok(())
}

// ---------------------------------------------------------------------------
// Activation
// ---------------------------------------------------------------------------

#[derive(Clone, Copy, Debug)]
pub struct ActivateMarket {
    pub market: Market,
    /// The signer, who must be the market's authority.
    pub authority: Key,
}

pub open spec fn activate_error(c: ActivateMarket, now: i64, strike_price: u64) -> Option<DegenError> {
    if c.market.status != MarketStatus::Pending {
        Some(DegenError::MarketNotPending)
    } else if c.market.authority@ != c.authority@ {
        Some(DegenError::Unauthorized)
    } else if strike_price == 0 {
        Some(DegenError::InvalidMarketParams)
    } else if now >= c.market.expiry_at {
        Some(DegenError::MarketExpired)
    } else {
        None
    }
}

/// Opens a pending market at a nonzero strike price, before it expires.
/// On failure nothing changes.
pub fn activate_market(ctx: &mut ActivateMarket, now: i64, strike_price: u64) -> (r: Result<
    (),
    DegenError,
>)
    ensures
        match r {
            Ok(()) => {
                &&& activate_error(*old(ctx), now, strike_price) is None
                &&& *final(ctx) == ActivateMarket {
                    market: Market {
                        strike_price,
                        status: MarketStatus::Open,
                        ..old(ctx).market
                    },
                    ..*old(ctx)
                }
            },
            Err(e) => {
                &&& activate_error(*old(ctx), now, strike_price) == Some(e)
                &&& *final(ctx) == *old(ctx)
            },
        },
{
    if ctx.market.status != MarketStatus::Pending {
        return Err(DegenError::MarketNotPending);
    }
    if !ctx.market.authority.same(&ctx.authority) {
        return Err(DegenError::Unauthorized);
    }
    if strike_price == 0 {
        return Err(DegenError::InvalidMarketParams);
    }
    if now >= ctx.market.expiry_at {
        return Err(DegenError::MarketExpired);
    }
    ctx.market.strike_price = strike_price;
    ctx.market.status = MarketStatus::Open;
    Ok(())
}

// ---------------------------------------------------------------------------
// Resolution
// ---------------------------------------------------------------------------

/// The result a relayer reports for an expired market.
#[derive(Clone, Copy, PartialEq, Eq, Debug, Structural)]
pub struct ResolveMarketArgs {
    /// 0 for YES, 1 for NO.
    pub outcome: u8,
    /// Settlement price, eight decimals.
    pub final_price: u64,
}

#[derive(Clone, Copy, Debug)]
pub struct ResolveMarket {
    pub market: Market,
    /// The signer, who must be the market's authority.
    pub authority: Key,
}

pub open spec fn resolve_error(c: ResolveMarket, now: i64, args: ResolveMarketArgs) -> Option<
    DegenError,
> {
    if c.market.authority@ != c.authority@ {
        Some(DegenError::Unauthorized)
    } else if now < c.market.expiry_at {
        Some(DegenError::MarketNotExpired)
    } else if c.market.status != MarketStatus::Open && c.market.status != MarketStatus::Closed {
        Some(DegenError::MarketAlreadyResolved)
    } else if args.outcome > 1 {
        Some(DegenError::InvalidMarketParams)
    } else if args.final_price == 0 {
        Some(DegenError::InvalidOraclePrice)
    } else {
        None
    }
}

pub open spec fn outcome_of(code: u8) -> MarketOutcome {
    if code == 0 {
        MarketOutcome::Yes
    } else {
        MarketOutcome::No
    }
}

/// Records the outcome of an open or closed market once it has expired.
/// On failure nothing changes.
pub fn resolve_market(ctx: &mut ResolveMarket, now: i64, args: ResolveMarketArgs) -> (r: Result<
    (),
    DegenError,
>)
    ensures
        match r {
            Ok(()) => {
                &&& resolve_error(*old(ctx), now, args) is None
                &&& *final(ctx) == ResolveMarket {
                    market: Market {
                        final_price: args.final_price,
                        resolved_at: now,
                        status: MarketStatus::Resolved,
                        outcome: outcome_of(args.outcome),
                        ..old(ctx).market
                    },
                    ..*old(ctx)
                }
            },
            Err(e) => {
                &&& resolve_error(*old(ctx), now, args) == Some(e)
                &&& *final(ctx) == *old(ctx)
            },
        },
{
    if !ctx.market.authority.same(&ctx.authority) {
        return Err(DegenError::Unauthorized);
    }
    if now < ctx.market.expiry_at {
        return Err(DegenError::MarketNotExpired);
    }
    if ctx.market.status != MarketStatus::Open && ctx.market.status != MarketStatus::Closed {
        return Err(DegenError::MarketAlreadyResolved);
    }
    if args.outcome > 1 {
        return Err(DegenError::InvalidMarketParams);
    }
    if args.final_price == 0 {
        return Err(DegenError::InvalidOraclePrice);
    }
    ctx.market.final_price = args.final_price;
    ctx.market.resolved_at = now;
    ctx.market.status = MarketStatus::Resolved;
    ctx.market.outcome = if args.outcome == 0 {
        MarketOutcome::Yes
    } else {
        MarketOutcome::No
    };
    Ok(())
}

// ---------------------------------------------------------------------------
// Closure
// ---------------------------------------------------------------------------

/// The records and balances that closing a market reads and writes.
#[derive(Clone, Copy, Debug)]
pub struct CloseMarket {
    /// The market record; `None` once it has been removed.
    pub market: Option<Market>,
    pub vault_amount: u64,
    /// USDC held by the fee recipient's account, which receives leftover
    /// dust.
    pub fee_recipient_amount: u64,
    /// The signer, who must be the market's authority.
    pub authority: Key,
}

/// Every payout is done, or the market was resolved without positions.
pub open spec fn settled_or_resolved_empty(m: Market) -> bool {
    m.status == MarketStatus::Settled || (m.status == MarketStatus::Resolved && m.total_positions
        == 0)
}

/// The market never had a trade.
pub open spec fn no_trade(m: Market) -> bool {
    m.total_positions == 0 && m.open_interest == 0
}

pub open spec fn close_market_error(c: CloseMarket, now: i64) -> Option<DegenError> {
    match c.market {
        None => Some(DegenError::InvalidMarketParams),
        Some(m) => if m.authority@ != c.authority@ {
            Some(DegenError::Unauthorized)
        } else if now < m.expiry_at {
            Some(DegenError::MarketNotExpired)
        } else if !settled_or_resolved_empty(m) && !no_trade(m) {
            Some(DegenError::MarketNotSettled)
        } else if no_trade(m) && c.vault_amount != 0 {
            Some(DegenError::VaultNotEmpty)
        } else if c.fee_recipient_amount + c.vault_amount > u64::MAX {
            Some(DegenError::MathOverflow)
        } else {
            None
        },
    }
}

pub open spec fn sweep_transfers(c: CloseMarket) -> Seq<Transfer> {
    if c.vault_amount > 0 {
        seq![Transfer { from: Party::Vault, to: Party::FeeRecipient, amount: c.vault_amount }]
    } else {
        Seq::empty()
    }
}

/// Closes an expired market that is fully settled, or resolved without
/// positions, or never traded. A market that never traded must have an
/// empty vault, so that no user's escrow is swept. Leftover dust goes to
/// the fee recipient; then the vault and the market are removed.
/// On failure nothing changes.
pub fn close_market(ctx: &mut CloseMarket, now: i64) -> (r: Result<Vec<Transfer>, DegenError>)
    ensures
        match r {
            Ok(ts) => {
                &&& close_market_error(*old(ctx), now) is None
                &&& *final(ctx) == CloseMarket {
                    market: None,
                    vault_amount: 0,
                    fee_recipient_amount: (old(ctx).fee_recipient_amount
                        + old(ctx).vault_amount) as u64,
                    ..*old(ctx)
                }
                &&& ts@ == sweep_transfers(*old(ctx))
            },
            Err(e) => {
                &&& close_market_error(*old(ctx), now) == Some(e)
                &&& *final(ctx) == *old(ctx)
            },
        },
{
    let m = match &ctx.market {
        None => return Err(DegenError::InvalidMarketParams),
        Some(m) => *m,
    };
    if !m.authority.same(&ctx.authority) {
        return Err(DegenError::Unauthorized);
    }
    if now < m.expiry_at {
        return Err(DegenError::MarketNotExpired);
    }
    let settled_or_empty = m.status == MarketStatus::Settled || (m.status == MarketStatus::Resolved
        && m.total_positions == 0);
    let untraded = m.total_positions == 0 && m.open_interest == 0;
    if !settled_or_empty && !untraded {
        return Err(DegenError::MarketNotSettled);
    }
    if untraded && ctx.vault_amount != 0 {
        return Err(DegenError::VaultNotEmpty);
    }
    if ctx.fee_recipient_amount > u64::MAX - ctx.vault_amount {
        return Err(DegenError::MathOverflow);
    }
    let dust = ctx.vault_amount;
    let mut transfers: Vec<Transfer> = Vec::new();
    if dust > 0 {
        transfers.push(Transfer { from: Party::Vault, to: Party::FeeRecipient, amount: dust });
    }
    proof {
        assert(transfers@ =~= sweep_transfers(*old(ctx)));
    }
    ctx.fee_recipient_amount = ctx.fee_recipient_amount + dust;
    ctx.vault_amount = 0;
    ctx.market = None;
    Ok(transfers)
}


// ---------------------------------------------------------------------------
// Laws of the lifecycle
// ---------------------------------------------------------------------------

/// Where a status stands in the lifecycle Pending, Open, Closed, Resolved,
/// Settled.
pub open spec fn status_rank(s: MarketStatus) -> int {
    match s {
        MarketStatus::Pending => 0,
        MarketStatus::Open => 1,
        MarketStatus::Closed => 2,
        MarketStatus::Resolved => 3,
        MarketStatus::Settled => 4,
    }
}

/// Activation moves a market forward, from Pending to Open.
pub proof fn lemma_activation_moves_forward(c: ActivateMarket, now: i64, strike_price: u64)
    requires
        activate_error(c, now, strike_price) is None,
    ensures
        c.market.status == MarketStatus::Pending,
        status_rank(MarketStatus::Open) > status_rank(c.market.status),
{
}

/// Resolution moves a market forward, from Open or Closed to Resolved, and
/// decides its outcome.
pub proof fn lemma_resolution_moves_forward(c: ResolveMarket, now: i64, args: ResolveMarketArgs)
    requires
        resolve_error(c, now, args) is None,
    ensures
        status_rank(MarketStatus::Resolved) > status_rank(c.market.status),
        outcome_of(args.outcome) != MarketOutcome::Pending,
{
}


/// A new market is well formed: its outcome is undecided and it has no
/// positions, settled or not.
pub proof fn lemma_new_market_wf(
    c: InitializeMarket,
    now: i64,
    asset: Asset,
    timeframe: Timeframe,
    strike_price: u64,
    expiry_ts: i64,
)
    ensures
        new_market(c, now, asset, timeframe, strike_price, expiry_ts).wf(),
        new_market(c, now, asset, timeframe, strike_price, expiry_ts).expiry_at == expiry_ts,
{
}

/// Activation keeps a market well formed.
pub proof fn lemma_activation_keeps_wf(c: ActivateMarket, now: i64, strike_price: u64)
    requires
        c.market.wf(),
        activate_error(c, now, strike_price) is None,
    ensures
        (Market { strike_price, status: MarketStatus::Open, ..c.market }).wf(),
{
}

/// Resolution keeps a market well formed: the outcome it decides is Yes or
/// No.
pub proof fn lemma_resolution_keeps_wf(c: ResolveMarket, now: i64, args: ResolveMarketArgs)
    requires
        c.market.wf(),
        resolve_error(c, now, args) is None,
    ensures
        (Market {
            final_price: args.final_price,
            resolved_at: now,
            status: MarketStatus::Resolved,
            outcome: outcome_of(args.outcome),
            ..c.market
        }).wf(),
{
}

} // verus!
