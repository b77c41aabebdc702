use vstd::prelude::*;
use crate::errors::DegenError;
use crate::ledger::{Party, Transfer};
use crate::market::status_rank;
use crate::state::{Key, Market, MarketOutcome, MarketStatus, UserPosition};

verus! {

/// The records and balances that settling one position reads and writes.
#[derive(Clone, Copy, Debug)]
pub struct SettlePositions {
    pub market_key: Key,
    pub market: Market,
    pub vault_amount: u64,
    /// The position to settle. Once settled it is marked so, with its
    /// payout, and the store may remove it.
    pub position: UserPosition,
    /// The position owner's account, which receives the payout.
    pub user_usdc_amount: u64,
}

/// What a position is paid at settlement: one dollar per winning share, and
/// since shares and dollars carry the same six decimals, exactly its count
/// of winning shares.
pub open spec fn payout_for(p: UserPosition, outcome: MarketOutcome) -> int {
    match outcome {
        MarketOutcome::Yes => p.yes_shares as int,
        MarketOutcome::No => p.no_shares as int,
        MarketOutcome::Pending => 0,
    }
}

pub open spec fn settle_error(c: SettlePositions) -> Option<DegenError> {
    let payout = payout_for(c.position, c.market.outcome);
    if c.position.market@ != c.market_key@ {
        Some(DegenError::InvalidMarketParams)
    } else if c.position.settled {
        Some(DegenError::PositionAlreadySettled)
    } else if c.market.status != MarketStatus::Resolved {
        Some(DegenError::MarketNotResolved)
    } else if c.market.outcome == MarketOutcome::Pending {
        Some(DegenError::MarketNotResolved)
    } else if payout > 0 && c.vault_amount < payout {
        Some(DegenError::InsufficientVaultBalance)
    } else if c.user_usdc_amount + payout > u64::MAX {
        Some(DegenError::MathOverflow)
    } else if c.market.settled_positions == u32::MAX {
        Some(DegenError::MathOverflow)
    } else {
        None
    }
}

/// The records and balances after a successful settlement at `now`: the
/// payout leaves the vault, the position is marked settled, and the market
/// becomes settled when this was its last unsettled position.
pub open spec fn settle_state(c: SettlePositions, now: i64) -> SettlePositions {
    let payout = payout_for(c.position, c.market.outcome);
    let settled = (c.market.settled_positions + 1) as u32;
    let all_done = settled >= c.market.total_positions;
    SettlePositions {
        market: Market {
            settled_positions: settled,
            status: if all_done {
                MarketStatus::Settled
            } else {
                c.market.status
            },
            settled_at: if all_done {
                now
            } else {
                c.market.settled_at
            },
            ..c.market
        },
        vault_amount: (c.vault_amount - payout) as u64,
        user_usdc_amount: (c.user_usdc_amount + payout) as u64,
        position: UserPosition { settled: true, payout: payout as u64, ..c.position },
        ..c
    }
}

pub open spec fn payout_transfers(c: SettlePositions) -> Seq<Transfer> {
    let payout = payout_for(c.position, c.market.outcome);
    if payout > 0 {
        seq![Transfer { from: Party::Vault, to: Party::Owner, amount: payout as u64 }]
    } else {
        Seq::empty()
    }
}

/// Settles one position of a resolved market: pays its winning shares out
/// of the vault, marks it settled, and counts it; the market becomes
/// settled with its last position. On failure nothing changes.
pub fn settle_positions(ctx: &mut SettlePositions, now: i64) -> (r: Result<
    (u64, Vec<Transfer>),
    DegenError,
>)
    ensures
        match r {
            Ok((payout, ts)) => {
                &&& settle_error(*old(ctx)) is None
                &&& payout == payout_for(old(ctx).position, old(ctx).market.outcome)
                &&& *final(ctx) == settle_state(*old(ctx), now)
                &&& ts@ == payout_transfers(*old(ctx))
            },
            Err(e) => {
                &&& settle_error(*old(ctx)) == Some(e)
                &&& *final(ctx) == *old(ctx)
            },
        },
{
    if !ctx.position.market.same(&ctx.market_key) {
        return Err(DegenError::InvalidMarketParams);
    }
    if ctx.position.settled {
        return Err(DegenError::PositionAlreadySettled);
    }
    if ctx.market.status != MarketStatus::Resolved {
        return Err(DegenError::MarketNotResolved);
    }
    if ctx.market.outcome == MarketOutcome::Pending {
        return Err(DegenError::MarketNotResolved);
    }
    let payout: u64 = match ctx.market.outcome {
        MarketOutcome::Yes => ctx.position.yes_shares,
        MarketOutcome::No => ctx.position.no_shares,
        MarketOutcome::Pending => 0,
    };
    if payout > 0 && ctx.vault_amount < payout {
        return Err(DegenError::InsufficientVaultBalance);
    }
    if ctx.user_usdc_amount > u64::MAX - payout {
        return Err(DegenError::MathOverflow);
    }
    if ctx.market.settled_positions == u32::MAX {
        return Err(DegenError::MathOverflow);
    }
    let mut transfers: Vec<Transfer> = Vec::new();
    if payout > 0 {
        transfers.push(Transfer { from: Party::Vault, to: Party::Owner, amount: payout });
    }
    proof {
        assert(transfers@ =~= payout_transfers(*old(ctx)));
    }
    ctx.vault_amount = ctx.vault_amount - payout;
    ctx.user_usdc_amount = ctx.user_usdc_amount + payout;
    ctx.position.settled = true;
    ctx.position.payout = payout;
    ctx.market.settled_positions = ctx.market.settled_positions + 1;
    if ctx.market.settled_positions >= ctx.market.total_positions {
        ctx.market.status = MarketStatus::Settled;
        ctx.market.settled_at = now;
    }
    Ok((payout, transfers))
}


/// Settlement pays a position exactly its count of winning shares, and a
/// settled position cannot be settled again.
pub proof fn lemma_settle_once(c: SettlePositions, now: i64)
    requires
        settle_error(c) is None,
    ensures
        c.market.outcome == MarketOutcome::Yes ==> payout_for(c.position, c.market.outcome)
            == c.position.yes_shares,
        c.market.outcome == MarketOutcome::No ==> payout_for(c.position, c.market.outcome)
            == c.position.no_shares,
        settle_state(c, now).position.payout == payout_for(c.position, c.market.outcome),
        settle_error(settle_state(c, now)) == Some(DegenError::PositionAlreadySettled),
        status_rank(settle_state(c, now).market.status) >= status_rank(c.market.status),
        c.market.wf() && c.market.settled_positions < c.market.total_positions ==> settle_state(
            c,
            now,
        ).market.wf(),
{
}


/// Settling an unsettled position of a resolved market in that market
/// succeeds whenever the vault holds its winning shares' payout and the
/// counters and the owner's account have room; the payout leaves the vault
/// for the owner in one transfer, or in none when it is zero.
pub proof fn lemma_settle_succeeds(c: SettlePositions, now: i64)
    requires
        c.position.market@ == c.market_key@,
        c.market.status == MarketStatus::Resolved,
        c.market.outcome != MarketOutcome::Pending,
        !c.position.settled,
        c.vault_amount >= payout_for(c.position, c.market.outcome),
        c.user_usdc_amount + payout_for(c.position, c.market.outcome) <= u64::MAX,
        c.market.settled_positions < u32::MAX,
    ensures
        settle_error(c) is None,
        settle_state(c, now).vault_amount == c.vault_amount - payout_for(
            c.position,
            c.market.outcome,
        ),
        settle_state(c, now).user_usdc_amount == c.user_usdc_amount + payout_for(
            c.position,
            c.market.outcome,
        ),
        settle_state(c, now).position.settled,
        payout_for(c.position, c.market.outcome) == 0 ==> payout_transfers(c) == Seq::<
            Transfer,
        >::empty(),
        payout_for(c.position, c.market.outcome) > 0 ==> payout_transfers(c).len() == 1,
{
}

} // verus!
