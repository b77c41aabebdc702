use degen_terminal::config::{
    initialize_global, pause_protocol, str_to_bytes, transfer_admin, update_config, InitializeGlobal,
    PauseProtocol, TransferAdmin, UpdateConfig,
};
use degen_terminal::errors::DegenError;
use degen_terminal::ledger::{Party, Transfer};
use degen_terminal::market::{
    activate_market, close_market, initialize_market, resolve_market, ActivateMarket, CloseMarket,
    InitializeMarket, ResolveMarket, ResolveMarketArgs,
};
use degen_terminal::settlement::{settle_positions, SettlePositions};
use degen_terminal::state::{
    Asset, GlobalState, Key, Market, MarketOutcome, MarketStatus, Timeframe, UserPosition,
};

const NOW: i64 = 1_000_000;
const EXPIRY: i64 = NOW + 3_600;

fn key(b: u8) -> Key {
    Key { bytes: [b; 32] }
}

fn global() -> GlobalState {
    GlobalState {
        admin: key(1),
        fee_recipient: key(2),
        maker_fee_bps: 0,
        taker_fee_bps: 10,
        paused: false,
        pause_reason: [0u8; 100],
        paused_at: 0,
        total_markets: 4,
        total_volume: 0,
        bump: 0,
    }
}

fn market(status: MarketStatus) -> Market {
    Market {
        id: 5,
        authority: key(3),
        asset: Asset::Sol,
        timeframe: Timeframe::H4,
        strike_price: 15_000_000_000,
        final_price: 0,
        created_at: NOW - 100,
        expiry_at: EXPIRY,
        resolved_at: 0,
        settled_at: 0,
        status,
        outcome: MarketOutcome::Pending,
        total_volume: 0,
        total_trades: 0,
        total_positions: 0,
        settled_positions: 0,
        open_interest: 0,
        bump: 0,
    }
}

fn init_ctx() -> InitializeMarket {
    InitializeMarket { global_state: global(), market: market(MarketStatus::Pending), authority: key(3) }
}

#[test]
fn create_market_open_with_strike_or_pending_without() {
    let mut ctx = init_ctx();
    initialize_market(&mut ctx, NOW, "BTC", "5m", 6_500_000_000_000, NOW + 61).unwrap();
    assert_eq!(ctx.market.status, MarketStatus::Open);
    assert_eq!(ctx.market.id, 5);
    assert_eq!(ctx.global_state.total_markets, 5);
    assert_eq!(ctx.market.asset, Asset::Btc);
    assert_eq!(ctx.market.timeframe, Timeframe::M5);
    assert_eq!(ctx.market.outcome, MarketOutcome::Pending);
    assert_eq!(ctx.market.authority, key(3));
    assert_eq!(ctx.market.asset_str(), "BTC");
    assert_eq!(ctx.market.timeframe_str(), "5m");
    assert_eq!(ctx.market.asset_bytes(), b"BTC".to_vec());
    assert_eq!(ctx.market.timeframe_bytes(), b"5m".to_vec());

    let mut ctx = init_ctx();
    initialize_market(&mut ctx, NOW, "ETH", "24h", 0, EXPIRY).unwrap();
    assert_eq!(ctx.market.status, MarketStatus::Pending);
    assert_eq!(ctx.market.timeframe_bytes(), b"24h".to_vec());
}

#[test]
fn create_market_errors() {
    let cases = [
        ("DOGE", "5m", EXPIRY, DegenError::InvalidAsset),
        ("BTC", "2h", EXPIRY, DegenError::InvalidTimeframe),
        ("BTC", "5m", NOW + 60, DegenError::InvalidExpiry),
        ("A_VERY_LONG_ASSET", "5m", NOW, DegenError::InvalidAsset),
        ("BTC", "eleven_chars", NOW, DegenError::InvalidTimeframe),
    ];
    for (a, t, e, err) in cases {
        let mut ctx = init_ctx();
        assert_eq!(initialize_market(&mut ctx, NOW, a, t, 1, e).unwrap_err(), err);
        assert_eq!(ctx.global_state.total_markets, 4);
    }
}

#[test]
fn activate_pending_market() {
    let mut ctx = ActivateMarket { market: market(MarketStatus::Pending), authority: key(3) };
    assert_eq!(activate_market(&mut ctx, NOW, 0).unwrap_err(), DegenError::InvalidMarketParams);
    assert_eq!(activate_market(&mut ctx, EXPIRY, 7).unwrap_err(), DegenError::MarketExpired);
    activate_market(&mut ctx, NOW, 7).unwrap();
    assert_eq!(ctx.market.status, MarketStatus::Open);
    assert_eq!(ctx.market.strike_price, 7);
    assert_eq!(activate_market(&mut ctx, NOW, 8).unwrap_err(), DegenError::MarketNotPending);
    let mut other = ActivateMarket { market: market(MarketStatus::Pending), authority: key(4) };
    assert_eq!(activate_market(&mut other, NOW, 7).unwrap_err(), DegenError::Unauthorized);
}

#[test]
fn resolve_after_expiry_only_once() {
    let mut ctx = ResolveMarket { market: market(MarketStatus::Open), authority: key(3) };
    let yes = ResolveMarketArgs { outcome: 0, final_price: 15_100_000_000 };
    assert_eq!(resolve_market(&mut ctx, EXPIRY - 1, yes).unwrap_err(), DegenError::MarketNotExpired);
    assert_eq!(
        resolve_market(&mut ctx, EXPIRY, ResolveMarketArgs { outcome: 2, final_price: 1 }).unwrap_err(),
        DegenError::InvalidMarketParams
    );
    assert_eq!(
        resolve_market(&mut ctx, EXPIRY, ResolveMarketArgs { outcome: 1, final_price: 0 }).unwrap_err(),
        DegenError::InvalidOraclePrice
    );
    resolve_market(&mut ctx, EXPIRY, yes).unwrap();
    assert_eq!(ctx.market.status, MarketStatus::Resolved);
    assert_eq!(ctx.market.outcome, MarketOutcome::Yes);
    assert_eq!(ctx.market.resolved_at, EXPIRY);
    assert_eq!(ctx.market.final_price, 15_100_000_000);
    assert_eq!(resolve_market(&mut ctx, EXPIRY, yes).unwrap_err(), DegenError::MarketAlreadyResolved);
}

fn position(yes: u64, no: u64) -> UserPosition {
    UserPosition {
        owner: key(10),
        market: key(9),
        yes_shares: yes,
        no_shares: no,
        yes_cost_basis: 0,
        no_cost_basis: 0,
        realized_pnl: 0,
        settled: false,
        payout: 0,
        bump: 0,
    }
}

#[test]
fn settle_pays_winning_shares_once() {
    let mut rctx = ResolveMarket { market: market(MarketStatus::Open), authority: key(3) };
    rctx.market.total_positions = 2;
    resolve_market(&mut rctx, EXPIRY, ResolveMarketArgs { outcome: 0, final_price: 1 }).unwrap();
    let mut ctx = SettlePositions {
        market_key: key(9),
        market: rctx.market,
        vault_amount: 40_000_000,
        position: position(25_000_000, 15_000_000),
        user_usdc_amount: 0,
    };
    let (payout, ts) = settle_positions(&mut ctx, EXPIRY + 5).unwrap();
    assert_eq!(payout, 25_000_000);
    assert_eq!(ts, vec![Transfer { from: Party::Vault, to: Party::Owner, amount: 25_000_000 }]);
    assert_eq!(ctx.vault_amount, 15_000_000);
    assert_eq!(ctx.user_usdc_amount, 25_000_000);
    assert!(ctx.position.settled);
    assert_eq!(ctx.position.payout, 25_000_000);
    assert_eq!(ctx.market.settled_positions, 1);
    assert_eq!(ctx.market.status, MarketStatus::Resolved);
    assert_eq!(
        settle_positions(&mut ctx, EXPIRY + 6).unwrap_err(),
        DegenError::PositionAlreadySettled
    );
    assert_eq!(ctx.vault_amount, 15_000_000);
}

#[test]
fn settling_last_position_settles_market() {
    let mut m = market(MarketStatus::Resolved);
    m.outcome = MarketOutcome::No;
    m.total_positions = 1;
    let mut ctx = SettlePositions {
        market_key: key(9),
        market: m,
        vault_amount: 0,
        position: position(25_000_000, 0),
        user_usdc_amount: 0,
    };
    let (payout, ts) = settle_positions(&mut ctx, EXPIRY + 9).unwrap();
    assert_eq!(payout, 0);
    assert!(ts.is_empty());
    assert_eq!(ctx.market.status, MarketStatus::Settled);
    assert_eq!(ctx.market.settled_at, EXPIRY + 9);
}

#[test]
fn settle_errors() {
    let mut ctx = SettlePositions {
        market_key: key(9),
        market: market(MarketStatus::Open),
        vault_amount: 0,
        position: position(25_000_000, 0),
        user_usdc_amount: 0,
    };
    assert_eq!(settle_positions(&mut ctx, EXPIRY).unwrap_err(), DegenError::MarketNotResolved);
    ctx.market.status = MarketStatus::Resolved;
    ctx.market.outcome = MarketOutcome::Yes;
    ctx.market.total_positions = 3;
    assert_eq!(
        settle_positions(&mut ctx, EXPIRY).unwrap_err(),
        DegenError::InsufficientVaultBalance
    );
    ctx.market_key = key(8);
    assert_eq!(settle_positions(&mut ctx, EXPIRY).unwrap_err(), DegenError::InvalidMarketParams);
}

fn close_ctx(m: Market, vault: u64) -> CloseMarket {
    CloseMarket { market: Some(m), vault_amount: vault, fee_recipient_amount: 0, authority: key(3) }
}

#[test]
fn close_untraded_market_needs_empty_vault() {
    let mut ctx = close_ctx(market(MarketStatus::Open), 0);
    let ts = close_market(&mut ctx, EXPIRY).unwrap();
    assert!(ts.is_empty());
    assert!(ctx.market.is_none());

    let mut ctx = close_ctx(market(MarketStatus::Open), 1);
    assert_eq!(close_market(&mut ctx, EXPIRY).unwrap_err(), DegenError::VaultNotEmpty);
    assert!(ctx.market.is_some());
    assert_eq!(ctx.vault_amount, 1);
}

#[test]
fn close_settled_market_sweeps_dust() {
    let mut m = market(MarketStatus::Settled);
    m.total_positions = 2;
    m.settled_positions = 2;
    m.open_interest = 10_000_000;
    let mut ctx = close_ctx(m, 3);
    let ts = close_market(&mut ctx, EXPIRY).unwrap();
    assert_eq!(ts, vec![Transfer { from: Party::Vault, to: Party::FeeRecipient, amount: 3 }]);
    assert_eq!(ctx.vault_amount, 0);
    assert_eq!(ctx.fee_recipient_amount, 3);
    assert!(ctx.market.is_none());
}

#[test]
fn close_market_errors() {
    let mut traded = market(MarketStatus::Resolved);
    traded.total_positions = 2;
    traded.open_interest = 5;
    let mut ctx = close_ctx(traded, 10);
    assert_eq!(close_market(&mut ctx, EXPIRY).unwrap_err(), DegenError::MarketNotSettled);
    let mut ctx = close_ctx(market(MarketStatus::Open), 0);
    assert_eq!(close_market(&mut ctx, EXPIRY - 1).unwrap_err(), DegenError::MarketNotExpired);
    ctx.authority = key(4);
    assert_eq!(close_market(&mut ctx, EXPIRY).unwrap_err(), DegenError::Unauthorized);
}

#[test]
fn global_configuration() {
    let mut ctx = InitializeGlobal { global_state: global(), admin: key(1), fee_recipient: key(2) };
    assert_eq!(initialize_global(&mut ctx, 501, 10).unwrap_err(), DegenError::InvalidFeeConfig);
    initialize_global(&mut ctx, 0, 500).unwrap();
    assert_eq!(ctx.global_state.taker_fee_bps, 500);
    assert_eq!(ctx.global_state.total_markets, 0);
    assert!(!ctx.global_state.paused);

    let mut p = PauseProtocol { global_state: ctx.global_state, admin: key(1) };
    pause_protocol(&mut p, NOW, true, Some("maintenance")).unwrap();
    assert!(p.global_state.paused);
    assert_eq!(p.global_state.paused_at, NOW);
    assert_eq!(&p.global_state.pause_reason[..11], b"maintenance");
    assert_eq!(p.global_state.pause_reason[11], 0);
    pause_protocol(&mut p, NOW + 1, false, None).unwrap();
    assert!(!p.global_state.paused);
    assert_eq!(p.global_state.paused_at, 0);
    assert_eq!(p.global_state.pause_reason, [0u8; 100]);
    p.admin = key(7);
    assert_eq!(pause_protocol(&mut p, NOW, true, None).unwrap_err(), DegenError::Unauthorized);

    let mut u = UpdateConfig { global_state: p.global_state, admin: key(1), new_fee_recipient: Some(key(5)) };
    assert_eq!(update_config(&mut u, Some(600), None).unwrap_err(), DegenError::InvalidFeeConfig);
    assert_eq!(u.global_state.fee_recipient, key(2));
    update_config(&mut u, Some(5), None).unwrap();
    assert_eq!(u.global_state.maker_fee_bps, 5);
    assert_eq!(u.global_state.taker_fee_bps, 500);
    assert_eq!(u.global_state.fee_recipient, key(5));

    let mut t = TransferAdmin { global_state: u.global_state, admin: key(1), new_admin: key(6) };
    transfer_admin(&mut t).unwrap();
    assert_eq!(t.global_state.admin, key(6));
    assert_eq!(transfer_admin(&mut t).unwrap_err(), DegenError::Unauthorized);
}

#[test]
fn padded_bytes_cut_long_text() {
    let b: [u8; 4] = str_to_bytes::<4>("abcdef");
    assert_eq!(b, *b"abcd");
    let c: [u8; 4] = str_to_bytes::<4>("ab");
    assert_eq!(c, [97, 98, 0, 0]);
}
