use degen_terminal::closing::{execute_close, CloseTradeArgs, ExecuteClose};
use degen_terminal::errors::DegenError;
use degen_terminal::ledger::{Party, Transfer};
use degen_terminal::matching::{execute_match, quote_match, ExecuteMatch};
use degen_terminal::orders::PlaceOrderArgs;
use degen_terminal::state::{
    Asset, GlobalState, Key, Market, MarketOutcome, MarketStatus, Order, OrderStatus, OrderType,
    Outcome, Side, Timeframe, TradeType, UserPosition,
};

const NOW: i64 = 1_000_000;
const EXPIRY: i64 = NOW + 3_600;

fn key(b: u8) -> Key {
    Key { bytes: [b; 32] }
}

fn global(bps: u16) -> GlobalState {
    GlobalState {
        admin: key(1),
        fee_recipient: key(2),
        maker_fee_bps: 0,
        taker_fee_bps: bps,
        paused: false,
        pause_reason: [0u8; 100],
        paused_at: 0,
        total_markets: 1,
        total_volume: 0,
        bump: 0,
    }
}

fn open_market() -> Market {
    Market {
        id: 1,
        authority: key(3),
        asset: Asset::Eth,
        timeframe: Timeframe::M15,
        strike_price: 300_000_000_000,
        final_price: 0,
        created_at: NOW - 100,
        expiry_at: EXPIRY,
        resolved_at: 0,
        settled_at: 0,
        status: MarketStatus::Open,
        outcome: MarketOutcome::Pending,
        total_volume: 0,
        total_trades: 0,
        total_positions: 0,
        settled_positions: 0,
        open_interest: 0,
        bump: 0,
    }
}

fn fresh_position() -> UserPosition {
    UserPosition {
        owner: Key::zero(),
        market: Key::zero(),
        yes_shares: 0,
        no_shares: 0,
        yes_cost_basis: 0,
        no_cost_basis: 0,
        realized_pnl: 0,
        settled: false,
        payout: 0,
        bump: 0,
    }
}

fn held(owner: Key, yes: u64, yes_basis: u64) -> UserPosition {
    UserPosition {
        owner,
        market: key(9),
        yes_shares: yes,
        yes_cost_basis: yes_basis,
        ..fresh_position()
    }
}

fn quote(side: Side, price: u64) -> PlaceOrderArgs {
    PlaceOrderArgs {
        side,
        outcome: Outcome::Yes,
        order_type: OrderType::Limit,
        price,
        size: 100_000_000,
        expiry_ts: EXPIRY,
        client_order_id: 1,
    }
}

fn match_ctx(bps: u16) -> ExecuteMatch {
    ExecuteMatch {
        global_state: global(bps),
        market_key: key(9),
        market: open_market(),
        vault_amount: 0,
        fee_recipient_amount: 0,
        maker: key(10),
        maker_position: fresh_position(),
        maker_usdc_amount: 1_000_000_000,
        maker_order: None,
        taker: key(11),
        taker_position: fresh_position(),
        taker_usdc_amount: 1_000_000_000,
        taker_order: None,
    }
}

fn stored(owner: Key, side: Side, price: u64, size: u64, locked: u64) -> Order {
    Order {
        owner,
        market: key(9),
        side,
        outcome: Outcome::Yes,
        order_type: OrderType::Limit,
        price,
        size,
        filled_size: 0,
        status: OrderStatus::Open,
        client_order_id: 5,
        expiry_ts: EXPIRY,
        created_at: NOW - 10,
        locked_amount: locked,
        bump: 0,
    }
}

#[test]
fn opening_trade_prices_both_legs_and_charges_taker_fee() {
    let mut ctx = match_ctx(10);
    let (ev, ts) =
        execute_match(&mut ctx, NOW, quote(Side::Bid, 600_000), quote(Side::Ask, 600_000), 10_000_000)
            .unwrap();
    assert_eq!(ev.yes_cost, 6_000_000);
    assert_eq!(ev.no_cost, 4_000_000);
    assert_eq!(ev.taker_fee, 4_000);
    assert_eq!(ev.price, 600_000);
    assert_eq!(ev.trade_type, TradeType::Opening);
    assert!(!ev.maker_has_escrow && !ev.taker_has_escrow);
    assert_eq!(ctx.maker_position.yes_shares, 10_000_000);
    assert_eq!(ctx.maker_position.yes_cost_basis, 6_000_000);
    assert_eq!(ctx.taker_position.no_shares, 10_000_000);
    assert_eq!(ctx.taker_position.no_cost_basis, 4_004_000);
    assert_eq!(ctx.maker_position.owner, key(10));
    assert_eq!(ctx.taker_position.owner, key(11));
    assert_eq!(ctx.market.total_positions, 2);
    assert_eq!(ctx.market.open_interest, 10_000_000);
    assert_eq!(ctx.market.total_volume, 10_000_000);
    assert_eq!(ctx.market.total_trades, 1);
    assert_eq!(ctx.vault_amount, 10_000_000);
    assert_eq!(ctx.fee_recipient_amount, 4_000);
    assert_eq!(ctx.maker_usdc_amount, 1_000_000_000 - 6_000_000);
    assert_eq!(ctx.taker_usdc_amount, 1_000_000_000 - 4_004_000);
    assert_eq!(
        ts,
        vec![
            Transfer { from: Party::Maker, to: Party::Vault, amount: 6_000_000 },
            Transfer { from: Party::Taker, to: Party::Vault, amount: 4_004_000 },
            Transfer { from: Party::Vault, to: Party::FeeRecipient, amount: 4_000 },
        ]
    );
}

#[test]
fn vault_gains_deposits_less_fee() {
    let mut ctx = match_ctx(25);
    ctx.vault_amount = 777;
    let before = ctx;
    let (ev, ts) =
        execute_match(&mut ctx, NOW, quote(Side::Ask, 370_000), quote(Side::Bid, 380_000), 3_333_333)
            .unwrap();
    let deposits: u64 = ts.iter().filter(|t| t.to == Party::Vault).map(|t| t.amount).sum();
    let paid_out: u64 = ts.iter().filter(|t| t.from == Party::Vault).map(|t| t.amount).sum();
    assert_eq!(paid_out, ev.taker_fee);
    assert_eq!(ctx.vault_amount, before.vault_amount + deposits - paid_out);
    assert!(ev.yes_cost + ev.no_cost >= 3_333_333);
    let total_before = before.vault_amount
        + before.maker_usdc_amount
        + before.taker_usdc_amount
        + before.fee_recipient_amount;
    let total_after =
        ctx.vault_amount + ctx.maker_usdc_amount + ctx.taker_usdc_amount + ctx.fee_recipient_amount;
    assert_eq!(total_before, total_after);
    // the maker asked YES, so the maker is the NO buyer
    assert_eq!(ctx.maker_position.no_shares, 3_333_333);
    assert_eq!(ctx.taker_position.yes_shares, 3_333_333);
}

#[test]
fn escrowed_orders_pay_nothing_now_and_record_fills() {
    let mut ctx = match_ctx(10);
    ctx.vault_amount = 100_000_000;
    ctx.maker_order = Some(stored(key(10), Side::Bid, 600_000, 20_000_000, 12_000_000));
    ctx.taker_order = Some(stored(key(11), Side::Ask, 590_000, 10_000_000, 4_100_000));
    let (ev, ts) =
        execute_match(&mut ctx, NOW, quote(Side::Bid, 1), quote(Side::Ask, 1), 10_000_000).unwrap();
    assert!(ev.maker_has_escrow && ev.taker_has_escrow);
    assert_eq!(ev.price, 600_000);
    assert_eq!(ts, vec![Transfer { from: Party::Vault, to: Party::FeeRecipient, amount: 4_000 }]);
    assert_eq!(ctx.vault_amount, 100_000_000 - 4_000);
    assert_eq!(ctx.maker_usdc_amount, 1_000_000_000);
    let m = ctx.maker_order.unwrap();
    assert_eq!(m.filled_size, 10_000_000);
    assert_eq!(m.status, OrderStatus::PartialFill);
    let t = ctx.taker_order.unwrap();
    assert_eq!(t.filled_size, 10_000_000);
    assert_eq!(t.status, OrderStatus::Filled);
    for o in [m, t] {
        assert!(o.filled_size <= o.size);
        assert_eq!(o.status == OrderStatus::Filled, o.filled_size == o.size);
        assert_eq!(o.status == OrderStatus::PartialFill, 0 < o.filled_size && o.filled_size < o.size);
    }
}

#[test]
fn match_never_overfills_a_stored_order() {
    let mut ctx = match_ctx(10);
    ctx.vault_amount = 100_000_000;
    let mut o = stored(key(10), Side::Bid, 600_000, 20_000_000, 12_000_000);
    o.filled_size = 15_000_000;
    o.status = OrderStatus::PartialFill;
    ctx.maker_order = Some(o);
    assert_eq!(
        execute_match(&mut ctx, NOW, quote(Side::Bid, 1), quote(Side::Ask, 600_000), 10_000_000)
            .unwrap_err(),
        DegenError::InvalidSize
    );
    assert_eq!(ctx.maker_order.unwrap().filled_size, 15_000_000);
}

#[test]
fn match_validation_errors() {
    let cases = [
        (quote(Side::Bid, 600_000), quote(Side::Bid, 600_000), DegenError::SameSide),
        (
            quote(Side::Bid, 600_000),
            PlaceOrderArgs { outcome: Outcome::No, ..quote(Side::Ask, 600_000) },
            DegenError::OutcomeMismatch,
        ),
        (quote(Side::Bid, 600_000), quote(Side::Ask, 610_000), DegenError::PriceMismatch),
        (quote(Side::Ask, 600_000), quote(Side::Bid, 590_000), DegenError::PriceMismatch),
        (quote(Side::Bid, 995_000), quote(Side::Ask, 600_000), DegenError::InvalidPrice),
        (
            PlaceOrderArgs { expiry_ts: NOW, ..quote(Side::Bid, 600_000) },
            quote(Side::Ask, 600_000),
            DegenError::OrderExpired,
        ),
    ];
    for (m, t, e) in cases {
        let mut ctx = match_ctx(10);
        assert_eq!(execute_match(&mut ctx, NOW, m, t, 10_000_000).unwrap_err(), e);
        assert_eq!(ctx.vault_amount, 0);
        assert_eq!(ctx.market.total_trades, 0);
    }
    let mut ctx = match_ctx(10);
    assert_eq!(
        execute_match(&mut ctx, NOW, quote(Side::Bid, 600_000), quote(Side::Ask, 600_000), 999)
            .unwrap_err(),
        DegenError::InvalidSize
    );
}

#[test]
fn match_rejects_self_trade_pause_and_closing_window() {
    let mut ctx = match_ctx(10);
    ctx.taker = key(10);
    let m = quote(Side::Bid, 600_000);
    let t = quote(Side::Ask, 600_000);
    assert_eq!(execute_match(&mut ctx, NOW, m, t, 10_000_000).unwrap_err(), DegenError::SelfTrade);
    let mut ctx = match_ctx(10);
    ctx.global_state.paused = true;
    assert_eq!(execute_match(&mut ctx, NOW, m, t, 10_000_000).unwrap_err(), DegenError::ProtocolPaused);
    let mut ctx = match_ctx(10);
    assert_eq!(
        execute_match(&mut ctx, EXPIRY - 30, m, t, 10_000_000).unwrap_err(),
        DegenError::MarketClosing
    );
    let mut ctx = match_ctx(10);
    ctx.market.status = MarketStatus::Pending;
    assert_eq!(execute_match(&mut ctx, NOW, m, t, 10_000_000).unwrap_err(), DegenError::MarketNotOpen);
}

#[test]
fn match_checks_stored_orders() {
    let m = quote(Side::Bid, 600_000);
    let t = quote(Side::Ask, 600_000);
    let mut ctx = match_ctx(10);
    ctx.maker_order = Some(stored(key(12), Side::Bid, 600_000, 20_000_000, 12_000_000));
    assert_eq!(execute_match(&mut ctx, NOW, m, t, 10_000_000).unwrap_err(), DegenError::Unauthorized);
    let mut ctx = match_ctx(10);
    let mut o = stored(key(10), Side::Bid, 600_000, 20_000_000, 12_000_000);
    o.status = OrderStatus::Cancelled;
    ctx.maker_order = Some(o);
    assert_eq!(execute_match(&mut ctx, NOW, m, t, 10_000_000).unwrap_err(), DegenError::OrderNotActive);
    let mut ctx = match_ctx(10);
    ctx.taker_position = held(key(12), 0, 0);
    assert_eq!(execute_match(&mut ctx, NOW, m, t, 10_000_000).unwrap_err(), DegenError::Unauthorized);
}

#[test]
fn match_enforces_position_cap_and_balances() {
    let m = quote(Side::Bid, 600_000);
    let t = quote(Side::Ask, 600_000);
    let mut ctx = match_ctx(10);
    ctx.maker_position = held(key(10), 495_000_000_000, 1);
    assert_eq!(
        execute_match(&mut ctx, NOW, m, t, 5_000_000_001).unwrap_err(),
        DegenError::PositionLimitExceeded
    );
    assert!(execute_match(&mut ctx, NOW, m, t, 100_000_000).is_ok());
    let mut ctx = match_ctx(10);
    ctx.maker_position = held(key(10), 499_999_999_000, 1);
    assert_eq!(
        execute_match(&mut ctx, NOW, m, t, 1_001).unwrap_err(),
        DegenError::PositionLimitExceeded
    );
    assert!(execute_match(&mut ctx, NOW, m, t, 1_000).is_ok());
    assert_eq!(ctx.maker_position.yes_shares, 500_000_000_000);
    let mut ctx = match_ctx(10);
    ctx.taker_usdc_amount = 4_003_999;
    assert_eq!(
        execute_match(&mut ctx, NOW, m, t, 10_000_000).unwrap_err(),
        DegenError::InsufficientBalance
    );
}

#[test]
fn quote_for_no_outcome_uses_complement_price() {
    let q = quote_match(Side::Bid, Outcome::No, 300_000, 1_000_001, 0);
    // YES price 0.70, NO price 0.30; both legs rounded up
    assert_eq!(q.yes_cost, 700_001);
    assert_eq!(q.no_cost, 300_001);
    assert!(!q.maker_buys_yes);
    assert_eq!(q.maker_cost, 300_001);
    assert_eq!(q.taker_cost, 700_001);
}

fn close_ctx(bps: u16) -> ExecuteClose {
    ExecuteClose {
        global_state: global(bps),
        market_key: key(9),
        market: open_market(),
        fee_recipient_amount: 0,
        buyer: key(11),
        buyer_position: held(key(11), 0, 0),
        buyer_usdc_amount: 100_000_000,
        seller: key(10),
        seller_position: held(key(10), 10_000_000, 6_000_000),
        seller_usdc_amount: 0,
    }
}

#[test]
fn closing_trade_moves_shares_and_pays_seller() {
    let mut ctx = close_ctx(10);
    ctx.market.open_interest = 10_000_000;
    let args = CloseTradeArgs { outcome: Outcome::Yes, price: 700_000, size: 4_000_000 };
    let (ev, ts) = execute_close(&mut ctx, NOW, args).unwrap();
    assert_eq!(ev.transfer_amount, 2_800_000);
    assert_eq!(ev.fee, 2_800);
    // per-share basis floor(6_000_000 / 10_000_000) = 0
    assert_eq!(ev.seller_realized_pnl, 2_800_000);
    assert_eq!(
        ts,
        vec![
            Transfer { from: Party::Buyer, to: Party::Seller, amount: 2_797_200 },
            Transfer { from: Party::Buyer, to: Party::FeeRecipient, amount: 2_800 },
        ]
    );
    assert_eq!(ctx.seller_position.yes_shares, 6_000_000);
    assert_eq!(ctx.seller_position.yes_cost_basis, 6_000_000 - 2_400_000);
    assert_eq!(ctx.seller_position.realized_pnl, 2_800_000);
    assert_eq!(ctx.buyer_position.yes_shares, 4_000_000);
    assert_eq!(ctx.buyer_position.yes_cost_basis, 2_802_800);
    assert_eq!(ctx.buyer_usdc_amount, 100_000_000 - 2_800_000);
    assert_eq!(ctx.seller_usdc_amount, 2_797_200);
    assert_eq!(ctx.fee_recipient_amount, 2_800);
    assert_eq!(ctx.market.open_interest, 10_000_000);
    assert_eq!(ctx.market.total_volume, 2_800_000);
    assert_eq!(ctx.market.total_trades, 1);
}

#[test]
fn closing_trade_books_loss_against_whole_dollar_basis() {
    let mut ctx = close_ctx(0);
    ctx.seller_position = held(key(10), 1_000, 5_000);
    let args = CloseTradeArgs { outcome: Outcome::Yes, price: 10_000, size: 1_000 };
    let (ev, _) = execute_close(&mut ctx, NOW, args).unwrap();
    // transfer ceil(10_000 * 1_000 / 10^6) = 10; basis per share 5
    assert_eq!(ev.transfer_amount, 10);
    assert_eq!(ev.seller_realized_pnl, 10 - 5 * 1_000);
    assert_eq!(ctx.seller_position.yes_cost_basis, 0);
    assert_eq!(ctx.seller_position.realized_pnl, -4_990);
}

#[test]
fn closing_trade_errors() {
    let args = CloseTradeArgs { outcome: Outcome::Yes, price: 700_000, size: 4_000_000 };
    let mut ctx = close_ctx(10);
    assert_eq!(
        execute_close(&mut ctx, NOW, CloseTradeArgs { size: 10_000_001, ..args }).unwrap_err(),
        DegenError::InsufficientShares
    );
    let mut ctx = close_ctx(10);
    ctx.buyer_position = held(key(11), 499_999_000_000, 0);
    assert_eq!(execute_close(&mut ctx, NOW, args).unwrap_err(), DegenError::PositionLimitExceeded);
    let mut ctx = close_ctx(10);
    ctx.buyer_usdc_amount = 2_799_999;
    assert_eq!(execute_close(&mut ctx, NOW, args).unwrap_err(), DegenError::InsufficientBalance);
    let mut ctx = close_ctx(10);
    ctx.seller = key(11);
    ctx.seller_position.owner = key(11);
    assert_eq!(execute_close(&mut ctx, NOW, args).unwrap_err(), DegenError::SelfTrade);
    let mut ctx = close_ctx(10);
    ctx.buyer_position.owner = key(12);
    assert_eq!(execute_close(&mut ctx, NOW, args).unwrap_err(), DegenError::Unauthorized);
    let mut ctx = close_ctx(10);
    assert_eq!(
        execute_close(&mut ctx, NOW, CloseTradeArgs { price: 5_000, ..args }).unwrap_err(),
        DegenError::InvalidPrice
    );
    assert_eq!(ctx.seller_position.yes_shares, 10_000_000);
}

#[test]
fn position_accessors() {
    let p = UserPosition { no_shares: 3, yes_cost_basis: 7, no_cost_basis: 5, ..fresh_position() };
    assert!(p.has_position());
    assert_eq!(p.total_cost(), 12);
    assert!(!fresh_position().has_position());
}

#[test]
fn trades_off_the_cent_grid_are_refused() {
    let mut ctx = match_ctx(10);
    assert_eq!(
        execute_match(&mut ctx, NOW, quote(Side::Bid, 505_000), quote(Side::Ask, 500_000), 10_000_000)
            .unwrap_err(),
        DegenError::InvalidTickSize
    );
    assert_eq!(
        execute_match(&mut ctx, NOW, quote(Side::Bid, 510_000), quote(Side::Ask, 505_000), 10_000_000)
            .unwrap_err(),
        DegenError::InvalidTickSize
    );
    assert_eq!(ctx.vault_amount, 0);
    assert_eq!(ctx.market.total_trades, 0);
    let mut ctx = close_ctx(10);
    let args = CloseTradeArgs { outcome: Outcome::Yes, price: 505_000, size: 4_000_000 };
    assert_eq!(execute_close(&mut ctx, NOW, args).unwrap_err(), DegenError::InvalidTickSize);
    assert_eq!(ctx.seller_position.yes_shares, 10_000_000);
    assert_eq!(ctx.buyer_usdc_amount, 100_000_000);
}
