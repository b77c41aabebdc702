use vstd::prelude::*;

verus! {

/// Amounts of USDC carry six decimals.
pub const USDC_DECIMALS: u8 = 6;

pub const USDC_MULTIPLIER: u64 = 1_000_000;

/// Prices carry six decimals: 500_000 is $0.50.
pub const PRICE_DECIMALS: u8 = 6;

pub const PRICE_MULTIPLIER: u64 = 1_000_000;

/// Shares carry six decimals: 1_000_000 is one contract, which pays $1.00.
pub const SHARE_DECIMALS: u8 = 6;

pub const SHARE_MULTIPLIER: u64 = 1_000_000;

/// Lowest legal price, $0.01.
pub const MIN_PRICE: u64 = 10_000;

/// Highest legal price, $0.99.
pub const MAX_PRICE: u64 = 990_000;

/// Legal prices lie on a one-cent grid.
pub const PRICE_TICK: u64 = 10_000;

/// Smallest order, 0.001 contracts.
pub const MIN_ORDER_SIZE: u64 = 1_000;

/// Largest order, 100,000 contracts.
pub const MAX_ORDER_SIZE: u64 = 100_000_000_000;

/// Most shares of one outcome that one user may hold in one market.
pub const MAX_POSITION_SIZE: u64 = 500_000_000_000;

/// Trading stops this many seconds before a market expires.
pub const TRADING_CLOSE_BUFFER: i64 = 30;

/// A new market must expire more than this many seconds after its creation.
pub const MIN_EXPIRY_BUFFER: i64 = 60;

/// Highest fee rate, in basis points.
pub const MAX_FEE_BPS: u16 = 500;

/// Basis points in one whole.
pub const BPS_DENOMINATOR: u64 = 10_000;

pub const MAX_ASSET_LEN: usize = 10;

pub const MAX_TIMEFRAME_LEN: usize = 10;

pub const MAX_PAUSE_REASON_LEN: usize = 100;

/// Whether an order buys or sells the outcome it names.
#[derive(Clone, Copy, PartialEq, Eq, Debug, Structural)]
pub enum Side {
    Bid,
    Ask,
}

/// The outcome an order trades.
#[derive(Clone, Copy, PartialEq, Eq, Debug, Structural)]
pub enum Outcome {
    Yes,
    No,
}

#[derive(Clone, Copy, PartialEq, Eq, Debug, Structural)]
pub enum OrderType {
    Limit,
    Market,
    IOC,
    FOK,
}

/// Lifecycle of a market; it only ever moves forward in this order.
#[derive(Clone, Copy, PartialEq, Eq, Debug, Structural)]
pub enum MarketStatus {
    Pending,
    Open,
    Closed,
    Resolved,
    Settled,
}

#[derive(Clone, Copy, PartialEq, Eq, Debug, Structural)]
pub enum OrderStatus {
    Open,
    PartialFill,
    Filled,
    Cancelled,
    Expired,
}

#[derive(Clone, Copy, PartialEq, Eq, Debug, Structural)]
pub enum MarketOutcome {
    Pending,
    Yes,
    No,
}

/// How money and shares flow in a trade.
#[derive(Clone, Copy, PartialEq, Eq, Debug, Structural)]
pub enum TradeType {
    /// Both parties pay into the vault and a new YES/NO pair is minted.
    Opening,
    /// The buyer pays the seller and existing shares change hands.
    Closing,
}

impl Default for OrderStatus {
    fn default() -> (r: Self)
        ensures
            r == OrderStatus::Open,
    {
        OrderStatus::Open
    }
}

impl Default for MarketStatus {
    fn default() -> (r: Self)
        ensures
            r == MarketStatus::Pending,
    {
        MarketStatus::Pending
    }
}

impl Default for MarketOutcome {
    fn default() -> (r: Self)
        ensures
            r == MarketOutcome::Pending,
    {
        MarketOutcome::Pending
    }
}

/// Assets a market may be written on.
#[derive(Clone, Copy, PartialEq, Eq, Debug, Structural)]
pub enum Asset {
    Btc,
    Eth,
    Sol,
}

/// Lengths of a market's trading window.
#[derive(Clone, Copy, PartialEq, Eq, Debug, Structural)]
pub enum Timeframe {
    M5,
    M15,
    H1,
    H4,
    H24,
}

/// The asset a symbol names, if it is one of the supported ones.
pub open spec fn asset_named(s: Seq<char>) -> Option<Asset> {
    if s == seq!['B', 'T', 'C'] {
        Some(Asset::Btc)
    } else if s == seq!['E', 'T', 'H'] {
        Some(Asset::Eth)
    } else if s == seq!['S', 'O', 'L'] {
        Some(Asset::Sol)
    } else {
        None
    }
}

/// The timeframe a label names, if it is one of the supported ones.
pub open spec fn timeframe_named(s: Seq<char>) -> Option<Timeframe> {
    if s == seq!['5', 'm'] {
        Some(Timeframe::M5)
    } else if s == seq!['1', '5', 'm'] {
        Some(Timeframe::M15)
    } else if s == seq!['1', 'h'] {
        Some(Timeframe::H1)
    } else if s == seq!['4', 'h'] {
        Some(Timeframe::H4)
    } else if s == seq!['2', '4', 'h'] {
        Some(Timeframe::H24)
    } else {
        None
    }
}

/// The ASCII bytes of an asset's symbol.
pub open spec fn asset_symbol_bytes(a: Asset) -> Seq<u8> {
    match a {
        Asset::Btc => seq![66u8, 84u8, 67u8],
        Asset::Eth => seq![69u8, 84u8, 72u8],
        Asset::Sol => seq![83u8, 79u8, 76u8],
    }
}

/// The ASCII bytes of a timeframe's label.
pub open spec fn timeframe_label_bytes(t: Timeframe) -> Seq<u8> {
    match t {
        Timeframe::M5 => seq![53u8, 109u8],
        Timeframe::M15 => seq![49u8, 53u8, 109u8],
        Timeframe::H1 => seq![49u8, 104u8],
        Timeframe::H4 => seq![52u8, 104u8],
        Timeframe::H24 => seq![50u8, 52u8, 104u8],
    }
}

impl Asset {
    /// Reads a supported asset symbol.
    pub fn parse(s: &str) -> (r: Option<Asset>)
        ensures
            r == asset_named(s@),
    {
        let owned = s.to_owned();
        proof {
            reveal_strlit("BTC");
            reveal_strlit("ETH");
            reveal_strlit("SOL");
            assert("BTC"@ =~= seq!['B', 'T', 'C']);
            assert("ETH"@ =~= seq!['E', 'T', 'H']);
            assert("SOL"@ =~= seq!['S', 'O', 'L']);
        }
        if owned == "BTC".to_owned() {
            Some(Asset::Btc)
        } else if owned == "ETH".to_owned() {
            Some(Asset::Eth)
        } else if owned == "SOL".to_owned() {
            Some(Asset::Sol)
        } else {
            None
        }
    }

    /// The asset's symbol.
    pub fn as_str(&self) -> (r: &'static str)
        ensures
            asset_named(r@) == Some(*self),
    {
        proof {
            reveal_strlit("BTC");
            reveal_strlit("ETH");
            reveal_strlit("SOL");
            assert("BTC"@ =~= seq!['B', 'T', 'C']);
            assert("ETH"@ =~= seq!['E', 'T', 'H']);
            assert("SOL"@ =~= seq!['S', 'O', 'L']);
        }
        match self {
            Asset::Btc => "BTC",
            Asset::Eth => "ETH",
            Asset::Sol => "SOL",
        }
    }
}

impl Timeframe {
    /// Reads a supported timeframe label.
    pub fn parse(s: &str) -> (r: Option<Timeframe>)
        ensures
            r == timeframe_named(s@),
    {
        let owned = s.to_owned();
        proof {
            reveal_strlit("5m");
            reveal_strlit("15m");
            reveal_strlit("1h");
            reveal_strlit("4h");
            reveal_strlit("24h");
            assert("5m"@ =~= seq!['5', 'm']);
            assert("15m"@ =~= seq!['1', '5', 'm']);
            assert("1h"@ =~= seq!['1', 'h']);
            assert("4h"@ =~= seq!['4', 'h']);
            assert("24h"@ =~= seq!['2', '4', 'h']);
        }
        if owned == "5m".to_owned() {
            Some(Timeframe::M5)
        } else if owned == "15m".to_owned() {
            Some(Timeframe::M15)
        } else if owned == "1h".to_owned() {
            Some(Timeframe::H1)
        } else if owned == "4h".to_owned() {
            Some(Timeframe::H4)
        } else if owned == "24h".to_owned() {
            Some(Timeframe::H24)
        } else {
            None
        }
    }

    /// The timeframe's label.
    pub fn as_str(&self) -> (r: &'static str)
        ensures
            timeframe_named(r@) == Some(*self),
    {
        proof {
            reveal_strlit("5m");
            reveal_strlit("15m");
            reveal_strlit("1h");
            reveal_strlit("4h");
            reveal_strlit("24h");
            assert("5m"@ =~= seq!['5', 'm']);
            assert("15m"@ =~= seq!['1', '5', 'm']);
            assert("1h"@ =~= seq!['1', 'h']);
            assert("4h"@ =~= seq!['4', 'h']);
            assert("24h"@ =~= seq!['2', '4', 'h']);
        }
        match self {
            Timeframe::M5 => "5m",
            Timeframe::M15 => "15m",
            Timeframe::H1 => "1h",
            Timeframe::H4 => "4h",
            Timeframe::H24 => "24h",
        }
    }
}


/// A 32-byte account identity.
#[derive(Clone, Copy, PartialEq, Eq, Debug)]
pub struct Key {
    pub bytes: [u8; 32],
}

impl View for Key {
    type V = Seq<u8>;

    open spec fn view(&self) -> Seq<u8> {
        self.bytes@
    }
}

impl Key {
    /// The all-zero identity, which marks a record that was never written.
    pub fn zero() -> (r: Key)
        ensures
            r.is_zero(),
    {
        Key { bytes: [0u8; 32] }
    }

    pub open spec fn is_zero(&self) -> bool {
        forall|i: int| 0 <= i < 32 ==> self@[i] == 0
    }

    /// Whether two identities are the same.
    pub fn same(&self, other: &Key) -> (r: bool)
        ensures
            r == (self@ == other@),
    {
        let mut i: usize = 0;
        while i < 32
            invariant
                0 <= i <= 32,
                forall|j: int| 0 <= j < i ==> self@[j] == other@[j],
            decreases 32 - i,
        {
            if self.bytes[i] != other.bytes[i] {
                return false;
            }
            i = i + 1;
        }
        assert(self@ =~= other@);
        true
    }

    /// Whether this identity is the all-zero one.
    pub fn check_zero(&self) -> (r: bool)
        ensures
            r == self.is_zero(),
    {
        let mut i: usize = 0;
        while i < 32
            invariant
                0 <= i <= 32,
                forall|j: int| 0 <= j < i ==> self@[j] == 0,
            decreases 32 - i,
        {
            if self.bytes[i] != 0 {
                assert(self@[i as int] != 0);
                return false;
            }
            i = i + 1;
        }
        true
    }
}


/// Protocol-wide configuration.
#[derive(Clone, Copy, Debug)]
pub struct GlobalState {
    pub admin: Key,
    pub fee_recipient: Key,
    pub maker_fee_bps: u16,
    pub taker_fee_bps: u16,
    pub paused: bool,
    pub pause_reason: [u8; 100],
    pub paused_at: i64,
    pub total_markets: u64,
    pub total_volume: u64,
    pub bump: u8,
}

impl GlobalState {
    /// Both fee rates are within bounds.
    pub open spec fn wf(&self) -> bool {
        self.maker_fee_bps <= MAX_FEE_BPS && self.taker_fee_bps <= MAX_FEE_BPS
    }
}

/// A binary-outcome market.
#[derive(Clone, Copy, Debug)]
pub struct Market {
    pub id: u64,
    /// The relayer that may activate, resolve and close the market.
    pub authority: Key,
    pub asset: Asset,
    pub timeframe: Timeframe,
    /// Strike price, eight decimals.
    pub strike_price: u64,
    /// Settlement price, eight decimals.
    pub final_price: u64,
    pub created_at: i64,
    pub expiry_at: i64,
    pub resolved_at: i64,
    pub settled_at: i64,
    pub status: MarketStatus,
    pub outcome: MarketOutcome,
    pub total_volume: u64,
    pub total_trades: u32,
    pub total_positions: u32,
    pub settled_positions: u32,
    /// Outstanding YES/NO pairs.
    pub open_interest: u64,
    pub bump: u8,
}

/// Whether trading is allowed at `now`: the market is open and the close
/// buffer before expiry has not begun.
pub open spec fn trading_open(m: Market, now: i64) -> bool {
    m.status == MarketStatus::Open && now < m.expiry_at - TRADING_CLOSE_BUFFER
}

impl Market {
    /// The outcome is only decided once the market is resolved, and no more
    /// positions are settled than exist.
    pub open spec fn wf(&self) -> bool {
        &&& (self.status == MarketStatus::Pending || self.status == MarketStatus::Open
            || self.status == MarketStatus::Closed) ==> self.outcome == MarketOutcome::Pending
        &&& self.settled_positions <= self.total_positions
    }

    /// The asset's symbol.
    pub fn asset_str(&self) -> (r: String)
        ensures
            asset_named(r@) == Some(self.asset),
    {
        self.asset.as_str().to_owned()
    }

    /// The timeframe's label.
    pub fn timeframe_str(&self) -> (r: String)
        ensures
            timeframe_named(r@) == Some(self.timeframe),
    {
        self.timeframe.as_str().to_owned()
    }

    /// The asset's symbol as bytes, as used to derive the market's key.
    pub fn asset_bytes(&self) -> (r: Vec<u8>)
        ensures
            r@ == asset_symbol_bytes(self.asset),
    {
        let r = match self.asset {
            Asset::Btc => vec![66u8, 84u8, 67u8],
            Asset::Eth => vec![69u8, 84u8, 72u8],
            Asset::Sol => vec![83u8, 79u8, 76u8],
        };
        assert(r@ =~= asset_symbol_bytes(self.asset));
        r
    }

    /// The timeframe's label as bytes, as used to derive the market's key.
    pub fn timeframe_bytes(&self) -> (r: Vec<u8>)
        ensures
            r@ == timeframe_label_bytes(self.timeframe),
    {
        let r = match self.timeframe {
            Timeframe::M5 => vec![53u8, 109u8],
            Timeframe::M15 => vec![49u8, 53u8, 109u8],
            Timeframe::H1 => vec![49u8, 104u8],
            Timeframe::H4 => vec![52u8, 104u8],
            Timeframe::H24 => vec![50u8, 52u8, 104u8],
        };
        assert(r@ =~= timeframe_label_bytes(self.timeframe));
        r
    }

    pub fn is_trading_open(&self, current_time: i64) -> (r: bool)
        ensures
            r == trading_open(*self, current_time),
    {
        self.status == MarketStatus::Open && (current_time as i128) < (self.expiry_at as i128) - (
        TRADING_CLOSE_BUFFER as i128)
    }
}

/// The token account that holds a market's collateral.
#[derive(Clone, Copy, Debug)]
pub struct MarketVault {
    pub market: Key,
    pub token_account: Key,
    pub bump: u8,
}

/// One user's holdings in one market.
#[derive(Clone, Copy, Debug)]
pub struct UserPosition {
    /// The all-zero key until the first trade writes the record.
    pub owner: Key,
    pub market: Key,
    pub yes_shares: u64,
    pub no_shares: u64,
    pub yes_cost_basis: u64,
    pub no_cost_basis: u64,
    pub realized_pnl: i64,
    pub settled: bool,
    pub payout: u64,
    pub bump: u8,
}

impl UserPosition {
    /// Share counts stay within the per-user cap.
    pub open spec fn wf(&self) -> bool {
        self.yes_shares <= MAX_POSITION_SIZE && self.no_shares <= MAX_POSITION_SIZE
    }

    pub open spec fn shares_of(&self, o: Outcome) -> u64 {
        match o {
            Outcome::Yes => self.yes_shares,
            Outcome::No => self.no_shares,
        }
    }

    pub open spec fn cost_basis_of(&self, o: Outcome) -> u64 {
        match o {
            Outcome::Yes => self.yes_cost_basis,
            Outcome::No => self.no_cost_basis,
        }
    }

    pub fn has_position(&self) -> (r: bool)
        ensures
            r == (self.yes_shares > 0 || self.no_shares > 0),
    {
        self.yes_shares > 0 || self.no_shares > 0
    }

    /// Cost basis of both outcomes together.
    pub fn total_cost(&self) -> (r: u64)
        requires
            self.yes_cost_basis + self.no_cost_basis <= u64::MAX,
        ensures
            r == self.yes_cost_basis + self.no_cost_basis,
    {
        self.yes_cost_basis + self.no_cost_basis
    }
}

/// An order stored with its collateral held in the market's vault.
#[derive(Clone, Copy, Debug)]
pub struct Order {
    pub owner: Key,
    pub market: Key,
    pub side: Side,
    pub outcome: Outcome,
    pub order_type: OrderType,
    pub price: u64,
    pub size: u64,
    pub filled_size: u64,
    pub status: OrderStatus,
    pub client_order_id: u64,
    pub expiry_ts: i64,
    pub created_at: i64,
    /// USDC locked in the vault when the order was placed.
    pub locked_amount: u64,
    pub bump: u8,
}

/// The status that a stored order's fill level determines.
pub open spec fn status_for_fill(filled: u64, size: u64) -> OrderStatus {
    if filled == 0 {
        OrderStatus::Open
    } else if filled < size {
        OrderStatus::PartialFill
    } else {
        OrderStatus::Filled
    }
}

impl Order {
    /// The fill never passes the size, and the status is the one the fill
    /// level determines.
    pub open spec fn wf(&self) -> bool {
        &&& self.filled_size <= self.size
        &&& self.status == status_for_fill(self.filled_size, self.size)
    }

    pub open spec fn active(&self) -> bool {
        self.status == OrderStatus::Open || self.status == OrderStatus::PartialFill
    }

    pub open spec fn remaining(&self) -> int {
        if self.filled_size <= self.size {
            self.size - self.filled_size
        } else {
            0
        }
    }

    pub fn remaining_size(&self) -> (r: u64)
        ensures
            r == self.remaining(),
    {
        self.size.saturating_sub(self.filled_size)
    }

    pub fn is_active(&self) -> (r: bool)
        ensures
            r == self.active(),
    {
        match self.status {
            OrderStatus::Open | OrderStatus::PartialFill => true,
            _ => false,
        }
    }

    /// A limit order expires once `current_time` passes its expiry.
    pub fn is_expired(&self, current_time: i64) -> (r: bool)
        ensures
            r == (self.order_type == OrderType::Limit && current_time > self.expiry_ts),
    {
        self.order_type == OrderType::Limit && current_time > self.expiry_ts
    }
}

} // verus!
