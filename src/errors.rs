use vstd::prelude::*;

verus! {

/// Every way an operation of the exchange can fail. The first failing check
/// of an operation aborts it with one of these tags and changes nothing.
#[derive(Clone, Copy, PartialEq, Eq, Debug, Structural)]
pub enum DegenError {
    // Protocol
    ProtocolPaused,
    Unauthorized,
    InvalidFeeConfig,
    // Market
    MarketNotOpen,
    MarketClosing,
    MarketExpired,
    MarketNotExpired,
    MarketNotResolved,
    MarketAlreadyResolved,
    MarketNotSettled,
    MarketAlreadySettled,
    MarketNotPending,
    InvalidMarketParams,
    InvalidAsset,
    InvalidTimeframe,
    InvalidExpiry,
    // Order
    InvalidPrice,
    InvalidSize,
    InvalidTickSize,
    OrderExpired,
    SameSide,
    OutcomeMismatch,
    SelfTrade,
    PriceMismatch,
    OrderNotActive,
    OrderNotFound,
    MissingSellerAccount,
    // Position
    InsufficientShares,
    PositionLimitExceeded,
    PositionAlreadySettled,
    PositionNotFound,
    // Balance and custody
    InsufficientBalance,
    InsufficientVaultBalance,
    VaultNotEmpty,
    TransferFailed,
    // Oracle
    InvalidOracle,
    StaleOraclePrice,
    InvalidOraclePrice,
    OracleConfidenceTooWide,
    // Math
    MathOverflow,
    MathUnderflow,
    DivisionByZero,
    // Signature
    InvalidSignature,
    MissingSignatureVerification,
    SignerMismatch,
}

/// The human-readable message of each error.
pub open spec fn error_text(e: DegenError) -> Seq<char> {
    match e {
        DegenError::ProtocolPaused => "Protocol is paused"@,
        DegenError::Unauthorized => "Unauthorized - only admin can perform this action"@,
        DegenError::InvalidFeeConfig => "Invalid fee configuration"@,
        DegenError::MarketNotOpen => "Market is not open for trading"@,
        DegenError::MarketClosing => "Market is closing soon (within 30 seconds)"@,
        DegenError::MarketExpired => "Market has already expired"@,
        DegenError::MarketNotExpired => "Market has not expired yet"@,
        DegenError::MarketNotResolved => "Market is not resolved yet"@,
        DegenError::MarketAlreadyResolved => "Market is already resolved"@,
        DegenError::MarketNotSettled => "Market settlement is not complete"@,
        DegenError::MarketAlreadySettled => "Market settlement is already complete"@,
        DegenError::MarketNotPending => "Market is not pending activation"@,
        DegenError::InvalidMarketParams => "Invalid market parameters"@,
        DegenError::InvalidAsset => "Invalid asset symbol"@,
        DegenError::InvalidTimeframe => "Invalid timeframe"@,
        DegenError::InvalidExpiry => "Invalid expiry timestamp"@,
        DegenError::InvalidPrice => "Invalid price - must be between $0.01 and $0.99"@,
        DegenError::InvalidSize => "Invalid size - must be between 1 and 100,000 contracts"@,
        DegenError::InvalidTickSize => "Invalid tick size - price must be on $0.01 increments"@,
        DegenError::OrderExpired => "Order has expired"@,
        DegenError::SameSide => "Orders have the same side - cannot match"@,
        DegenError::OutcomeMismatch => "Order outcomes do not match"@,
        DegenError::SelfTrade => "Self-trade not allowed"@,
        DegenError::PriceMismatch => "Price mismatch - orders do not cross"@,
        DegenError::OrderNotActive => "Order is not active (already filled, cancelled, or expired)"@,
        DegenError::OrderNotFound => "Order not found"@,
        DegenError::MissingSellerAccount => "Missing seller USDC receive account (required for closing trades)"@,
        DegenError::InsufficientShares => "Insufficient shares to sell"@,
        DegenError::PositionLimitExceeded => "Position limit exceeded - max 500,000 contracts per position"@,
        DegenError::PositionAlreadySettled => "Position already settled"@,
        DegenError::PositionNotFound => "Position not found"@,
        DegenError::InsufficientBalance => "Insufficient USDC balance"@,
        DegenError::InsufficientVaultBalance => "Insufficient vault balance"@,
        DegenError::VaultNotEmpty => "Vault is not empty - cannot close"@,
        DegenError::TransferFailed => "Transfer failed"@,
        DegenError::InvalidOracle => "Invalid oracle account"@,
        DegenError::StaleOraclePrice => "Oracle price is stale (older than 60 seconds)"@,
        DegenError::InvalidOraclePrice => "Oracle price is invalid or unavailable"@,
        DegenError::OracleConfidenceTooWide => "Oracle confidence interval too wide"@,
        DegenError::MathOverflow => "Math overflow"@,
        DegenError::MathUnderflow => "Math underflow"@,
        DegenError::DivisionByZero => "Division by zero"@,
        DegenError::InvalidSignature => "Invalid signature - verification failed"@,
        DegenError::MissingSignatureVerification => "Missing Ed25519 signature verification instruction"@,
        DegenError::SignerMismatch => "Signature does not match the expected signer"@,
    }
}

impl DegenError {
    /// The human-readable message of this error.
    pub fn message(&self) -> (r: String)
        ensures
            r@ == error_text(*self),
    {
        let s = match self {
            DegenError::ProtocolPaused => "Protocol is paused",
            DegenError::Unauthorized => "Unauthorized - only admin can perform this action",
            DegenError::InvalidFeeConfig => "Invalid fee configuration",
            DegenError::MarketNotOpen => "Market is not open for trading",
            DegenError::MarketClosing => "Market is closing soon (within 30 seconds)",
            DegenError::MarketExpired => "Market has already expired",
            DegenError::MarketNotExpired => "Market has not expired yet",
            DegenError::MarketNotResolved => "Market is not resolved yet",
            DegenError::MarketAlreadyResolved => "Market is already resolved",
            DegenError::MarketNotSettled => "Market settlement is not complete",
            DegenError::MarketAlreadySettled => "Market settlement is already complete",
            DegenError::MarketNotPending => "Market is not pending activation",
            DegenError::InvalidMarketParams => "Invalid market parameters",
            DegenError::InvalidAsset => "Invalid asset symbol",
            DegenError::InvalidTimeframe => "Invalid timeframe",
            DegenError::InvalidExpiry => "Invalid expiry timestamp",
            DegenError::InvalidPrice => "Invalid price - must be between $0.01 and $0.99",
            DegenError::InvalidSize => "Invalid size - must be between 1 and 100,000 contracts",
            DegenError::InvalidTickSize => "Invalid tick size - price must be on $0.01 increments",
            DegenError::OrderExpired => "Order has expired",
            DegenError::SameSide => "Orders have the same side - cannot match",
            DegenError::OutcomeMismatch => "Order outcomes do not match",
            DegenError::SelfTrade => "Self-trade not allowed",
            DegenError::PriceMismatch => "Price mismatch - orders do not cross",
            DegenError::OrderNotActive => "Order is not active (already filled, cancelled, or expired)",
            DegenError::OrderNotFound => "Order not found",
            DegenError::MissingSellerAccount => "Missing seller USDC receive account (required for closing trades)",
            DegenError::InsufficientShares => "Insufficient shares to sell",
            DegenError::PositionLimitExceeded => "Position limit exceeded - max 500,000 contracts per position",
            DegenError::PositionAlreadySettled => "Position already settled",
            DegenError::PositionNotFound => "Position not found",
            DegenError::InsufficientBalance => "Insufficient USDC balance",
            DegenError::InsufficientVaultBalance => "Insufficient vault balance",
            DegenError::VaultNotEmpty => "Vault is not empty - cannot close",
            DegenError::TransferFailed => "Transfer failed",
            DegenError::InvalidOracle => "Invalid oracle account",
            DegenError::StaleOraclePrice => "Oracle price is stale (older than 60 seconds)",
            DegenError::InvalidOraclePrice => "Oracle price is invalid or unavailable",
            DegenError::OracleConfidenceTooWide => "Oracle confidence interval too wide",
            DegenError::MathOverflow => "Math overflow",
            DegenError::MathUnderflow => "Math underflow",
            DegenError::DivisionByZero => "Division by zero",
            DegenError::InvalidSignature => "Invalid signature - verification failed",
            DegenError::MissingSignatureVerification => "Missing Ed25519 signature verification instruction",
            DegenError::SignerMismatch => "Signature does not match the expected signer",
        };
        s.to_owned()
    }
}

} // verus!
