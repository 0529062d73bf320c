use vstd::prelude::*;

verus! {

/// Every failure an operation of this crate can report.
///
/// All errors are detected synchronously, before any record is mutated: an
/// operation that returns an error leaves every record exactly as it was.
/// Checked arithmetic that would wrap (on the supply, the sale totals, a
/// payment or a base-unit scaling) fails with `InsufficientFunds`, the
/// overflow/underflow error of the supply accounting.
#[derive(Clone, Copy, Debug, PartialEq, Eq, Structural)]
pub enum TokenError {
    /// A zero amount where a positive one is needed, or a record in the
    /// "already destroyed" state.
    InvalidAmount,
    /// A checked add, subtract or multiply would wrap.
    InsufficientFunds,
    /// The caller is not the role the operation is gated on.
    Unauthorized,
    /// The token ledger was already initialized.
    AlreadyInitialized,
    /// The record the operation needs was never initialized.
    NotInitialized,
    /// More than nine decimal places.
    InvalidDecimals,
    /// The token ledger is paused.
    TokenPaused,
    /// Pausing a ledger that is already paused.
    AlreadyPaused,
    /// Unpausing a ledger that is not paused.
    NotPaused,
    /// A token name over 32 bytes.
    NameTooLong,
    /// A token symbol over 10 bytes.
    SymbolTooLong,
    /// A sale price of zero, inverted price bounds, or a purchase price
    /// outside the configured bounds.
    InvalidPrice,
    /// A sale window that does not end after it starts.
    InvalidTime,
    /// Liquidity and staking percentages summing to more than 100.
    InvalidPercentage,
    /// A purchase against a sale whose active flag is cleared.
    MintNotActive,
    /// A purchase before the sale window opens.
    MintNotStarted,
    /// A purchase after the sale window closed.
    MintEnded,
    /// A purchase below the sale's minimum amount.
    AmountTooSmall,
    /// A purchase above the sale's maximum amount.
    AmountTooLarge,
    /// A purchase that would lift the sale's total over its maximum.
    ExceedMaxAmount,
    /// A staking pool with a non-positive lock duration.
    InvalidDuration,
    /// A claim on a receipt or position that was already claimed, or a
    /// purchase or stake against one.
    AlreadyClaimed,
    /// A claim that has no matching purchase or stake yet.
    NotClaimedYet,
    /// A zero reward rate, or one over 10000 basis points.
    InvalidRewardRate,
    /// A stake against a pool whose active flag is cleared.
    StakingNotActive,
    /// A claim before the position's lock expires.
    StakingPeriodNotEnded,
    /// The liquidity escrow is not active.
    LiquidityNotActive,
    /// The liquidity escrow already holds a record.
    LiquidityAlreadyExists,
    /// The liquidity escrow holds no record.
    LiquidityNotExists,
}

} // verus!
