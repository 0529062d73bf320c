//! Accounting core of a token issuance and incentive platform.
//!
//! The crate models four cooperating components as pure state transitions
//! over plain records:
//!
//! * a token ledger ([`base_token::BaseToken`]) with an admin-gated pause
//!   switch and a checked supply counter,
//! * a time-boxed, price-bounded primary sale ([`mint::MintConfig`],
//!   [`mint::MintRecord`]) charging a protocol fee in basis points,
//! * a fixed-duration staking program ([`staking::StakingPool`],
//!   [`staking::StakingPosition`]) with deterministic reward accrual, and
//! * an escrow ledger of liquidity contributions
//!   ([`liquidity::LiquidityConfig`], [`liquidity::LiquidityRecord`]).
//!
//! The host runtime that persists records, authenticates callers and moves
//! funds is an external collaborator: every operation here takes the verified
//! caller key and the clock reading as arguments, mutates the records it owns,
//! and returns the amount that the host's transfer, mint or burn service must
//! move, together with the event to emit. The host executes each request
//! atomically, so a failed external transfer discards the record mutations of
//! the same request.

pub mod address;
pub mod base_token;
pub mod errors;
pub mod laws;
pub mod liquidity;
pub mod mint;
pub mod staking;
