//! The sale engine: a time-boxed, price-bounded primary sale with a
//! protocol fee, and the per-buyer purchase receipts it maintains.
//!
//! A sale walks `Uninitialized -> Active -> Ended`; it ends when the clock
//! passes `end_time` (the active flag is never set again). A purchase
//! validates the window, the amount and price bounds and the supply cap,
//! computes the payment and fee, and returns the net amount the host's
//! value-transfer service must move from the buyer to the treasury. The host
//! executes the request atomically: if that transfer fails, the mutations of
//! the same request are discarded.

use vstd::prelude::*;

use crate::address::Address;
use crate::base_token::{BaseToken, TokenMinted};
use crate::errors::TokenError;

verus! {

/// The protocol fee on every purchase, in basis points: 1%.
pub const PROTOCOL_FEE_RATE_BPS: u8 = 100;

/// One token's sale configuration, owned by its deterministic address.
#[derive(Debug, Clone, Copy, PartialEq, Eq, Structural)]
pub struct MintConfig {
    pub token: Address,
    pub min_price: u64,
    pub max_price: u64,
    pub min_amount: u64,
    pub max_amount: u64,
    pub start_time: i64,
    pub end_time: i64,
    pub liquidity_percentage: u8,
    pub staking_percentage: u8,
    pub is_initialized: bool,
    pub total_minted: u64,
    pub fee_rate: u8,
    pub is_active: bool,
}

/// One buyer's purchase receipt against one sale: there is exactly one per
/// (sale, buyer) pair, and a re-purchase accumulates into it.
#[derive(Debug, Clone, Copy, PartialEq, Eq, Structural)]
pub struct MintRecord {
    pub mint_config: Address,
    pub buyer: Address,
    pub amount: u64,
    pub paid_amount: u64,
    pub fee_amount: u64,
    pub is_claimed: bool,
    pub created_at: i64,
    pub user: Address,
    pub mint_time: i64,
}

/// Emitted when a sale is configured.
#[derive(Debug, Clone, Copy, PartialEq, Eq, Structural)]
pub struct MintInitialized {
    pub token: Address,
    pub min_price: u64,
    pub max_price: u64,
    pub max_amount: u64,
    pub start_time: i64,
    pub end_time: i64,
}

/// `floor(paid * rate / 10000)`: the protocol fee on a payment of `paid`
/// at `rate` basis points.
pub open spec fn fee_of(paid: int, rate: int) -> int {
    paid * rate / 10000
}

/// What `initialize_mint` returns: either the fresh sale configuration and
/// its event, or the first violated range check. The price bounds must be
/// positive and ordered, the amount bounds strictly ordered, the window
/// non-empty and the two percentages must sum to at most 100; only the
/// admin of the owning token may configure a sale. The fee rate is fixed at
/// [`PROTOCOL_FEE_RATE_BPS`].
pub open spec fn initialize_mint_result(
    admin: Address,
    caller: Address,
    token_address: Address,
    min_price: u64,
    max_price: u64,
    min_amount: u64,
    max_amount: u64,
    start_time: i64,
    end_time: i64,
    liquidity_percentage: u8,
    staking_percentage: u8,
) -> Result<(MintConfig, MintInitialized), TokenError> {
    if min_price == 0 {
        Err(TokenError::InvalidPrice)
    } else if max_price < min_price {
        Err(TokenError::InvalidPrice)
    } else if max_amount <= min_amount {
        Err(TokenError::InvalidAmount)
    } else if end_time <= start_time {
        Err(TokenError::InvalidTime)
    } else if liquidity_percentage + staking_percentage > 100 {
        Err(TokenError::InvalidPercentage)
    } else if caller != admin {
        Err(TokenError::Unauthorized)
    } else {
        Ok(
            (
                MintConfig {
                    token: token_address,
                    min_price,
                    max_price,
                    min_amount,
                    max_amount,
                    start_time,
                    end_time,
                    liquidity_percentage,
                    staking_percentage,
                    is_initialized: true,
                    total_minted: 0,
                    fee_rate: PROTOCOL_FEE_RATE_BPS,
                    is_active: true,
                },
                MintInitialized {
                    token: token_address,
                    min_price,
                    max_price,
                    max_amount,
                    start_time,
                    end_time,
                },
            ),
        )
    }
}

/// What `mint` (a purchase) does: the new sale and receipt states, and on
/// success the net payment for the host's value-transfer service and the
/// event. Checks run in the documented order; `paid = amount * price`,
/// `fee = floor(paid * fee_rate / 10000)`, `net = paid - fee`; the receipt
/// accumulates the purchase; any checked operation wrapping fails the whole
/// request with `InsufficientFunds` and changes nothing.
pub open spec fn purchase_transition(
    c: MintConfig,
    rec: MintRecord,
    now: i64,
    amount: u64,
    price: u64,
) -> (MintConfig, MintRecord, Result<(u64, TokenMinted), TokenError>) {
    let paid = amount * price;
    let fee = fee_of(paid, c.fee_rate as int);
    let net = paid - fee;
    if !c.is_active {
        (c, rec, Err(TokenError::MintNotActive))
    } else if now < c.start_time {
        (c, rec, Err(TokenError::MintNotStarted))
    } else if now > c.end_time {
        (c, rec, Err(TokenError::MintEnded))
    } else if amount < c.min_amount {
        (c, rec, Err(TokenError::AmountTooSmall))
    } else if amount > c.max_amount {
        (c, rec, Err(TokenError::AmountTooLarge))
    } else if c.total_minted + amount > c.max_amount {
        (c, rec, Err(TokenError::ExceedMaxAmount))
    } else if price < c.min_price || price > c.max_price {
        (c, rec, Err(TokenError::InvalidPrice))
    } else if rec.is_claimed {
        (c, rec, Err(TokenError::AlreadyClaimed))
    } else if paid > u64::MAX {
        (c, rec, Err(TokenError::InsufficientFunds))
    } else if rec.amount + amount > u64::MAX || rec.paid_amount + paid > u64::MAX
        || rec.fee_amount + fee > u64::MAX {
        (c, rec, Err(TokenError::InsufficientFunds))
    } else {
        (
            MintConfig { total_minted: (c.total_minted + amount) as u64, ..c },
            MintRecord {
                amount: (rec.amount + amount) as u64,
                paid_amount: (rec.paid_amount + paid) as u64,
                fee_amount: (rec.fee_amount + fee) as u64,
                mint_time: now,
                ..rec
            },
            Ok(
                (
                    net as u64,
                    TokenMinted {
                        user: rec.user,
                        amount,
                        paid_amount: paid as u64,
                        fee_amount: fee as u64,
                    },
                ),
            ),
        )
    }
}

/// What `claim_mint` does: the one-time acknowledgment flips the claimed
/// flag exactly once and fails with `AlreadyClaimed` ever after.
pub open spec fn claim_mint_transition(rec: MintRecord) -> (
    MintRecord,
    Result<(), TokenError>,
) {
    if rec.is_claimed {
        (rec, Err(TokenError::AlreadyClaimed))
    } else {
        (MintRecord { is_claimed: true, ..rec }, Ok(()))
    }
}

impl MintConfig {
    /// The sale's record invariant: the running total never passes the cap,
    /// and an initialized sale has the documented range shape.
    pub open spec fn wf(self) -> bool {
        &&& self.total_minted <= self.max_amount
        &&& self.is_initialized ==> {
            &&& self.min_price >= 1
            &&& self.min_price <= self.max_price
            &&& self.min_amount < self.max_amount
            &&& self.start_time < self.end_time
            &&& self.liquidity_percentage + self.staking_percentage <= 100
        }
    }

    /// Configures the sale for `token`, which lives at `token_address`.
    /// Validates every range invariant and the caller's admin role, sets the
    /// fee rate to the fixed protocol default and activates the sale.
    pub fn initialize_mint(
        token: &BaseToken,
        token_address: Address,
        caller: Address,
        min_price: u64,
        max_price: u64,
        min_amount: u64,
        max_amount: u64,
        start_time: i64,
        end_time: i64,
        liquidity_percentage: u8,
        staking_percentage: u8,
    ) -> (r: Result<(MintConfig, MintInitialized), TokenError>)
        ensures
            r == initialize_mint_result(
                token.admin,
                caller,
                token_address,
                min_price,
                max_price,
                min_amount,
                max_amount,
                start_time,
                end_time,
                liquidity_percentage,
                staking_percentage,
            ),
            r matches Ok(p) ==> p.0.wf() && p.0.is_initialized && p.0.is_active
                && p.0.total_minted == 0,
    {
        if min_price == 0 {
            return Err(TokenError::InvalidPrice);
        }
        if max_price < min_price {
            return Err(TokenError::InvalidPrice);
        }
        if max_amount <= min_amount {
            return Err(TokenError::InvalidAmount);
        }
        if end_time <= start_time {
            return Err(TokenError::InvalidTime);
        }
        if (liquidity_percentage as u16) + (staking_percentage as u16) > 100 {
            return Err(TokenError::InvalidPercentage);
        }
        if caller != token.admin {
            return Err(TokenError::Unauthorized);
        }
        let config = MintConfig {
            token: token_address,
            min_price,
            max_price,
            min_amount,
            max_amount,
            start_time,
            end_time,
            liquidity_percentage,
            staking_percentage,
            is_initialized: true,
            total_minted: 0,
            fee_rate: PROTOCOL_FEE_RATE_BPS,
            is_active: true,
        };
        let event = MintInitialized {
            token: token_address,
            min_price,
            max_price,
            max_amount,
            start_time,
            end_time,
        };
        Ok((config, event))
    }

    /// A purchase of `amount` tokens at `price` against this sale, recorded
    /// on the buyer's receipt. On success the returned amount is the net
    /// payment (`paid - fee`) the host must transfer from the buyer to the
    /// treasury before the request commits.
    pub fn mint(
        &mut self,
        record: &mut MintRecord,
        now: i64,
        amount: u64,
        price: u64,
    ) -> (r: Result<(u64, TokenMinted), TokenError>)
        requires
            old(self).wf(),
        ensures
            (*final(self), *final(record), r) == purchase_transition(
                *old(self),
                *old(record),
                now,
                amount,
                price,
            ),
            final(self).wf(),
            final(self).total_minted >= old(self).total_minted,
    {
        if !self.is_active {
            return Err(TokenError::MintNotActive);
        }
        if now < self.start_time {
            return Err(TokenError::MintNotStarted);
        }
        if now > self.end_time {
            return Err(TokenError::MintEnded);
        }
        if amount < self.min_amount {
            return Err(TokenError::AmountTooSmall);
        }
        if amount > self.max_amount {
            return Err(TokenError::AmountTooLarge);
        }
        if amount > self.max_amount - self.total_minted {
            return Err(TokenError::ExceedMaxAmount);
        }
        if price < self.min_price || price > self.max_price {
            return Err(TokenError::InvalidPrice);
        }
        if record.is_claimed {
            return Err(TokenError::AlreadyClaimed);
        }
        let paid = match amount.checked_mul(price) {
            Some(p) => p,
            None => {
                return Err(TokenError::InsufficientFunds);
            },
        };
        proof {
            assert((paid as int) * (self.fee_rate as int) <= (u64::MAX as int) * 255)
                by (nonlinear_arith)
                requires
                    paid <= u64::MAX,
                    self.fee_rate <= 255,
            ;
        }
        let fee_wide = (paid as u128) * (self.fee_rate as u128) / 10000;
        proof {
            assert((paid as int) * (self.fee_rate as int) / 10000 <= paid as int)
                by (nonlinear_arith)
                requires
                    self.fee_rate <= 10000,
                    paid >= 0,
            ;
        }
        let fee = fee_wide as u64;
        let net = paid - fee;
        let new_rec_amount = match record.amount.checked_add(amount) {
            Some(a) => a,
            None => {
                return Err(TokenError::InsufficientFunds);
            },
        };
        let new_rec_paid = match record.paid_amount.checked_add(paid) {
            Some(p) => p,
            None => {
                return Err(TokenError::InsufficientFunds);
            },
        };
        let new_rec_fee = match record.fee_amount.checked_add(fee) {
            Some(f) => f,
            None => {
                return Err(TokenError::InsufficientFunds);
            },
        };
        self.total_minted = self.total_minted + amount;
        record.amount = new_rec_amount;
        record.paid_amount = new_rec_paid;
        record.fee_amount = new_rec_fee;
        record.mint_time = now;
        Ok((net, TokenMinted { user: record.user, amount, paid_amount: paid, fee_amount: fee }))
    }
}

impl MintRecord {
    /// A fresh, empty receipt for `buyer` against the sale at `mint_config`,
    /// created by the host on the buyer's first purchase at time `now`.
    pub fn new(mint_config: Address, buyer: Address, now: i64) -> (r: MintRecord)
        ensures
            r.mint_config == mint_config,
            r.buyer == buyer,
            r.user == buyer,
            r.amount == 0,
            r.paid_amount == 0,
            r.fee_amount == 0,
            !r.is_claimed,
            r.created_at == now,
            r.mint_time == now,
    {
        MintRecord {
            mint_config,
            buyer,
            user: buyer,
            amount: 0,
            paid_amount: 0,
            fee_amount: 0,
            is_claimed: false,
            created_at: now,
            mint_time: now,
        }
    }

    /// The buyer's one-time acknowledgment of the receipt: flips the claimed
    /// flag, exactly once.
    pub fn claim_mint(&mut self) -> (r: Result<(), TokenError>)
        ensures
            (*final(self), r) == claim_mint_transition(*old(self)),
    {
        if self.is_claimed {
            return Err(TokenError::AlreadyClaimed);
        }
        self.is_claimed = true;
        Ok(())
    }
}

} // verus!
