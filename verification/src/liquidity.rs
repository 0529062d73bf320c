//! The liquidity escrow: a record of funds committed to an external
//! automated market maker, gated by the same admin role as the rest of the
//! administrative surface.
//!
//! The escrow never moves the committed funds itself: creating a record
//! charges a fixed protocol fee in native currency (the host's value-transfer
//! service moves it from the admin to the treasury, atomically with the
//! request), and destroying a record only flips its flag — the external
//! withdrawal is out of scope.

use vstd::prelude::*;

use crate::address::Address;
use crate::base_token::BaseToken;
use crate::errors::TokenError;

verus! {

/// The fixed protocol fee, in native base units, charged when a liquidity
/// record is created.
pub const LIQUIDITY_CREATION_FEE: u64 = 6_000_000_000;

/// One token's liquidity coordinates: which external AMM program and pool
/// the committed funds live in. One per token.
#[derive(Debug, Clone, Copy, PartialEq, Eq, Structural)]
pub struct LiquidityConfig {
    pub token: Address,
    pub amm_program: Address,
    pub pool_address: Address,
    pub is_initialized: bool,
}

/// One committed liquidity contribution: created once, destroyed at most
/// once.
#[derive(Debug, Clone, Copy, PartialEq, Eq, Structural)]
pub struct LiquidityRecord {
    pub token: Address,
    pub amount: u64,
    pub created_at: i64,
    pub is_destroyed: bool,
}

/// Emitted when the liquidity coordinates are recorded.
#[derive(Debug, Clone, Copy, PartialEq, Eq, Structural)]
pub struct LiquidityInitialized {
    pub token: Address,
    pub amm_program: Address,
    pub pool_address: Address,
}

/// Emitted when a contribution is recorded.
#[derive(Debug, Clone, Copy, PartialEq, Eq, Structural)]
pub struct LiquidityCreated {
    pub token: Address,
    pub amount: u64,
}

/// Emitted when a contribution is destroyed.
#[derive(Debug, Clone, Copy, PartialEq, Eq, Structural)]
pub struct LiquidityDestroyed {
    pub token: Address,
    pub amount: u64,
}

/// What `initialize_liquidity` returns: the one-shot coordinate record and
/// its event, or `Unauthorized` for any caller but the admin.
pub open spec fn initialize_liquidity_result(
    admin: Address,
    caller: Address,
    token_address: Address,
    amm_program: Address,
    pool_address: Address,
) -> Result<(LiquidityConfig, LiquidityInitialized), TokenError> {
    if caller != admin {
        Err(TokenError::Unauthorized)
    } else {
        Ok(
            (
                LiquidityConfig {
                    token: token_address,
                    amm_program,
                    pool_address,
                    is_initialized: true,
                },
                LiquidityInitialized { token: token_address, amm_program, pool_address },
            ),
        )
    }
}

/// What `create_liquidity` returns: the fresh record, the fixed protocol
/// fee the host must transfer from the admin to the treasury, and the
/// event; or `Unauthorized` for any caller but the admin.
pub open spec fn create_liquidity_result(
    admin: Address,
    caller: Address,
    token_address: Address,
    amount: u64,
    now: i64,
) -> Result<(LiquidityRecord, u64, LiquidityCreated), TokenError> {
    if caller != admin {
        Err(TokenError::Unauthorized)
    } else {
        Ok(
            (
                LiquidityRecord {
                    token: token_address,
                    amount,
                    created_at: now,
                    is_destroyed: false,
                },
                LIQUIDITY_CREATION_FEE,
                LiquidityCreated { token: token_address, amount },
            ),
        )
    }
}

/// What `destroy_liquidity` does. A record already destroyed fails before
/// the authorization check, with the "already destroyed" amount error.
pub open spec fn destroy_liquidity_transition(
    rec: LiquidityRecord,
    admin: Address,
    caller: Address,
) -> (LiquidityRecord, Result<LiquidityDestroyed, TokenError>) {
    if rec.is_destroyed {
        (rec, Err(TokenError::InvalidAmount))
    } else if caller != admin {
        (rec, Err(TokenError::Unauthorized))
    } else {
        (
            LiquidityRecord { is_destroyed: true, ..rec },
            Ok(LiquidityDestroyed { token: rec.token, amount: rec.amount }),
        )
    }
}

impl LiquidityConfig {
    /// Records the external AMM coordinates for `token`, which lives at
    /// `token_address`. One-shot per token: the host allocates the record's
    /// address only once.
    pub fn initialize_liquidity(
        token: &BaseToken,
        token_address: Address,
        caller: Address,
        amm_program: Address,
        pool_address: Address,
    ) -> (r: Result<(LiquidityConfig, LiquidityInitialized), TokenError>)
        ensures
            r == initialize_liquidity_result(
                token.admin,
                caller,
                token_address,
                amm_program,
                pool_address,
            ),
    {
        if caller != token.admin {
            return Err(TokenError::Unauthorized);
        }
        let config = LiquidityConfig {
            token: token_address,
            amm_program,
            pool_address,
            is_initialized: true,
        };
        let event = LiquidityInitialized { token: token_address, amm_program, pool_address };
        Ok((config, event))
    }
}

impl LiquidityRecord {
    /// Records a contribution of `amount` for `token`. On success the
    /// returned fee is the fixed [`LIQUIDITY_CREATION_FEE`] the host must
    /// transfer from the admin to the treasury before the request commits.
    pub fn create_liquidity(
        token: &BaseToken,
        token_address: Address,
        caller: Address,
        amount: u64,
        now: i64,
    ) -> (r: Result<(LiquidityRecord, u64, LiquidityCreated), TokenError>)
        ensures
            r == create_liquidity_result(token.admin, caller, token_address, amount, now),
    {
        if caller != token.admin {
            return Err(TokenError::Unauthorized);
        }
        let record = LiquidityRecord {
            token: token_address,
            amount,
            created_at: now,
            is_destroyed: false,
        };
        let event = LiquidityCreated { token: token_address, amount };
        Ok((record, LIQUIDITY_CREATION_FEE, event))
    }

    /// Marks the contribution destroyed, exactly once; no funds move.
    pub fn destroy_liquidity(&mut self, token: &BaseToken, caller: Address) -> (r: Result<
        LiquidityDestroyed,
        TokenError,
    >)
        ensures
            (*final(self), r) == destroy_liquidity_transition(*old(self), token.admin, caller),
    {
        if self.is_destroyed {
            return Err(TokenError::InvalidAmount);
        }
        if caller != token.admin {
            return Err(TokenError::Unauthorized);
        }
        self.is_destroyed = true;
        Ok(LiquidityDestroyed { token: self.token, amount: self.amount })
    }
}

} // verus!
