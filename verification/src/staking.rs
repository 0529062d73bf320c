//! The staking engine: reward-rate-bearing pools and per-depositor lock
//! positions.
//!
//! A position walks `Unstaked -> Locked -> Claimable -> Claimed`: locking
//! happens on `stake`, a position becomes claimable by the clock alone once
//! `now >= end_time`, and `claim_stake` is the only further transition. Both
//! operations return the base-unit amount the host's token-transfer service
//! must move (stake: depositor to pool escrow; claim: principal plus reward
//! back to the depositor); the host executes each request atomically, so a
//! failed transfer discards the record mutations of the same request.

use vstd::prelude::*;

use crate::address::Address;
use crate::base_token::{pow10, pow10_u64, BaseToken};
use crate::errors::TokenError;

verus! {

/// One token's staking pool, owned by its deterministic address.
/// `total_staked` sums the principal of the open (unclaimed) positions;
/// rewards are not part of it.
#[derive(Debug, Clone, Copy, PartialEq, Eq, Structural)]
pub struct StakingPool {
    pub token: Address,
    pub duration: i64,
    pub reward_rate: u16,
    pub total_staked: u64,
    pub total_rewards: u64,
    pub is_active: bool,
}

/// One depositor's lock position against one pool: there is exactly one per
/// (pool, owner) pair.
#[derive(Debug, Clone, Copy, PartialEq, Eq, Structural)]
pub struct StakingPosition {
    pub owner: Address,
    pub pool: Address,
    pub amount: u64,
    pub start_time: i64,
    pub end_time: i64,
    pub is_claimed: bool,
}

/// Emitted when a pool is created.
#[derive(Debug, Clone, Copy, PartialEq, Eq, Structural)]
pub struct StakingPoolCreated {
    pub token: Address,
    pub duration: i64,
    pub reward_rate: u16,
}

/// Emitted when a deposit locks.
#[derive(Debug, Clone, Copy, PartialEq, Eq, Structural)]
pub struct TokenStaked {
    pub user: Address,
    pub amount: u64,
    pub end_time: i64,
}

/// Emitted when a position is claimed.
#[derive(Debug, Clone, Copy, PartialEq, Eq, Structural)]
pub struct StakeClaimed {
    pub user: Address,
    pub amount: u64,
    pub reward: u64,
}

/// What `create_staking_pool` returns: either the fresh pool and its event,
/// or the first violated check. The lock duration must be positive, the
/// reward rate between 1 and 10000 basis points, and only the admin of the
/// owning token may create a pool.
pub open spec fn create_staking_pool_result(
    admin: Address,
    caller: Address,
    token_address: Address,
    duration: i64,
    reward_rate: u16,
) -> Result<(StakingPool, StakingPoolCreated), TokenError> {
    if duration <= 0 {
        Err(TokenError::InvalidDuration)
    } else if reward_rate == 0 || reward_rate > 10000 {
        Err(TokenError::InvalidRewardRate)
    } else if caller != admin {
        Err(TokenError::Unauthorized)
    } else {
        Ok(
            (
                StakingPool {
                    token: token_address,
                    duration,
                    reward_rate,
                    total_staked: 0,
                    total_rewards: 0,
                    is_active: true,
                },
                StakingPoolCreated { token: token_address, duration, reward_rate },
            ),
        )
    }
}

/// What `stake` does: the new pool and position states, and on success the
/// base-unit amount the host must move into the pool escrow, with the event.
/// A re-stake into an open position accumulates the principal and restarts
/// the lock (`start_time = now`, `end_time = now + duration`); a claimed
/// position is terminal and is never re-opened. Any checked operation
/// wrapping fails the whole request and changes nothing.
pub open spec fn stake_transition(
    pool: StakingPool,
    pos: StakingPosition,
    decimals: u8,
    now: i64,
    amount: u64,
) -> (StakingPool, StakingPosition, Result<(u64, TokenStaked), TokenError>) {
    if amount == 0 {
        (pool, pos, Err(TokenError::InvalidAmount))
    } else if !pool.is_active {
        (pool, pos, Err(TokenError::StakingNotActive))
    } else if pos.is_claimed {
        (pool, pos, Err(TokenError::AlreadyClaimed))
    } else if now + pool.duration > i64::MAX {
        (pool, pos, Err(TokenError::InvalidTime))
    } else if pos.amount + amount > u64::MAX {
        (pool, pos, Err(TokenError::InsufficientFunds))
    } else if pool.total_staked + amount > u64::MAX {
        (pool, pos, Err(TokenError::InsufficientFunds))
    } else if amount * pow10(decimals as nat) > u64::MAX {
        (pool, pos, Err(TokenError::InsufficientFunds))
    } else {
        (
            StakingPool { total_staked: (pool.total_staked + amount) as u64, ..pool },
            StakingPosition {
                amount: (pos.amount + amount) as u64,
                start_time: now,
                end_time: (now + pool.duration) as i64,
                is_claimed: false,
                ..pos
            },
            Ok(
                (
                    (amount * pow10(decimals as nat)) as u64,
                    TokenStaked {
                        user: pos.owner,
                        amount,
                        end_time: (now + pool.duration) as i64,
                    },
                ),
            ),
        )
    }
}

/// What `claim_stake` does: the new pool and position states, and on success
/// the base-unit payout (`(amount + reward) * 10^decimals`) the host must
/// move from the pool escrow back to the depositor, with the event.
/// `reward = floor(amount * reward_rate / 10000)`; the pool's `total_staked`
/// shrinks by the principal alone.
pub open spec fn claim_stake_transition(
    pool: StakingPool,
    pos: StakingPosition,
    decimals: u8,
    now: i64,
) -> (StakingPool, StakingPosition, Result<(u64, StakeClaimed), TokenError>) {
    let reward = pos.amount * pool.reward_rate / 10000;
    if now < pos.end_time {
        (pool, pos, Err(TokenError::StakingPeriodNotEnded))
    } else if pos.is_claimed {
        (pool, pos, Err(TokenError::AlreadyClaimed))
    } else if pos.amount + reward > u64::MAX {
        (pool, pos, Err(TokenError::InsufficientFunds))
    } else if (pos.amount + reward) * pow10(decimals as nat) > u64::MAX {
        (pool, pos, Err(TokenError::InsufficientFunds))
    } else if pos.amount > pool.total_staked {
        (pool, pos, Err(TokenError::InsufficientFunds))
    } else {
        (
            StakingPool { total_staked: (pool.total_staked - pos.amount) as u64, ..pool },
            StakingPosition { is_claimed: true, ..pos },
            Ok(
                (
                    ((pos.amount + reward) * pow10(decimals as nat)) as u64,
                    StakeClaimed { user: pos.owner, amount: pos.amount, reward: reward as u64 },
                ),
            ),
        )
    }
}

impl StakingPool {
    /// The pool's record invariant: a positive lock duration and a reward
    /// rate between 1 and 10000 basis points.
    pub open spec fn wf(self) -> bool {
        &&& self.duration >= 1
        &&& self.reward_rate >= 1
        &&& self.reward_rate <= 10000
    }

    /// Creates the staking pool for `token`, which lives at `token_address`,
    /// with nothing staked and the active flag set.
    pub fn create_staking_pool(
        token: &BaseToken,
        token_address: Address,
        caller: Address,
        duration: i64,
        reward_rate: u16,
    ) -> (r: Result<(StakingPool, StakingPoolCreated), TokenError>)
        ensures
            r == create_staking_pool_result(
                token.admin,
                caller,
                token_address,
                duration,
                reward_rate,
            ),
            r matches Ok(p) ==> p.0.wf() && p.0.is_active && p.0.total_staked == 0,
    {
        if duration <= 0 {
            return Err(TokenError::InvalidDuration);
        }
        if reward_rate == 0 || reward_rate > 10000 {
            return Err(TokenError::InvalidRewardRate);
        }
        if caller != token.admin {
            return Err(TokenError::Unauthorized);
        }
        let pool = StakingPool {
            token: token_address,
            duration,
            reward_rate,
            total_staked: 0,
            total_rewards: 0,
            is_active: true,
        };
        let event = StakingPoolCreated { token: token_address, duration, reward_rate };
        Ok((pool, event))
    }

    /// Locks `amount` whole tokens of the position's owner in this pool. On
    /// success the returned amount is `amount * 10^decimals` base units the
    /// host must transfer into the pool escrow before the request commits.
    pub fn stake(
        &mut self,
        position: &mut StakingPosition,
        token: &BaseToken,
        now: i64,
        amount: u64,
    ) -> (r: Result<(u64, TokenStaked), TokenError>)
        requires
            old(self).wf(),
            token.wf(),
        ensures
            (*final(self), *final(position), r) == stake_transition(
                *old(self),
                *old(position),
                token.decimals,
                now,
                amount,
            ),
            final(self).wf(),
            final(self).total_staked >= old(self).total_staked,
    {
        if amount == 0 {
            return Err(TokenError::InvalidAmount);
        }
        if !self.is_active {
            return Err(TokenError::StakingNotActive);
        }
        if position.is_claimed {
            return Err(TokenError::AlreadyClaimed);
        }
        let end_time = match now.checked_add(self.duration) {
            Some(t) => t,
            None => {
                return Err(TokenError::InvalidTime);
            },
        };
        let new_pos_amount = match position.amount.checked_add(amount) {
            Some(a) => a,
            None => {
                return Err(TokenError::InsufficientFunds);
            },
        };
        let new_total = match self.total_staked.checked_add(amount) {
            Some(t) => t,
            None => {
                return Err(TokenError::InsufficientFunds);
            },
        };
        let scale = pow10_u64(token.decimals);
        let base_units = match amount.checked_mul(scale) {
            Some(b) => b,
            None => {
                return Err(TokenError::InsufficientFunds);
            },
        };
        self.total_staked = new_total;
        position.amount = new_pos_amount;
        position.start_time = now;
        position.end_time = end_time;
        position.is_claimed = false;
        Ok((base_units, TokenStaked { user: position.owner, amount, end_time }))
    }

    /// Pays a matured position out: flips its claimed flag exactly once and
    /// shrinks `total_staked` by the principal. On success the returned
    /// amount is `(amount + reward) * 10^decimals` base units the host must
    /// transfer from the pool escrow back to the depositor; that transfer is
    /// the sole point where an underfunded escrow can still fail the claim,
    /// in which case the host discards the mutation too.
    pub fn claim_stake(
        &mut self,
        position: &mut StakingPosition,
        token: &BaseToken,
        now: i64,
    ) -> (r: Result<(u64, StakeClaimed), TokenError>)
        requires
            old(self).wf(),
            token.wf(),
        ensures
            (*final(self), *final(position), r) == claim_stake_transition(
                *old(self),
                *old(position),
                token.decimals,
                now,
            ),
            final(self).wf(),
            final(self).total_staked <= old(self).total_staked,
    {
        if now < position.end_time {
            return Err(TokenError::StakingPeriodNotEnded);
        }
        if position.is_claimed {
            return Err(TokenError::AlreadyClaimed);
        }
        proof {
            assert((position.amount as int) * (self.reward_rate as int) <= (u64::MAX as int)
                * 10000) by (nonlinear_arith)
                requires
                    position.amount <= u64::MAX,
                    self.reward_rate <= 10000,
            ;
        }
        let reward_wide = (position.amount as u128) * (self.reward_rate as u128) / 10000;
        proof {
            assert((position.amount as int) * (self.reward_rate as int) / 10000 <= position.amount
                as int) by (nonlinear_arith)
                requires
                    self.reward_rate <= 10000,
                    position.amount >= 0,
            ;
        }
        let reward = reward_wide as u64;
        let payout = match position.amount.checked_add(reward) {
            Some(p) => p,
            None => {
                return Err(TokenError::InsufficientFunds);
            },
        };
        let scale = pow10_u64(token.decimals);
        let base_units = match payout.checked_mul(scale) {
            Some(b) => b,
            None => {
                return Err(TokenError::InsufficientFunds);
            },
        };
        let new_total = match self.total_staked.checked_sub(position.amount) {
            Some(t) => t,
            None => {
                return Err(TokenError::InsufficientFunds);
            },
        };
        self.total_staked = new_total;
        position.is_claimed = true;
        Ok((base_units, StakeClaimed { user: position.owner, amount: position.amount, reward }))
    }
}

impl StakingPosition {
    /// A fresh, empty position for `owner` against the pool at `pool`,
    /// created by the host on the owner's first stake.
    pub fn new(pool: Address, owner: Address) -> (r: StakingPosition)
        ensures
            r.owner == owner,
            r.pool == pool,
            r.amount == 0,
            r.start_time == 0,
            r.end_time == 0,
            !r.is_claimed,
    {
        StakingPosition { owner, pool, amount: 0, start_time: 0, end_time: 0, is_claimed: false }
    }
}

} // verus!
