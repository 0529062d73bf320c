//! The laws of the accounting core: properties that span several operations
//! or whole call sequences, proved once and for all over the transition
//! functions that the operations' contracts are stated with.

use vstd::prelude::*;

use crate::address::Address;
use crate::base_token::{
    initialize_token_transition, pause_transition, unpause_transition, BaseToken,
};
use crate::errors::TokenError;
use crate::mint::{fee_of, purchase_transition, MintConfig, MintRecord};
use crate::staking::{claim_stake_transition, StakeClaimed, StakingPool, StakingPosition};

verus! {

/// A ledger initializes exactly once. Initialization succeeds if and only
/// if the ledger was never initialized and the inputs are valid (decimals at
/// most 9, name at most 32 bytes, symbol at most 10 bytes); after a success,
/// any further attempt, with any inputs whatsoever, fails with
/// `AlreadyInitialized` and leaves the ledger unchanged.
pub proof fn lemma_initialize_token_exactly_once(
    t: BaseToken,
    mint: Address,
    caller: Address,
    now: i64,
    decimals: u8,
    name: Vec<u8>,
    symbol: Vec<u8>,
    uri: Vec<u8>,
    mint2: Address,
    caller2: Address,
    now2: i64,
    decimals2: u8,
    name2: Vec<u8>,
    symbol2: Vec<u8>,
    uri2: Vec<u8>,
)
    ensures
        initialize_token_transition(t, mint, caller, now, decimals, name, symbol, uri).1 is Ok
            <==> (!t.is_initialized && decimals <= 9 && name@.len() <= 32 && symbol@.len() <= 10),
        ({
            let first = initialize_token_transition(t, mint, caller, now, decimals, name, symbol, uri);
            first.1 is Ok ==> initialize_token_transition(
                first.0,
                mint2,
                caller2,
                now2,
                decimals2,
                name2,
                symbol2,
                uri2,
            ) == (first.0, Err::<(), TokenError>(TokenError::AlreadyInitialized))
        }),
{
}

/// The pause switch strictly alternates. A successful pause sets the
/// switch, after which pausing again — by any caller — fails with
/// `AlreadyPaused` and changes nothing, while the admin can unpause;
/// symmetrically, a successful unpause clears the switch, after which
/// unpausing again fails with `NotPaused` and changes nothing, while the
/// admin can pause.
pub proof fn lemma_pause_strictly_alternates(t: BaseToken, caller: Address, caller2: Address)
    ensures
        ({
            let first = pause_transition(t, caller);
            first.1 is Ok ==> {
                &&& first.0.is_paused
                &&& pause_transition(first.0, caller2) == (
                    first.0,
                    Err::<(), TokenError>(TokenError::AlreadyPaused),
                )
                &&& unpause_transition(first.0, t.admin).1 is Ok
                &&& !unpause_transition(first.0, t.admin).0.is_paused
            }
        }),
        ({
            let first = unpause_transition(t, caller);
            first.1 is Ok ==> {
                &&& !first.0.is_paused
                &&& unpause_transition(first.0, caller2) == (
                    first.0,
                    Err::<(), TokenError>(TokenError::NotPaused),
                )
                &&& pause_transition(first.0, t.admin).1 is Ok
                &&& pause_transition(first.0, t.admin).0.is_paused
            }
        }),
{
}

/// One purchase attempt against a sale: the receipt the buyer brings, the
/// clock reading, and the requested amount and price.
#[derive(Debug, Clone, Copy, PartialEq, Eq)]
pub struct PurchaseRequest {
    pub record: MintRecord,
    pub now: i64,
    pub amount: u64,
    pub price: u64,
}

/// Whether the sale in state `c` accepts the purchase attempt `q`.
pub open spec fn purchase_accepted(c: MintConfig, q: PurchaseRequest) -> bool {
    purchase_transition(c, q.record, q.now, q.amount, q.price).2 is Ok
}

/// The sale state after the purchase attempt `q` (unchanged if rejected).
pub open spec fn sale_step(c: MintConfig, q: PurchaseRequest) -> MintConfig {
    purchase_transition(c, q.record, q.now, q.amount, q.price).0
}

/// The sale state after a whole sequence of purchase attempts.
pub open spec fn sale_run(c: MintConfig, qs: Seq<PurchaseRequest>) -> MintConfig
    decreases qs.len(),
{
    if qs.len() == 0 {
        c
    } else {
        sale_run(sale_step(c, qs[0]), qs.drop_first())
    }
}

/// The sum of the amounts of the accepted attempts in `qs`, run from `c`.
pub open spec fn accepted_amount_total(c: MintConfig, qs: Seq<PurchaseRequest>) -> int
    decreases qs.len(),
{
    if qs.len() == 0 {
        0int
    } else {
        (if purchase_accepted(c, qs[0]) {
            qs[0].amount as int
        } else {
            0int
        }) + accepted_amount_total(sale_step(c, qs[0]), qs.drop_first())
    }
}

/// One purchase attempt grows `total_minted` by exactly the accepted amount
/// (or not at all), keeps the sale invariant, and never touches the cap.
pub proof fn lemma_sale_step(c: MintConfig, q: PurchaseRequest)
    requires
        c.wf(),
    ensures
        sale_step(c, q).wf(),
        sale_step(c, q).max_amount == c.max_amount,
        sale_step(c, q).total_minted == c.total_minted + (if purchase_accepted(c, q) {
            q.amount as int
        } else {
            0int
        }),
{
}

/// After any sequence of purchase attempts, `total_minted` equals the
/// starting total plus the sum of the accepted amounts — so it grows
/// monotonically — and it never exceeds `max_amount`.
pub proof fn lemma_sale_total_minted_is_sum_of_accepted(c: MintConfig, qs: Seq<PurchaseRequest>)
    requires
        c.wf(),
    ensures
        sale_run(c, qs).wf(),
        sale_run(c, qs).max_amount == c.max_amount,
        sale_run(c, qs).total_minted == c.total_minted + accepted_amount_total(c, qs),
        accepted_amount_total(c, qs) >= 0,
        c.total_minted + accepted_amount_total(c, qs) <= c.max_amount,
    decreases qs.len(),
{
    if qs.len() == 0 {
    } else {
        lemma_sale_step(c, qs[0]);
        lemma_sale_total_minted_is_sum_of_accepted(sale_step(c, qs[0]), qs.drop_first());
    }
}

/// Fee and net payment round-trip: every accepted purchase splits its
/// payment exactly, `fee + net == paid` with `paid = amount * price` and
/// `fee = floor(paid * fee_rate / 10000)`, and the receipt accumulates
/// exactly those numbers.
pub proof fn lemma_purchase_fee_round_trip(
    c: MintConfig,
    rec: MintRecord,
    now: i64,
    amount: u64,
    price: u64,
)
    ensures
        ({
            let stepped = purchase_transition(c, rec, now, amount, price);
            stepped.2 matches Ok(payload) ==> {
                let paid = amount * price;
                let fee = fee_of(paid, c.fee_rate as int);
                &&& 0 <= fee <= paid
                &&& fee + payload.0 == paid
                &&& stepped.1.amount == rec.amount + amount
                &&& stepped.1.paid_amount == rec.paid_amount + paid
                &&& stepped.1.fee_amount == rec.fee_amount + fee
            }
        }),
{
    let paid = amount * price;
    let rate = c.fee_rate as int;
    assert(paid * rate / 10000 >= 0) by (nonlinear_arith)
        requires
            paid >= 0,
            rate >= 0,
    ;
    assert(paid * rate / 10000 <= paid) by (nonlinear_arith)
        requires
            paid >= 0,
            rate <= 10000,
    ;
}

/// A staking claim pays out exactly once. A successful claim shrinks the
/// pool's `total_staked` by the position's principal alone and marks the
/// position claimed; any later claim on that position — `now2 >= now`, the
/// clock never runs backwards — fails with `AlreadyClaimed` and leaves both
/// records unchanged.
pub proof fn lemma_claim_stake_exactly_once(
    pool: StakingPool,
    pos: StakingPosition,
    decimals: u8,
    now: i64,
    now2: i64,
)
    requires
        now2 >= now,
    ensures
        ({
            let first = claim_stake_transition(pool, pos, decimals, now);
            first.2 is Ok ==> {
                &&& first.0.total_staked == pool.total_staked - pos.amount
                &&& first.1.is_claimed
                &&& claim_stake_transition(first.0, first.1, decimals, now2) == (
                    first.0,
                    first.1,
                    Err::<(u64, StakeClaimed), TokenError>(TokenError::AlreadyClaimed),
                )
            }
        }),
{
}

} // verus!
