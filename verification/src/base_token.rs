//! The token ledger: identity, supply counter, pause switch and role keys.
//!
//! Every operation is a pure state transition: it takes the verified caller
//! key and, where needed, the host's clock reading, checks its preconditions
//! in a documented order, and only then mutates the ledger. An operation that
//! must also move value externally returns the base-unit amount for the
//! host's mint/burn service; the host executes the whole request atomically,
//! so a failed external call discards the local mutation too.

use vstd::prelude::*;

use crate::address::Address;
use crate::errors::TokenError;

verus! {

/// One token's ledger record, owned by its deterministic address.
///
/// `total_supply` counts whole tokens; the external token service works in
/// base units of `10^decimals` per whole token. `name`, `symbol` and `uri`
/// are byte strings bounded by [`BaseToken::wf`].
#[derive(Debug, Clone, PartialEq, Eq)]
pub struct BaseToken {
    pub mint: Address,
    pub authority: Address,
    pub admin: Address,
    pub treasury: Address,
    pub decimals: u8,
    pub total_supply: u64,
    pub is_initialized: bool,
    pub is_paused: bool,
    pub created_at: i64,
    pub name: Vec<u8>,
    pub symbol: Vec<u8>,
    pub uri: Vec<u8>,
}

/// Emitted when a ledger is initialized.
#[derive(Debug, Clone, PartialEq, Eq)]
pub struct TokenInitialized {
    pub mint: Address,
    pub authority: Address,
    pub decimals: u8,
    pub name: Vec<u8>,
    pub symbol: Vec<u8>,
    pub uri: Vec<u8>,
}

/// Emitted when a ledger's metadata is replaced.
#[derive(Debug, Clone, PartialEq, Eq)]
pub struct TokenMetadataUpdated {
    pub mint: Address,
    pub name: Vec<u8>,
    pub symbol: Vec<u8>,
    pub uri: Vec<u8>,
}

/// Emitted when the admin role is handed over.
#[derive(Debug, Clone, Copy, PartialEq, Eq, Structural)]
pub struct AdminUpdated {
    pub mint: Address,
    pub old_admin: Address,
    pub new_admin: Address,
}

/// Emitted when the treasury role is handed over.
#[derive(Debug, Clone, Copy, PartialEq, Eq, Structural)]
pub struct TreasuryUpdated {
    pub mint: Address,
    pub old_treasury: Address,
    pub new_treasury: Address,
}

/// Emitted when supply is created: by an admin mint (`paid_amount` and
/// `fee_amount` zero) or by a sale purchase.
#[derive(Debug, Clone, Copy, PartialEq, Eq, Structural)]
pub struct TokenMinted {
    pub user: Address,
    pub amount: u64,
    pub paid_amount: u64,
    pub fee_amount: u64,
}

/// Emitted when supply is destroyed.
#[derive(Debug, Clone, Copy, PartialEq, Eq, Structural)]
pub struct TokenBurned {
    pub user: Address,
    pub amount: u64,
}

/// `10^e`, the number of base units per whole token at `e` decimal places.
pub open spec fn pow10(e: nat) -> nat
    decreases e,
{
    if e == 0 {
        1
    } else {
        10 * pow10((e - 1) as nat)
    }
}

/// `10^e` as a machine word; a ledger's `decimals` is at most 9, so the
/// result is at most one billion.
pub fn pow10_u64(e: u8) -> (r: u64)
    requires
        e <= 9,
    ensures
        r == pow10(e as nat),
{
    let r: u64 = match e {
        0 => 1,
        1 => 10,
        2 => 100,
        3 => 1_000,
        4 => 10_000,
        5 => 100_000,
        6 => 1_000_000,
        7 => 10_000_000,
        8 => 100_000_000,
        _ => 1_000_000_000,
    };
    proof {
        reveal_with_fuel(pow10, 11);
    }
    r
}

/// A fresh byte-for-byte copy of `v`.
fn copy_bytes(v: &Vec<u8>) -> (r: Vec<u8>)
    ensures
        r@ == v@,
{
    let mut r: Vec<u8> = Vec::new();
    let mut i: usize = 0;
    while i < v.len()
        invariant
            i <= v@.len(),
            r@ =~= v@.subrange(0, i as int),
        decreases v@.len() - i,
    {
        r.push(v[i]);
        i = i + 1;
    }
    assert(r@ =~= v@);
    r
}

/// The outcome of an operation with the event payload stripped, so that a
/// transition function can speak of the state change and the error without
/// fixing the payload type.
pub open spec fn outcome<T>(r: Result<T, TokenError>) -> Result<(), TokenError> {
    match r {
        Ok(_) => Ok(()),
        Err(e) => Err(e),
    }
}

/// What `initialize_token` does: the new ledger state and the outcome.
/// A ledger is initialized at most once; decimals are capped at 9, the name
/// at 32 bytes and the symbol at 10 bytes; the caller becomes authority,
/// admin and treasury at once.
pub open spec fn initialize_token_transition(
    t: BaseToken,
    mint: Address,
    caller: Address,
    now: i64,
    decimals: u8,
    name: Vec<u8>,
    symbol: Vec<u8>,
    uri: Vec<u8>,
) -> (BaseToken, Result<(), TokenError>) {
    if t.is_initialized {
        (t, Err(TokenError::AlreadyInitialized))
    } else if decimals > 9 {
        (t, Err(TokenError::InvalidDecimals))
    } else if name@.len() > 32 {
        (t, Err(TokenError::NameTooLong))
    } else if symbol@.len() > 10 {
        (t, Err(TokenError::SymbolTooLong))
    } else {
        (
            BaseToken {
                mint,
                authority: caller,
                admin: caller,
                treasury: caller,
                decimals,
                total_supply: 0,
                is_initialized: true,
                is_paused: false,
                created_at: now,
                name,
                symbol,
                uri,
            },
            Ok(()),
        )
    }
}

/// What `update_token_metadata` does. The metadata byte bounds are
/// re-checked so the ledger's invariant is kept; only the admin may update.
pub open spec fn update_metadata_transition(
    t: BaseToken,
    caller: Address,
    name: Vec<u8>,
    symbol: Vec<u8>,
    uri: Vec<u8>,
) -> (BaseToken, Result<(), TokenError>) {
    if name@.len() > 32 {
        (t, Err(TokenError::NameTooLong))
    } else if symbol@.len() > 10 {
        (t, Err(TokenError::SymbolTooLong))
    } else if caller != t.admin {
        (t, Err(TokenError::Unauthorized))
    } else {
        (BaseToken { name, symbol, uri, ..t }, Ok(()))
    }
}

/// What `update_admin` does: only the current admin may hand the role over.
pub open spec fn update_admin_transition(t: BaseToken, caller: Address, new_admin: Address) -> (
    BaseToken,
    Result<AdminUpdated, TokenError>,
) {
    if caller != t.admin {
        (t, Err(TokenError::Unauthorized))
    } else {
        (
            BaseToken { admin: new_admin, ..t },
            Ok(AdminUpdated { mint: t.mint, old_admin: t.admin, new_admin }),
        )
    }
}

/// What `update_treasury` does: only the admin may point the treasury away.
pub open spec fn update_treasury_transition(
    t: BaseToken,
    caller: Address,
    new_treasury: Address,
) -> (BaseToken, Result<TreasuryUpdated, TokenError>) {
    if caller != t.admin {
        (t, Err(TokenError::Unauthorized))
    } else {
        (
            BaseToken { treasury: new_treasury, ..t },
            Ok(TreasuryUpdated { mint: t.mint, old_treasury: t.treasury, new_treasury }),
        )
    }
}

/// What `pause_token` does. Pausing an already paused ledger fails before
/// the authorization check; the pause switch is gated on the admin key, the
/// same role that gates every other administrative operation here.
pub open spec fn pause_transition(t: BaseToken, caller: Address) -> (
    BaseToken,
    Result<(), TokenError>,
) {
    if t.is_paused {
        (t, Err(TokenError::AlreadyPaused))
    } else if caller != t.admin {
        (t, Err(TokenError::Unauthorized))
    } else {
        (BaseToken { is_paused: true, ..t }, Ok(()))
    }
}

/// What `unpause_token` does, the mirror image of [`pause_transition`].
pub open spec fn unpause_transition(t: BaseToken, caller: Address) -> (
    BaseToken,
    Result<(), TokenError>,
) {
    if !t.is_paused {
        (t, Err(TokenError::NotPaused))
    } else if caller != t.admin {
        (t, Err(TokenError::Unauthorized))
    } else {
        (BaseToken { is_paused: false, ..t }, Ok(()))
    }
}

/// What `mint_token` does: checked supply growth plus the base-unit amount
/// the external mint service must create. Either checked operation wrapping
/// fails the request with `InsufficientFunds` and changes nothing.
pub open spec fn mint_token_transition(t: BaseToken, caller: Address, amount: u64) -> (
    BaseToken,
    Result<(u64, TokenMinted), TokenError>,
) {
    if amount == 0 {
        (t, Err(TokenError::InvalidAmount))
    } else if t.is_paused {
        (t, Err(TokenError::TokenPaused))
    } else if caller != t.admin {
        (t, Err(TokenError::Unauthorized))
    } else if t.total_supply + amount > u64::MAX {
        (t, Err(TokenError::InsufficientFunds))
    } else if amount * pow10(t.decimals as nat) > u64::MAX {
        (t, Err(TokenError::InsufficientFunds))
    } else {
        (
            BaseToken { total_supply: (t.total_supply + amount) as u64, ..t },
            Ok(
                (
                    (amount * pow10(t.decimals as nat)) as u64,
                    TokenMinted { user: caller, amount, paid_amount: 0, fee_amount: 0 },
                ),
            ),
        )
    }
}

/// What `burn_token` does: checked supply shrinkage plus the base-unit
/// amount the external burn service must destroy.
pub open spec fn burn_token_transition(t: BaseToken, caller: Address, amount: u64) -> (
    BaseToken,
    Result<(u64, TokenBurned), TokenError>,
) {
    if amount == 0 {
        (t, Err(TokenError::InvalidAmount))
    } else if t.is_paused {
        (t, Err(TokenError::TokenPaused))
    } else if caller != t.admin {
        (t, Err(TokenError::Unauthorized))
    } else if amount > t.total_supply {
        (t, Err(TokenError::InsufficientFunds))
    } else if amount * pow10(t.decimals as nat) > u64::MAX {
        (t, Err(TokenError::InsufficientFunds))
    } else {
        (
            BaseToken { total_supply: (t.total_supply - amount) as u64, ..t },
            Ok(
                (
                    (amount * pow10(t.decimals as nat)) as u64,
                    TokenBurned { user: caller, amount },
                ),
            ),
        )
    }
}

impl BaseToken {
    /// The ledger's record invariant: decimals and metadata byte lengths
    /// inside their documented bounds.
    pub open spec fn wf(self) -> bool {
        &&& self.decimals <= 9
        &&& self.name@.len() <= 32
        &&& self.symbol@.len() <= 10
        &&& self.uri@.len() <= 200
    }

    /// A pristine ledger record, as the host allocates it: all keys zero,
    /// all flags clear, all byte strings empty.
    pub fn new() -> (r: BaseToken)
        ensures
            r.mint.value == 0,
            r.authority.value == 0,
            r.admin.value == 0,
            r.treasury.value == 0,
            r.decimals == 0,
            r.total_supply == 0,
            !r.is_initialized,
            !r.is_paused,
            r.created_at == 0,
            r.name@ == Seq::<u8>::empty(),
            r.symbol@ == Seq::<u8>::empty(),
            r.uri@ == Seq::<u8>::empty(),
            r.wf(),
    {
        let r = BaseToken {
            mint: Address::zero(),
            authority: Address::zero(),
            admin: Address::zero(),
            treasury: Address::zero(),
            decimals: 0,
            total_supply: 0,
            is_initialized: false,
            is_paused: false,
            created_at: 0,
            name: Vec::new(),
            symbol: Vec::new(),
            uri: Vec::new(),
        };
        assert(r.name@ =~= Seq::<u8>::empty());
        assert(r.symbol@ =~= Seq::<u8>::empty());
        assert(r.uri@ =~= Seq::<u8>::empty());
        r
    }

    /// Initializes the ledger once: the caller becomes authority, admin and
    /// treasury, the supply starts at zero and the pause switch is clear.
    /// Fails with `AlreadyInitialized` on a second call, `InvalidDecimals`
    /// over nine decimal places, and `NameTooLong`/`SymbolTooLong` over the
    /// metadata byte bounds, leaving the record unchanged. The 200-byte uri
    /// bound has no error of its own, so the caller checks it up front — the
    /// host refuses to persist an oversized record.
    pub fn initialize_token(
        &mut self,
        mint: Address,
        caller: Address,
        now: i64,
        decimals: u8,
        name: Vec<u8>,
        symbol: Vec<u8>,
        uri: Vec<u8>,
    ) -> (r: Result<TokenInitialized, TokenError>)
        requires
            uri@.len() <= 200,
        ensures
            (*final(self), outcome(r)) == initialize_token_transition(
                *old(self),
                mint,
                caller,
                now,
                decimals,
                name,
                symbol,
                uri,
            ),
            old(self).wf() ==> final(self).wf(),
            r matches Ok(ev) ==> {
                &&& ev.mint == mint
                &&& ev.authority == caller
                &&& ev.decimals == decimals
                &&& ev.name@ == name@
                &&& ev.symbol@ == symbol@
                &&& ev.uri@ == uri@
            },
    {
        if self.is_initialized {
            return Err(TokenError::AlreadyInitialized);
        }
        if decimals > 9 {
            return Err(TokenError::InvalidDecimals);
        }
        if name.len() > 32 {
            return Err(TokenError::NameTooLong);
        }
        if symbol.len() > 10 {
            return Err(TokenError::SymbolTooLong);
        }
        let event_name = copy_bytes(&name);
        let event_symbol = copy_bytes(&symbol);
        let event_uri = copy_bytes(&uri);
        self.mint = mint;
        self.authority = caller;
        self.admin = caller;
        self.treasury = caller;
        self.decimals = decimals;
        self.total_supply = 0;
        self.is_initialized = true;
        self.is_paused = false;
        self.created_at = now;
        self.name = name;
        self.symbol = symbol;
        self.uri = uri;
        Ok(
            TokenInitialized {
                mint,
                authority: caller,
                decimals,
                name: event_name,
                symbol: event_symbol,
                uri: event_uri,
            },
        )
    }

    /// Replaces name, symbol and uri in place, re-checking the byte bounds;
    /// only the admin may update. The returned event carries the new values.
    /// As at initialization, the caller checks the 200-byte uri bound, which
    /// has no error of its own.
    pub fn update_token_metadata(
        &mut self,
        caller: Address,
        name: Vec<u8>,
        symbol: Vec<u8>,
        uri: Vec<u8>,
    ) -> (r: Result<TokenMetadataUpdated, TokenError>)
        requires
            uri@.len() <= 200,
        ensures
            (*final(self), outcome(r)) == update_metadata_transition(
                *old(self),
                caller,
                name,
                symbol,
                uri,
            ),
            old(self).wf() ==> final(self).wf(),
            r matches Ok(ev) ==> {
                &&& ev.mint == old(self).mint
                &&& ev.name@ == name@
                &&& ev.symbol@ == symbol@
                &&& ev.uri@ == uri@
            },
    {
        if name.len() > 32 {
            return Err(TokenError::NameTooLong);
        }
        if symbol.len() > 10 {
            return Err(TokenError::SymbolTooLong);
        }
        if caller != self.admin {
            return Err(TokenError::Unauthorized);
        }
        let event_name = copy_bytes(&name);
        let event_symbol = copy_bytes(&symbol);
        let event_uri = copy_bytes(&uri);
        self.name = name;
        self.symbol = symbol;
        self.uri = uri;
        Ok(
            TokenMetadataUpdated {
                mint: self.mint,
                name: event_name,
                symbol: event_symbol,
                uri: event_uri,
            },
        )
    }

    /// Hands the admin role to `new_admin`; only the current admin may.
    pub fn update_admin(&mut self, caller: Address, new_admin: Address) -> (r: Result<
        AdminUpdated,
        TokenError,
    >)
        ensures
            (*final(self), r) == update_admin_transition(*old(self), caller, new_admin),
            old(self).wf() ==> final(self).wf(),
    {
        if caller != self.admin {
            return Err(TokenError::Unauthorized);
        }
        let old_admin = self.admin;
        self.admin = new_admin;
        Ok(AdminUpdated { mint: self.mint, old_admin, new_admin })
    }

    /// Points the treasury at `new_treasury`; only the admin may.
    pub fn update_treasury(&mut self, caller: Address, new_treasury: Address) -> (r: Result<
        TreasuryUpdated,
        TokenError,
    >)
        ensures
            (*final(self), r) == update_treasury_transition(*old(self), caller, new_treasury),
            old(self).wf() ==> final(self).wf(),
    {
        if caller != self.admin {
            return Err(TokenError::Unauthorized);
        }
        let old_treasury = self.treasury;
        self.treasury = new_treasury;
        Ok(TreasuryUpdated { mint: self.mint, old_treasury, new_treasury })
    }

    /// Sets the pause switch. Fails with `AlreadyPaused` if it is already
    /// set and with `Unauthorized` for any caller but the admin.
    pub fn pause_token(&mut self, caller: Address) -> (r: Result<(), TokenError>)
        ensures
            (*final(self), r) == pause_transition(*old(self), caller),
            old(self).wf() ==> final(self).wf(),
    {
        if self.is_paused {
            return Err(TokenError::AlreadyPaused);
        }
        if caller != self.admin {
            return Err(TokenError::Unauthorized);
        }
        self.is_paused = true;
        Ok(())
    }

    /// Clears the pause switch. Fails with `NotPaused` if it is already
    /// clear and with `Unauthorized` for any caller but the admin.
    pub fn unpause_token(&mut self, caller: Address) -> (r: Result<(), TokenError>)
        ensures
            (*final(self), r) == unpause_transition(*old(self), caller),
            old(self).wf() ==> final(self).wf(),
    {
        if !self.is_paused {
            return Err(TokenError::NotPaused);
        }
        if caller != self.admin {
            return Err(TokenError::Unauthorized);
        }
        self.is_paused = false;
        Ok(())
    }

    /// Grows the supply by `amount` whole tokens and returns the base-unit
    /// amount (`amount * 10^decimals`) the external mint service must
    /// create, together with the event. The local supply update comes first;
    /// the host rolls the whole request back if the external call fails.
    pub fn mint_token(&mut self, caller: Address, amount: u64) -> (r: Result<
        (u64, TokenMinted),
        TokenError,
    >)
        requires
            old(self).wf(),
        ensures
            (*final(self), r) == mint_token_transition(*old(self), caller, amount),
            final(self).wf(),
            final(self).total_supply >= old(self).total_supply,
    {
        if amount == 0 {
            return Err(TokenError::InvalidAmount);
        }
        if self.is_paused {
            return Err(TokenError::TokenPaused);
        }
        if caller != self.admin {
            return Err(TokenError::Unauthorized);
        }
        let new_supply = match self.total_supply.checked_add(amount) {
            Some(s) => s,
            None => {
                return Err(TokenError::InsufficientFunds);
            },
        };
        let scale = pow10_u64(self.decimals);
        let base_units = match amount.checked_mul(scale) {
            Some(b) => b,
            None => {
                return Err(TokenError::InsufficientFunds);
            },
        };
        self.total_supply = new_supply;
        Ok((base_units, TokenMinted { user: caller, amount, paid_amount: 0, fee_amount: 0 }))
    }

    /// Shrinks the supply by `amount` whole tokens and returns the base-unit
    /// amount the external burn service must destroy, together with the
    /// event.
    pub fn burn_token(&mut self, caller: Address, amount: u64) -> (r: Result<
        (u64, TokenBurned),
        TokenError,
    >)
        requires
            old(self).wf(),
        ensures
            (*final(self), r) == burn_token_transition(*old(self), caller, amount),
            final(self).wf(),
            final(self).total_supply <= old(self).total_supply,
    {
        if amount == 0 {
            return Err(TokenError::InvalidAmount);
        }
        if self.is_paused {
            return Err(TokenError::TokenPaused);
        }
        if caller != self.admin {
            return Err(TokenError::Unauthorized);
        }
        let new_supply = match self.total_supply.checked_sub(amount) {
            Some(s) => s,
            None => {
                return Err(TokenError::InsufficientFunds);
            },
        };
        let scale = pow10_u64(self.decimals);
        let base_units = match amount.checked_mul(scale) {
            Some(b) => b,
            None => {
                return Err(TokenError::InsufficientFunds);
            },
        };
        self.total_supply = new_supply;
        Ok((base_units, TokenBurned { user: caller, amount }))
    }
}

} // verus!
