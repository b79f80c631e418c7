use vstd::prelude::*;
use crate::error::PreSaleError;
use crate::pubkey::Pubkey;

verus! {

/// The treasury: the one record that holds the presale's configuration and the running
/// total of currency collected.
#[derive(Clone, Copy, Debug, PartialEq, Eq)]
pub struct GlobalState {
    /// The bump with which the treasury's own address is derived.
    pub bump: u8,
    /// The identity that administers the treasury and withdraws from it.
    pub authority: Pubkey,
    /// The currency collected so far and not yet withdrawn.
    pub amount: u64,
    /// The vault that holds the currency paid in.
    pub sol_vault: Pubkey,
    /// The token accepted in swaps.
    pub alt_mint: Pubkey,
    /// The vault that holds the swapped-in token.
    pub alt_vault: Pubkey,
    /// The token on sale.
    pub mint: Pubkey,
    /// The vault that holds the token on sale.
    pub vault: Pubkey,
    /// 1 once the treasury has been initialized.
    pub is_initialized: u8,
    /// The currency that one whole token costs.
    pub token_price: u64,
    /// The power of ten by which a whole number of tokens is scaled.
    pub token_decimal: u64,
}

impl GlobalState {
    /// The record as the store hands it out on creation: every field zero.
    pub open spec fn zero() -> GlobalState {
        GlobalState {
            bump: 0,
            authority: Pubkey::zero(),
            amount: 0,
            sol_vault: Pubkey::zero(),
            alt_mint: Pubkey::zero(),
            alt_vault: Pubkey::zero(),
            mint: Pubkey::zero(),
            vault: Pubkey::zero(),
            is_initialized: 0,
            token_price: 0,
            token_decimal: 0,
        }
    }

    /// Whether the treasury has been initialized.
    pub open spec fn initialized(&self) -> bool {
        self.is_initialized == 1
    }

    /// Refuses with `NotInitialized` exactly when the treasury has not been initialized.
    pub fn check_initialized(&self) -> (r: Result<(), PreSaleError>)
        ensures
            r == (if self.initialized() {
                Ok::<(), PreSaleError>(())
            } else {
                Err(PreSaleError::NotInitialized)
            }),
    {
        if self.is_initialized == 1 {
            Ok(())
        } else {
            Err(PreSaleError::NotInitialized)
        }
    }
}

impl Default for GlobalState {
    fn default() -> (state: GlobalState)
        ensures
            state == GlobalState::zero(),
    {
        GlobalState {
            bump: 0,
            authority: Pubkey::default(),
            amount: 0,
            sol_vault: Pubkey::default(),
            alt_mint: Pubkey::default(),
            alt_vault: Pubkey::default(),
            mint: Pubkey::default(),
            vault: Pubkey::default(),
            is_initialized: 0,
            token_price: 0,
            token_decimal: 0,
        }
    }
}

/// A participant's record. There is one for each pair of treasury and participant; it is
/// made on the participant's first purchase and never removed.
#[derive(Clone, Copy, Debug, PartialEq, Eq)]
pub struct UserAccount {
    /// The bump with which the record's own address is derived.
    pub bump: u8,
    /// The treasury that the record belongs to.
    pub global_state: Pubkey,
    /// The participant.
    pub authority: Pubkey,
    /// The participant's running total: the currency paid in all purchases so far.
    pub amount: u64,
}

impl UserAccount {
    /// The record as the store hands it out on creation: every field zero.
    pub open spec fn zero() -> UserAccount {
        UserAccount { bump: 0, global_state: Pubkey::zero(), authority: Pubkey::zero(), amount: 0 }
    }

    /// The record to work on: the existing one as it is, or a new zero record where there
    /// is none yet.
    pub open spec fn opened(existing: Option<UserAccount>) -> UserAccount {
        match existing {
            Some(record) => record,
            None => UserAccount::zero(),
        }
    }

    /// Creates the record if it is absent, and hands back the existing one unchanged if
    /// it is present.
    pub fn load_or_create(existing: Option<UserAccount>) -> (record: UserAccount)
        ensures
            record == UserAccount::opened(existing),
    {
        match existing {
            Some(record) => record,
            None => UserAccount::default(),
        }
    }
}

impl Default for UserAccount {
    fn default() -> (record: UserAccount)
        ensures
            record == UserAccount::zero(),
    {
        UserAccount {
            bump: 0,
            global_state: Pubkey::default(),
            authority: Pubkey::default(),
            amount: 0,
        }
    }
}

/// Announces that a treasury has been initialized.
#[derive(Clone, Copy, Debug, PartialEq, Eq)]
pub struct GlobalStateCreated {
    /// The treasury's address.
    pub global_state: Pubkey,
    /// The token on sale.
    pub mint: Pubkey,
}

/// Announces that a participant's record has been made. No operation emits it yet.
#[derive(Clone, Copy, Debug, PartialEq, Eq)]
pub struct UserCreated {
    /// The treasury's address.
    pub global_state: Pubkey,
    /// The participant's record.
    pub user: Pubkey,
    /// The participant.
    pub authority: Pubkey,
}

} // verus!
