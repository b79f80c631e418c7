use vstd::prelude::*;
use crate::pubkey::Pubkey;
use crate::state::{GlobalState, UserAccount};

verus! {

/// What initializing the treasury works on.
#[derive(Clone, Copy, Debug, PartialEq, Eq)]
pub struct CreateGlobalState {
    /// The treasury record: all zero when it has just been created.
    pub global_state: GlobalState,
    /// The address under which the store keeps the treasury.
    pub global_state_key: Pubkey,
    /// The bump with which the treasury's address was derived.
    pub bump: u8,
    /// The vault that is to hold the currency paid in.
    pub sol_vault: Pubkey,
    /// The token to put on sale.
    pub mint: Pubkey,
    /// The vault that is to hold the token on sale.
    pub vault: Pubkey,
    /// The token to accept in swaps.
    pub alt_mint: Pubkey,
    /// The vault that is to hold the swapped-in token.
    pub alt_vault: Pubkey,
    /// The caller, who has signed.
    pub authority: Pubkey,
}

/// What a change of price works on.
#[derive(Clone, Copy, Debug, PartialEq, Eq)]
pub struct UpdateGlobalState {
    /// The treasury record.
    pub global_state: GlobalState,
    /// The caller, who has signed.
    pub authority: Pubkey,
}

/// What funding the pool, and withdrawing from it, work on.
#[derive(Clone, Copy, Debug, PartialEq, Eq)]
pub struct DepositToken {
    /// The treasury record.
    pub global_state: GlobalState,
    /// The address under which the store keeps the treasury, which owns the token vaults.
    pub global_state_key: Pubkey,
    /// The caller, who has signed.
    pub authority: Pubkey,
    /// The caller's holding of the token on sale.
    pub user_vault: Pubkey,
}

/// What a purchase works on.
#[derive(Clone, Copy, Debug, PartialEq, Eq)]
pub struct BuyToken {
    /// The treasury record.
    pub global_state: GlobalState,
    /// The address under which the store keeps the treasury, which owns the token vaults.
    pub global_state_key: Pubkey,
    /// The participant, who has signed.
    pub user: Pubkey,
    /// The participant's record, if the store holds one.
    pub user_state: Option<UserAccount>,
    /// The secondary token that the participant names.
    pub alt_mint: Pubkey,
    /// The participant's holding, which takes the tokens bought.
    pub user_vault: Pubkey,
}

/// What a swap works on.
#[derive(Clone, Copy, Debug, PartialEq, Eq)]
pub struct SwapToken {
    /// The treasury record.
    pub global_state: GlobalState,
    /// The address under which the store keeps the treasury, which owns the token vaults.
    pub global_state_key: Pubkey,
    /// The participant, who has signed.
    pub authority: Pubkey,
    /// The secondary token that the participant names.
    pub alt_mint: Pubkey,
    /// The participant's holding of the secondary token.
    pub user_alt_vault: Pubkey,
    /// The token on sale that the participant names.
    pub mint: Pubkey,
    /// The participant's holding of the token on sale.
    pub user_vault: Pubkey,
}

/// What a withdrawal of collected currency works on.
#[derive(Clone, Copy, Debug, PartialEq, Eq)]
pub struct ClaimSol {
    /// The treasury record.
    pub global_state: GlobalState,
    /// The caller, who has signed.
    pub user: Pubkey,
    /// The bump with which the currency vault's address was derived.
    pub bump: u8,
}

} // verus!
