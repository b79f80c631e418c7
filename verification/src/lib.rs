//! A token presale ledger: a treasury that sells a token for currency or for a second
//! token, keeps the total of currency collected, and lets its authority withdraw.
//!
//! Every operation decides on plain values and moves nothing itself: it returns the
//! transfers that its caller is to carry out.
pub mod accounts;
pub mod custody;
pub mod error;
pub mod instructions;
pub mod laws;
pub mod pricing;
pub mod pubkey;
pub mod state;
pub mod transfer;

pub use accounts::{
    BuyToken, ClaimSol, CreateGlobalState, DepositToken, SwapToken, UpdateGlobalState,
};
pub use error::PreSaleError;
pub use instructions::{
    buy_token, buy_token_with, claim_sol, claim_sol_with, claim_token, claim_token_with,
    create_global_state, deposit_token, swap_token, swap_token_with, update_global_state,
};
pub use pubkey::Pubkey;
pub use state::{GlobalState, GlobalStateCreated, UserAccount, UserCreated};
pub use transfer::{Asset, Seed, Signer, Transfer, TransferOutcome};
