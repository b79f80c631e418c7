use vstd::prelude::*;
use crate::error::PreSaleError;
use crate::pubkey::Pubkey;

verus! {

/// The label from which the treasury's address is derived.
/// It reads `GLOBAL_STATE_SEED` in ASCII.
pub const GLOBAL_STATE_SEED: [u8; 17] = [
    71, 76, 79, 66, 65, 76, 95, 83, 84, 65, 84, 69, 95, 83, 69, 69, 68,
];

/// The label set aside for the participants' records.
/// It reads `USER_STATE_SEED` in ASCII.
pub const USER_STATE_SEED: [u8; 15] = [85, 83, 69, 82, 95, 83, 84, 65, 84, 69, 95, 83, 69, 69, 68];

/// The label from which the currency vault's address is derived.
/// It reads `SOL_VAULT_SEED` in ASCII.
pub const SOL_VAULT_SEED: [u8; 14] = [83, 79, 76, 95, 86, 65, 85, 76, 84, 95, 83, 69, 69, 68];

/// Which of the program's own addresses signs.
#[derive(Clone, Copy, Debug, PartialEq, Eq, Structural)]
pub enum Seed {
    /// The treasury, which owns the token vaults.
    GlobalState,
    /// The currency vault.
    SolVault,
}

impl Seed {
    /// The label's bytes.
    pub open spec fn label(self) -> Seq<u8> {
        match self {
            Seed::GlobalState => GLOBAL_STATE_SEED@,
            Seed::SolVault => SOL_VAULT_SEED@,
        }
    }
}

/// How the authority of a transfer answers for it.
#[derive(Clone, Copy, Debug, PartialEq, Eq, Structural)]
pub enum Signer {
    /// The authority has signed the operation itself.
    Wallet,
    /// No key exists for the authority: it is the address derived from `seed` and `bump`,
    /// and the program signs with these two.
    Program { seed: Seed, bump: u8 },
}

/// What is moved.
#[derive(Clone, Copy, Debug, PartialEq, Eq, Structural)]
pub enum Asset {
    /// The native currency, moved between wallets and the currency vault.
    Native,
    /// A token, moved by the transfer service between token holdings.
    Token,
}

/// One movement of value that an operation asks for. The caller carries it out: the
/// library decides what is moved, and moves nothing itself.
#[derive(Clone, Copy, Debug, PartialEq, Eq)]
pub struct Transfer {
    pub asset: Asset,
    /// The holding that is debited.
    pub from: Pubkey,
    /// The holding that is credited.
    pub to: Pubkey,
    /// The identity that may spend from `from`.
    pub authority: Pubkey,
    pub signer: Signer,
    pub amount: u64,
}

/// What the transfer service answered to one transfer.
#[derive(Clone, Copy, Debug, PartialEq, Eq, Structural)]
pub enum TransferOutcome {
    Completed,
    Refused,
}

/// What an operation returns for a transfer that ended as `outcome` says: a refused
/// transfer fails the operation with `TransferFailure`.
pub fn settle(outcome: TransferOutcome) -> (r: Result<(), PreSaleError>)
    ensures
        r == (match outcome {
            TransferOutcome::Completed => Ok::<(), PreSaleError>(()),
            TransferOutcome::Refused => Err(PreSaleError::TransferFailure),
        }),
{
    match outcome {
        TransferOutcome::Completed => Ok(()),
        TransferOutcome::Refused => Err(PreSaleError::TransferFailure),
    }
}

} // verus!
