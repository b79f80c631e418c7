use vstd::prelude::*;
use crate::accounts::{
    BuyToken, ClaimSol, CreateGlobalState, DepositToken, SwapToken, UpdateGlobalState,
};
use crate::custody::{authorized, derive_authority, is_derived, lemma_derived_is_proven, proven};
use crate::error::PreSaleError;
use crate::pricing::{decimal_scale, token_amount, tokens_for};
use crate::pubkey::Pubkey;
use crate::state::{GlobalState, GlobalStateCreated, UserAccount};
use crate::transfer::{Asset, Seed, Signer, Transfer};

verus! {

// ---------------------------------------------------------------------------------------
// Purchase
// ---------------------------------------------------------------------------------------
/// The payment of a purchase: `amount` of currency from the participant, who signs for
/// it, to the treasury's currency vault.
pub open spec fn buy_payment(ctx: BuyToken, amount: u64) -> Transfer {
    Transfer {
        asset: Asset::Native,
        from: ctx.user,
        to: ctx.global_state.sol_vault,
        authority: ctx.user,
        signer: Signer::Wallet,
        amount,
    }
}

/// The delivery of a purchase: `tokens` of the token on sale from the treasury's vault,
/// for which the treasury signs with its stored bump, to the participant's holding.
pub open spec fn buy_delivery(ctx: BuyToken, tokens: u64) -> Transfer {
    Transfer {
        asset: Asset::Token,
        from: ctx.global_state.vault,
        to: ctx.user_vault,
        authority: ctx.global_state_key,
        signer: Signer::Program { seed: Seed::GlobalState, bump: ctx.global_state.bump },
        amount: tokens,
    }
}

/// The participant's record as an accepted purchase of `amount` leaves it: the record
/// that was there, or a new zero record where there was none, with the participant as
/// its owner and `amount` added to its running total.
pub open spec fn buy_record(ctx: BuyToken, amount: u64) -> UserAccount {
    UserAccount {
        authority: ctx.user,
        amount: (UserAccount::opened(ctx.user_state).amount + amount) as u64,
        ..UserAccount::opened(ctx.user_state)
    }
}

/// What a purchase of `amount` returns: the two transfers to carry out, payment first, or
/// the reason for which it is refused. `treasury_proven` says whether the program may
/// sign for the treasury with its stored bump. A purchase that would carry the total
/// collected, or the participant's running total, beyond 64 bits is an overflow.
pub open spec fn buy_token_spec(ctx: BuyToken, amount: u64, treasury_proven: bool) -> Result<
    (Transfer, Transfer),
    PreSaleError,
> {
    if !ctx.global_state.initialized() {
        Err(PreSaleError::NotInitialized)
    } else if ctx.alt_mint != ctx.global_state.alt_mint {
        Err(PreSaleError::InvalidToken)
    } else if ctx.global_state.amount + amount > u64::MAX || UserAccount::opened(
        ctx.user_state,
    ).amount + amount > u64::MAX {
        Err(PreSaleError::ArithmeticOverflow)
    } else {
        match tokens_for(amount, ctx.global_state.token_price, ctx.global_state.token_decimal) {
            Some(tokens) => if treasury_proven {
                Ok((buy_payment(ctx, amount), buy_delivery(ctx, tokens)))
            } else {
                Err(PreSaleError::NotAllowedAuthority)
            },
            None => Err(PreSaleError::ArithmeticOverflow),
        }
    }
}

/// What a purchase of `amount` leaves behind. An accepted one adds `amount` to the total
/// collected and to the running total of the participant's record, which is made now if
/// there was none and has the participant as its owner; a refused one leaves everything
/// as it was.
pub open spec fn buy_token_state(ctx: BuyToken, amount: u64, treasury_proven: bool) -> BuyToken {
    if buy_token_spec(ctx, amount, treasury_proven) is Ok {
        BuyToken {
            global_state: GlobalState {
                amount: (ctx.global_state.amount + amount) as u64,
                ..ctx.global_state
            },
            user_state: Some(buy_record(ctx, amount)),
            ..ctx
        }
    } else {
        ctx
    }
}

/// A participant buys tokens for `amount` of currency.
///
/// The secondary token named must be the configured one. The participant's record is
/// created on the first purchase and reused afterwards. The total collected and the
/// record's running total both grow by `amount`, and the participant is owed `tokens_for`
/// the amount at the treasury's price.
/// The treasury's address is derived anew from its seed and stored bump, and nothing is
/// delivered in its name unless that is the address under which the treasury is kept.
/// The caller carries out the two transfers returned, in their order; should one of them
/// be refused, the state written here must be dropped.
pub fn buy_token(ctx: &mut BuyToken, amount: u64, program_id: &Pubkey) -> (r: Result<
    (Transfer, Transfer),
    PreSaleError,
>)
    ensures
        r == buy_token_spec(
            *old(ctx),
            amount,
            proven(
                old(ctx).global_state_key,
                Seed::GlobalState,
                old(ctx).global_state.bump,
                *program_id,
            ),
        ),
        *final(ctx) == buy_token_state(
            *old(ctx),
            amount,
            proven(
                old(ctx).global_state_key,
                Seed::GlobalState,
                old(ctx).global_state.bump,
                *program_id,
            ),
        ),
        r is Err ==> *final(ctx) == *old(ctx),
        r matches Ok(pair) ==> {
            &&& final(ctx).global_state.amount == old(ctx).global_state.amount + amount
            &&& final(ctx).user_state matches Some(rec) && rec.amount == UserAccount::opened(
                old(ctx).user_state,
            ).amount + amount
            &&& pair.0.amount == amount
            &&& pair.1.amount == (amount / old(ctx).global_state.token_price) * decimal_scale(
                old(ctx).global_state.token_decimal,
            )
            &&& authorized(pair.0, *program_id)
            &&& authorized(pair.1, *program_id)
        },
        old(ctx).global_state.initialized() && old(ctx).alt_mint != old(ctx).global_state.alt_mint
            ==> r == Err::<(Transfer, Transfer), PreSaleError>(PreSaleError::InvalidToken),
{
    let derived = derive_authority(Seed::GlobalState, ctx.global_state.bump, program_id);
    proof {
        lemma_derived_is_proven(
            ctx.global_state_key,
            derived,
            Seed::GlobalState,
            ctx.global_state.bump,
            *program_id,
        );
    }
    buy_token_with(ctx, amount, derived)
}

/// The purchase, given the address `derived` that the treasury's seed and stored bump
/// have been found to give.
pub fn buy_token_with(ctx: &mut BuyToken, amount: u64, derived: Option<Pubkey>) -> (r: Result<
    (Transfer, Transfer),
    PreSaleError,
>)
    ensures
        r == buy_token_spec(*old(ctx), amount, derived == Some(old(ctx).global_state_key)),
        *final(ctx) == buy_token_state(
            *old(ctx),
            amount,
            derived == Some(old(ctx).global_state_key),
        ),
        r is Err ==> *final(ctx) == *old(ctx),
        r matches Ok(pair) ==> {
            &&& final(ctx).global_state.amount == old(ctx).global_state.amount + amount
            &&& final(ctx).user_state matches Some(rec) && rec.amount == UserAccount::opened(
                old(ctx).user_state,
            ).amount + amount
            &&& pair.0.amount == amount
            &&& pair.1.amount == (amount / old(ctx).global_state.token_price) * decimal_scale(
                old(ctx).global_state.token_decimal,
            )
        },
        old(ctx).global_state.initialized() && old(ctx).alt_mint != old(ctx).global_state.alt_mint
            ==> r == Err::<(Transfer, Transfer), PreSaleError>(PreSaleError::InvalidToken),
{
    if let Err(e) = ctx.global_state.check_initialized() {
        return Err(e);
    }
    if ctx.alt_mint != ctx.global_state.alt_mint {
        return Err(PreSaleError::InvalidToken);
    }
    let mut record = UserAccount::load_or_create(ctx.user_state);
    record.authority = ctx.user;
    record.amount = match record.amount.checked_add(amount) {
        Some(running) => running,
        None => {
            return Err(PreSaleError::ArithmeticOverflow);
        },
    };
    let payment = Transfer {
        asset: Asset::Native,
        from: ctx.user,
        to: ctx.global_state.sol_vault,
        authority: ctx.user,
        signer: Signer::Wallet,
        amount,
    };
    let total: u64 = match ctx.global_state.amount.checked_add(amount) {
        Some(total) => total,
        None => {
            return Err(PreSaleError::ArithmeticOverflow);
        },
    };
    let tokens: u64 = match token_amount(
        amount,
        ctx.global_state.token_price,
        ctx.global_state.token_decimal,
    ) {
        Ok(tokens) => tokens,
        Err(e) => {
            return Err(e);
        },
    };
    if !is_derived(&ctx.global_state_key, derived) {
        return Err(PreSaleError::NotAllowedAuthority);
    }
    let delivery = Transfer {
        asset: Asset::Token,
        from: ctx.global_state.vault,
        to: ctx.user_vault,
        authority: ctx.global_state_key,
        signer: Signer::Program { seed: Seed::GlobalState, bump: ctx.global_state.bump },
        amount: tokens,
    };
    ctx.user_state = Some(record);
    ctx.global_state.amount = total;
    Ok((payment, delivery))
}

// ---------------------------------------------------------------------------------------
// Swap
// ---------------------------------------------------------------------------------------
/// The first half of a swap: `amount` of the secondary token from the participant, who
/// signs for it, to the treasury's vault for that token.
pub open spec fn swap_deposit(ctx: SwapToken, amount: u64) -> Transfer {
    Transfer {
        asset: Asset::Token,
        from: ctx.user_alt_vault,
        to: ctx.global_state.alt_vault,
        authority: ctx.authority,
        signer: Signer::Wallet,
        amount,
    }
}

/// The second half of a swap: the same `amount` of the token on sale from the treasury's
/// vault, for which the treasury signs with its stored bump, to the participant.
pub open spec fn swap_delivery(ctx: SwapToken, amount: u64) -> Transfer {
    Transfer {
        asset: Asset::Token,
        from: ctx.global_state.vault,
        to: ctx.user_vault,
        authority: ctx.global_state_key,
        signer: Signer::Program { seed: Seed::GlobalState, bump: ctx.global_state.bump },
        amount,
    }
}

/// What a swap of `amount` returns. `treasury_proven` says whether the program may sign
/// for the treasury with its stored bump.
pub open spec fn swap_token_spec(ctx: SwapToken, amount: u64, treasury_proven: bool) -> Result<
    (Transfer, Transfer),
    PreSaleError,
> {
    if !ctx.global_state.initialized() {
        Err(PreSaleError::NotInitialized)
    } else if ctx.alt_mint != ctx.global_state.alt_mint || ctx.mint != ctx.global_state.mint {
        Err(PreSaleError::InvalidToken)
    } else if !treasury_proven {
        Err(PreSaleError::NotAllowedAuthority)
    } else {
        Ok((swap_deposit(ctx, amount), swap_delivery(ctx, amount)))
    }
}

/// A participant exchanges `amount` of the secondary token for the same amount of the
/// token on sale, whatever the price.
///
/// Both tokens named must be the configured ones. The treasury's record is only read.
/// The treasury's address is derived anew from its seed and stored bump, and nothing is
/// delivered in its name unless that is the address under which the treasury is kept.
/// The caller carries out the two transfers returned, in their order.
pub fn swap_token(ctx: &SwapToken, amount: u64, program_id: &Pubkey) -> (r: Result<
    (Transfer, Transfer),
    PreSaleError,
>)
    ensures
        r == swap_token_spec(
            *ctx,
            amount,
            proven(ctx.global_state_key, Seed::GlobalState, ctx.global_state.bump, *program_id),
        ),
        r matches Ok(pair) ==> {
            &&& pair.0.amount == amount
            &&& pair.1.amount == amount
            &&& authorized(pair.0, *program_id)
            &&& authorized(pair.1, *program_id)
        },
{
    let derived = derive_authority(Seed::GlobalState, ctx.global_state.bump, program_id);
    proof {
        lemma_derived_is_proven(
            ctx.global_state_key,
            derived,
            Seed::GlobalState,
            ctx.global_state.bump,
            *program_id,
        );
    }
    swap_token_with(ctx, amount, derived)
}

/// The swap, given the address `derived` that the treasury's seed and stored bump have
/// been found to give.
pub fn swap_token_with(ctx: &SwapToken, amount: u64, derived: Option<Pubkey>) -> (r: Result<
    (Transfer, Transfer),
    PreSaleError,
>)
    ensures
        r == swap_token_spec(*ctx, amount, derived == Some(ctx.global_state_key)),
        r matches Ok(pair) ==> pair.0.amount == amount && pair.1.amount == amount,
{
    if let Err(e) = ctx.global_state.check_initialized() {
        return Err(e);
    }
    if ctx.alt_mint != ctx.global_state.alt_mint {
        return Err(PreSaleError::InvalidToken);
    }
    if ctx.mint != ctx.global_state.mint {
        return Err(PreSaleError::InvalidToken);
    }
    if !is_derived(&ctx.global_state_key, derived) {
        return Err(PreSaleError::NotAllowedAuthority);
    }
    let deposit = Transfer {
        asset: Asset::Token,
        from: ctx.user_alt_vault,
        to: ctx.global_state.alt_vault,
        authority: ctx.authority,
        signer: Signer::Wallet,
        amount,
    };
    let delivery = Transfer {
        asset: Asset::Token,
        from: ctx.global_state.vault,
        to: ctx.user_vault,
        authority: ctx.global_state_key,
        signer: Signer::Program { seed: Seed::GlobalState, bump: ctx.global_state.bump },
        amount,
    };
    Ok((deposit, delivery))
}

// ---------------------------------------------------------------------------------------
// Initialization
// ---------------------------------------------------------------------------------------
impl CreateGlobalState {
    /// Whether the caller may initialize: anyone may while the treasury is not
    /// initialized, and only its authority once it is.
    pub open spec fn validate_spec(self) -> Result<(), PreSaleError> {
        if self.global_state.initialized() && self.global_state.authority != self.authority {
            Err(PreSaleError::NotAllowedAuthority)
        } else {
            Ok(())
        }
    }

    /// Refuses an initialized treasury to everyone but its authority.
    pub fn validate(&self) -> (r: Result<(), PreSaleError>)
        ensures
            r == self.validate_spec(),
    {
        if self.global_state.is_initialized == 1 {
            if self.global_state.authority != self.authority {
                return Err(PreSaleError::NotAllowedAuthority);
            }
        }
        Ok(())
    }
}

/// The treasury as initialization writes it.
pub open spec fn created_state(ctx: CreateGlobalState, token_price: u64, token_decimal: u64)
    -> GlobalState {
    GlobalState {
        bump: ctx.bump,
        authority: ctx.authority,
        amount: 0,
        sol_vault: ctx.sol_vault,
        alt_mint: ctx.alt_mint,
        alt_vault: ctx.alt_vault,
        mint: ctx.mint,
        vault: ctx.vault,
        is_initialized: 1,
        token_price,
        token_decimal,
    }
}

/// What initialization returns: the event to emit, or the refusal.
pub open spec fn create_global_state_spec(ctx: CreateGlobalState) -> Result<
    GlobalStateCreated,
    PreSaleError,
> {
    match ctx.validate_spec() {
        Ok(_) => Ok(GlobalStateCreated { global_state: ctx.global_state_key, mint: ctx.mint }),
        Err(e) => Err(e),
    }
}

/// What initialization leaves behind: the record written anew where it is accepted, and
/// everything as it was where it is refused.
pub open spec fn create_global_state_state(
    ctx: CreateGlobalState,
    token_price: u64,
    token_decimal: u64,
) -> CreateGlobalState {
    if create_global_state_spec(ctx) is Ok {
        CreateGlobalState { global_state: created_state(ctx, token_price, token_decimal), ..ctx }
    } else {
        ctx
    }
}

/// Initializes the treasury with a price, and makes the caller its authority.
///
/// The record is written anew, with nothing collected. On a treasury that is initialized
/// already this succeeds for its authority only, who thereby stays the authority.
pub fn create_global_state(ctx: &mut CreateGlobalState, token_price: u64, token_decimal: u64) -> (r:
    Result<GlobalStateCreated, PreSaleError>)
    ensures
        r == create_global_state_spec(*old(ctx)),
        *final(ctx) == create_global_state_state(*old(ctx), token_price, token_decimal),
        r is Err ==> *final(ctx) == *old(ctx),
{
    if let Err(e) = ctx.validate() {
        return Err(e);
    }
    ctx.global_state.bump = ctx.bump;
    ctx.global_state.mint = ctx.mint;
    ctx.global_state.vault = ctx.vault;
    ctx.global_state.is_initialized = 1;
    ctx.global_state.alt_mint = ctx.alt_mint;
    ctx.global_state.alt_vault = ctx.alt_vault;
    ctx.global_state.sol_vault = ctx.sol_vault;
    ctx.global_state.authority = ctx.authority;
    ctx.global_state.token_price = token_price;
    ctx.global_state.token_decimal = token_decimal;
    ctx.global_state.amount = 0;
    Ok(GlobalStateCreated { global_state: ctx.global_state_key, mint: ctx.mint })
}

// ---------------------------------------------------------------------------------------
// Withdrawal of collected currency
// ---------------------------------------------------------------------------------------
/// The withdrawal: `amount` of currency from the treasury's currency vault, for which the
/// program signs with the vault's own seed, to the caller.
pub open spec fn claim_sol_transfer(ctx: ClaimSol, amount: u64) -> Transfer {
    Transfer {
        asset: Asset::Native,
        from: ctx.global_state.sol_vault,
        to: ctx.user,
        authority: ctx.global_state.sol_vault,
        signer: Signer::Program { seed: Seed::SolVault, bump: ctx.bump },
        amount,
    }
}

/// What a withdrawal of `amount` of currency returns. `vault_proven` says whether the
/// program may sign for the currency vault with the bump handed in.
pub open spec fn claim_sol_spec(ctx: ClaimSol, amount: u64, vault_proven: bool) -> Result<
    Transfer,
    PreSaleError,
> {
    if !ctx.global_state.initialized() {
        Err(PreSaleError::NotInitialized)
    } else if ctx.user != ctx.global_state.authority {
        Err(PreSaleError::NotAllowedAuthority)
    } else if amount > ctx.global_state.amount {
        Err(PreSaleError::ArithmeticUnderflow)
    } else if !vault_proven {
        Err(PreSaleError::NotAllowedAuthority)
    } else {
        Ok(claim_sol_transfer(ctx, amount))
    }
}

/// What a withdrawal of `amount` of currency leaves behind: the total collected less
/// `amount` where it is accepted, and everything as it was where it is refused.
pub open spec fn claim_sol_state(ctx: ClaimSol, amount: u64, vault_proven: bool) -> ClaimSol {
    if claim_sol_spec(ctx, amount, vault_proven) is Ok {
        ClaimSol {
            global_state: GlobalState {
                amount: (ctx.global_state.amount - amount) as u64,
                ..ctx.global_state
            },
            ..ctx
        }
    } else {
        ctx
    }
}

/// The authority withdraws `amount` of the currency collected.
///
/// Only the stored authority may. The total collected shrinks by `amount`, and more than
/// the total cannot be taken. The vault's address is derived anew from its seed and the
/// bump handed in, and nothing is taken in its name unless that is the treasury's
/// currency vault. The caller carries out the transfer returned.
pub fn claim_sol(ctx: &mut ClaimSol, amount: u64, program_id: &Pubkey) -> (r: Result<
    Transfer,
    PreSaleError,
>)
    ensures
        r == claim_sol_spec(
            *old(ctx),
            amount,
            proven(old(ctx).global_state.sol_vault, Seed::SolVault, old(ctx).bump, *program_id),
        ),
        *final(ctx) == claim_sol_state(
            *old(ctx),
            amount,
            proven(old(ctx).global_state.sol_vault, Seed::SolVault, old(ctx).bump, *program_id),
        ),
        r is Err ==> *final(ctx) == *old(ctx),
        r matches Ok(transfer) ==> {
            &&& final(ctx).global_state.amount == old(ctx).global_state.amount - amount
            &&& transfer.amount == amount
            &&& authorized(transfer, *program_id)
        },
        old(ctx).global_state.initialized() && old(ctx).user != old(ctx).global_state.authority
            ==> r == Err::<Transfer, PreSaleError>(PreSaleError::NotAllowedAuthority),
        old(ctx).global_state.initialized() && old(ctx).user == old(ctx).global_state.authority
            && amount > old(ctx).global_state.amount ==> r == Err::<Transfer, PreSaleError>(
            PreSaleError::ArithmeticUnderflow,
        ),
{
    let derived = derive_authority(Seed::SolVault, ctx.bump, program_id);
    proof {
        lemma_derived_is_proven(
            ctx.global_state.sol_vault,
            derived,
            Seed::SolVault,
            ctx.bump,
            *program_id,
        );
    }
    claim_sol_with(ctx, amount, derived)
}

/// The withdrawal, given the address `derived` that the vault's seed and the bump handed
/// in have been found to give.
pub fn claim_sol_with(ctx: &mut ClaimSol, amount: u64, derived: Option<Pubkey>) -> (r: Result<
    Transfer,
    PreSaleError,
>)
    ensures
        r == claim_sol_spec(*old(ctx), amount, derived == Some(old(ctx).global_state.sol_vault)),
        *final(ctx) == claim_sol_state(
            *old(ctx),
            amount,
            derived == Some(old(ctx).global_state.sol_vault),
        ),
        r is Err ==> *final(ctx) == *old(ctx),
        r is Ok ==> final(ctx).global_state.amount == old(ctx).global_state.amount - amount,
        old(ctx).global_state.initialized() && old(ctx).user != old(ctx).global_state.authority
            ==> r == Err::<Transfer, PreSaleError>(PreSaleError::NotAllowedAuthority),
        old(ctx).global_state.initialized() && old(ctx).user == old(ctx).global_state.authority
            && amount > old(ctx).global_state.amount ==> r == Err::<Transfer, PreSaleError>(
            PreSaleError::ArithmeticUnderflow,
        ),
{
    if let Err(e) = ctx.global_state.check_initialized() {
        return Err(e);
    }
    if ctx.user != ctx.global_state.authority {
        return Err(PreSaleError::NotAllowedAuthority);
    }
    let rest: u64 = match ctx.global_state.amount.checked_sub(amount) {
        Some(rest) => rest,
        None => {
            return Err(PreSaleError::ArithmeticUnderflow);
        },
    };
    if !is_derived(&ctx.global_state.sol_vault, derived) {
        return Err(PreSaleError::NotAllowedAuthority);
    }
    let transfer = Transfer {
        asset: Asset::Native,
        from: ctx.global_state.sol_vault,
        to: ctx.user,
        authority: ctx.global_state.sol_vault,
        signer: Signer::Program { seed: Seed::SolVault, bump: ctx.bump },
        amount,
    };
    ctx.global_state.amount = rest;
    Ok(transfer)
}

// ---------------------------------------------------------------------------------------
// Withdrawal of unsold tokens
// ---------------------------------------------------------------------------------------
/// The withdrawal: `amount` of the token on sale from the treasury's vault, for which the
/// treasury signs with its stored bump, to the caller's holding.
pub open spec fn claim_token_transfer(ctx: DepositToken, amount: u64) -> Transfer {
    Transfer {
        asset: Asset::Token,
        from: ctx.global_state.vault,
        to: ctx.user_vault,
        authority: ctx.global_state_key,
        signer: Signer::Program { seed: Seed::GlobalState, bump: ctx.global_state.bump },
        amount,
    }
}

/// What a withdrawal of `amount` of tokens returns. `treasury_proven` says whether the
/// program may sign for the treasury with its stored bump.
pub open spec fn claim_token_spec(ctx: DepositToken, amount: u64, treasury_proven: bool) -> Result<
    Transfer,
    PreSaleError,
> {
    if !ctx.global_state.initialized() {
        Err(PreSaleError::NotInitialized)
    } else if ctx.global_state.authority != ctx.authority {
        Err(PreSaleError::NotAllowedAuthority)
    } else if !treasury_proven {
        Err(PreSaleError::NotAllowedAuthority)
    } else {
        Ok(claim_token_transfer(ctx, amount))
    }
}

/// The authority takes `amount` of the token on sale back out of the pool.
///
/// Only the stored authority may. The treasury's record is only read. The treasury's
/// address is derived anew from its seed and stored bump, and nothing is taken in its
/// name unless that is the address under which the treasury is kept. The caller carries
/// out the transfer returned.
pub fn claim_token(ctx: &DepositToken, amount: u64, program_id: &Pubkey) -> (r: Result<
    Transfer,
    PreSaleError,
>)
    ensures
        r == claim_token_spec(
            *ctx,
            amount,
            proven(ctx.global_state_key, Seed::GlobalState, ctx.global_state.bump, *program_id),
        ),
        r matches Ok(transfer) ==> transfer.amount == amount && authorized(transfer, *program_id),
        ctx.global_state.initialized() && ctx.authority != ctx.global_state.authority ==> r
            == Err::<Transfer, PreSaleError>(PreSaleError::NotAllowedAuthority),
{
    let derived = derive_authority(Seed::GlobalState, ctx.global_state.bump, program_id);
    proof {
        lemma_derived_is_proven(
            ctx.global_state_key,
            derived,
            Seed::GlobalState,
            ctx.global_state.bump,
            *program_id,
        );
    }
    claim_token_with(ctx, amount, derived)
}

/// The withdrawal, given the address `derived` that the treasury's seed and stored bump
/// have been found to give.
pub fn claim_token_with(ctx: &DepositToken, amount: u64, derived: Option<Pubkey>) -> (r: Result<
    Transfer,
    PreSaleError,
>)
    ensures
        r == claim_token_spec(*ctx, amount, derived == Some(ctx.global_state_key)),
        ctx.global_state.initialized() && ctx.authority != ctx.global_state.authority ==> r
            == Err::<Transfer, PreSaleError>(PreSaleError::NotAllowedAuthority),
{
    if let Err(e) = ctx.global_state.check_initialized() {
        return Err(e);
    }
    if ctx.global_state.authority != ctx.authority {
        return Err(PreSaleError::NotAllowedAuthority);
    }
    if !is_derived(&ctx.global_state_key, derived) {
        return Err(PreSaleError::NotAllowedAuthority);
    }
    Ok(
        Transfer {
            asset: Asset::Token,
            from: ctx.global_state.vault,
            to: ctx.user_vault,
            authority: ctx.global_state_key,
            signer: Signer::Program { seed: Seed::GlobalState, bump: ctx.global_state.bump },
            amount,
        },
    )
}

// ---------------------------------------------------------------------------------------
// Funding the pool
// ---------------------------------------------------------------------------------------
/// The funding: `amount` of the token on sale from the caller's holding, for which the
/// caller signs, to the treasury's vault.
pub open spec fn deposit_token_transfer(ctx: DepositToken, amount: u64) -> Transfer {
    Transfer {
        asset: Asset::Token,
        from: ctx.user_vault,
        to: ctx.global_state.vault,
        authority: ctx.authority,
        signer: Signer::Wallet,
        amount,
    }
}

/// What a deposit of `amount` returns.
pub open spec fn deposit_token_spec(ctx: DepositToken, amount: u64) -> Result<
    Transfer,
    PreSaleError,
> {
    if !ctx.global_state.initialized() {
        Err(PreSaleError::NotInitialized)
    } else {
        Ok(deposit_token_transfer(ctx, amount))
    }
}

/// The caller puts `amount` of the token on sale into the pool.
///
/// Anyone may, for any amount. The treasury's record is only read. The caller carries out
/// the transfer returned.
pub fn deposit_token(ctx: &DepositToken, amount: u64) -> (r: Result<Transfer, PreSaleError>)
    ensures
        r == deposit_token_spec(*ctx, amount),
        r matches Ok(transfer) ==> transfer.amount == amount && transfer.signer == Signer::Wallet,
{
    if let Err(e) = ctx.global_state.check_initialized() {
        return Err(e);
    }
    Ok(
        Transfer {
            asset: Asset::Token,
            from: ctx.user_vault,
            to: ctx.global_state.vault,
            authority: ctx.authority,
            signer: Signer::Wallet,
            amount,
        },
    )
}

// ---------------------------------------------------------------------------------------
// Change of price
// ---------------------------------------------------------------------------------------
/// What a change of price returns: it is refused only on a treasury that is not
/// initialized.
pub open spec fn update_global_state_spec(ctx: UpdateGlobalState) -> Result<(), PreSaleError> {
    if ctx.global_state.initialized() {
        Ok(())
    } else {
        Err(PreSaleError::NotInitialized)
    }
}

/// What a change of price leaves behind: the new price and scale where it is accepted,
/// and everything as it was where it is refused.
pub open spec fn update_global_state_state(
    ctx: UpdateGlobalState,
    token_price: u64,
    token_decimal: u64,
) -> UpdateGlobalState {
    if update_global_state_spec(ctx) is Ok {
        UpdateGlobalState {
            global_state: GlobalState { token_price, token_decimal, ..ctx.global_state },
            ..ctx
        }
    } else {
        ctx
    }
}

/// Sets the price and the scale of an initialized treasury, and nothing else.
///
/// The caller's identity is not compared with the stored authority: that the caller has
/// signed is all that is asked here.
pub fn update_global_state(ctx: &mut UpdateGlobalState, token_price: u64, token_decimal: u64) -> (r:
    Result<(), PreSaleError>)
    ensures
        r == update_global_state_spec(*old(ctx)),
        *final(ctx) == update_global_state_state(*old(ctx), token_price, token_decimal),
        r is Err ==> *final(ctx) == *old(ctx),
{
    if let Err(e) = ctx.global_state.check_initialized() {
        return Err(e);
    }
    ctx.global_state.token_price = token_price;
    ctx.global_state.token_decimal = token_decimal;
    Ok(())
}

} // verus!
