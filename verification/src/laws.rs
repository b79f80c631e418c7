use vstd::prelude::*;
use crate::accounts::{BuyToken, ClaimSol, CreateGlobalState, UpdateGlobalState};
use crate::error::PreSaleError;
use crate::instructions::{
    buy_token_spec, buy_token_state, claim_sol_spec, claim_sol_state, create_global_state_spec,
    create_global_state_state, created_state, update_global_state_spec,
    update_global_state_state,
};
use crate::state::{GlobalState, GlobalStateCreated, UserAccount};
use crate::transfer::Transfer;

verus! {

/// One operation on the treasury, with what it works on and its argument. The treasury
/// record inside the context does not count: a step runs on the treasury as the steps
/// before it have left it.
pub enum Step {
    /// A purchase for an amount of currency; the flag says whether the program could
    /// sign for the treasury when it ran.
    Buy(BuyToken, u64, bool),
    /// A withdrawal of an amount of collected currency; the flag says whether the
    /// program could sign for the currency vault when it ran.
    ClaimSol(ClaimSol, u64, bool),
    /// A change of price and scale.
    Update(UpdateGlobalState, u64, u64),
    /// An initialization with a price and a scale.
    Create(CreateGlobalState, u64, u64),
}

/// Whether `step` is accepted on the treasury `g`.
pub open spec fn step_accepted(g: GlobalState, step: Step) -> bool {
    match step {
        Step::Buy(ctx, amount, proven) => buy_token_spec(
            BuyToken { global_state: g, ..ctx },
            amount,
            proven,
        ) is Ok,
        Step::ClaimSol(ctx, amount, proven) => claim_sol_spec(
            ClaimSol { global_state: g, ..ctx },
            amount,
            proven,
        ) is Ok,
        Step::Update(ctx, _, _) => update_global_state_spec(
            UpdateGlobalState { global_state: g, ..ctx },
        ) is Ok,
        Step::Create(ctx, _, _) => create_global_state_spec(
            CreateGlobalState { global_state: g, ..ctx },
        ) is Ok,
    }
}

/// The treasury that `step` leaves behind when it runs on the treasury `g`.
pub open spec fn step_state(g: GlobalState, step: Step) -> GlobalState {
    match step {
        Step::Buy(ctx, amount, proven) => buy_token_state(
            BuyToken { global_state: g, ..ctx },
            amount,
            proven,
        ).global_state,
        Step::ClaimSol(ctx, amount, proven) => claim_sol_state(
            ClaimSol { global_state: g, ..ctx },
            amount,
            proven,
        ).global_state,
        Step::Update(ctx, token_price, token_decimal) => update_global_state_state(
            UpdateGlobalState { global_state: g, ..ctx },
            token_price,
            token_decimal,
        ).global_state,
        Step::Create(ctx, token_price, token_decimal) => create_global_state_state(
            CreateGlobalState { global_state: g, ..ctx },
            token_price,
            token_decimal,
        ).global_state,
    }
}

/// The treasury after `steps` have run in their order, starting from `g`.
pub open spec fn run(g: GlobalState, steps: Seq<Step>) -> GlobalState
    decreases steps.len(),
{
    if steps.len() == 0 {
        g
    } else {
        step_state(run(g, steps.drop_last()), steps.last())
    }
}

/// What `step` adds to the total collected when it runs on the treasury `g`: its amount
/// for an accepted purchase, less its amount for an accepted withdrawal, nothing for a
/// refused step or a change of price.
pub open spec fn collected_by(g: GlobalState, step: Step) -> int {
    match step {
        Step::Buy(_, amount, _) => if step_accepted(g, step) {
            amount as int
        } else {
            0
        },
        Step::ClaimSol(_, amount, _) => if step_accepted(g, step) {
            -(amount as int)
        } else {
            0
        },
        _ => 0,
    }
}

/// What `steps`, run in their order from `g`, add to the total collected.
pub open spec fn collected_over(g: GlobalState, steps: Seq<Step>) -> int
    decreases steps.len(),
{
    if steps.len() == 0 {
        0
    } else {
        collected_over(g, steps.drop_last()) + collected_by(
            run(g, steps.drop_last()),
            steps.last(),
        )
    }
}

/// What `step` has paid into the currency vault when it runs on the treasury `g`: its
/// amount for an accepted purchase, nothing otherwise.
pub open spec fn paid_in_by(g: GlobalState, step: Step) -> int {
    if step is Buy && step_accepted(g, step) {
        step->Buy_1 as int
    } else {
        0
    }
}

/// What `steps`, run in their order from `g`, have paid into the currency vault.
pub open spec fn paid_in_over(g: GlobalState, steps: Seq<Step>) -> int
    decreases steps.len(),
{
    if steps.len() == 0 {
        0
    } else {
        paid_in_over(g, steps.drop_last()) + paid_in_by(run(g, steps.drop_last()), steps.last())
    }
}

/// After any sequence of purchases, withdrawals and changes of price, the total
/// collected is the total at the start, plus the amounts of the purchases that were
/// accepted, less the amounts of the withdrawals that were accepted. A refused step,
/// such as a purchase that would carry the total beyond 64 bits, leaves the total as it
/// was.
pub proof fn lemma_total_collected(g: GlobalState, steps: Seq<Step>)
    requires
        forall|i: int| 0 <= i < steps.len() ==> !(#[trigger] steps[i] is Create),
    ensures
        run(g, steps).amount == g.amount + collected_over(g, steps),
    decreases steps.len(),
{
    if steps.len() > 0 {
        let before = steps.drop_last();
        assert forall|i: int| 0 <= i < before.len() implies !(#[trigger] before[i] is Create) by {
            assert(before[i] == steps[i]);
        }
        lemma_total_collected(g, before);
        assert(!(steps[steps.len() - 1] is Create));
    }
}

/// Whatever the operations, the total collected never exceeds what it was at the start
/// plus what accepted purchases have paid into the currency vault since.
pub proof fn lemma_total_within_payments(g: GlobalState, steps: Seq<Step>)
    ensures
        run(g, steps).amount <= g.amount + paid_in_over(g, steps),
        paid_in_over(g, steps) >= 0,
    decreases steps.len(),
{
    if steps.len() > 0 {
        lemma_total_within_payments(g, steps.drop_last());
    }
}

/// A purchase that would carry the total collected, or the participant's running total,
/// beyond 64 bits is refused as an overflow, and leaves the treasury and the
/// participant's record as they were.
pub proof fn lemma_overflowing_purchase_refused(ctx: BuyToken, amount: u64, proven: bool)
    requires
        ctx.global_state.initialized(),
        ctx.alt_mint == ctx.global_state.alt_mint,
        ctx.global_state.amount + amount > u64::MAX || UserAccount::opened(
            ctx.user_state,
        ).amount + amount > u64::MAX,
    ensures
        buy_token_spec(ctx, amount, proven) == Err::<(Transfer, Transfer), PreSaleError>(
            PreSaleError::ArithmeticOverflow,
        ),
        buy_token_state(ctx, amount, proven) == ctx,
{
}

/// Once the treasury is initialized, no sequence of operations changes its authority or
/// takes its initialization away.
pub proof fn lemma_authority_kept(g: GlobalState, steps: Seq<Step>)
    requires
        g.initialized(),
    ensures
        run(g, steps).initialized(),
        run(g, steps).authority == g.authority,
    decreases steps.len(),
{
    if steps.len() > 0 {
        lemma_authority_kept(g, steps.drop_last());
    }
}

/// An initialized treasury can be initialized again by its authority and by nobody else:
/// to anyone else it is refused with `NotAllowedAuthority` and left as it was, and the
/// authority, when it does so, stays the authority.
pub proof fn lemma_reinitialize(
    first: CreateGlobalState,
    token_price: u64,
    token_decimal: u64,
    again: CreateGlobalState,
    new_price: u64,
    new_decimal: u64,
)
    requires
        create_global_state_spec(first) is Ok,
        again.global_state == create_global_state_state(
            first,
            token_price,
            token_decimal,
        ).global_state,
    ensures
        again.authority != first.authority ==> create_global_state_spec(again) == Err::<
            GlobalStateCreated,
            PreSaleError,
        >(PreSaleError::NotAllowedAuthority) && create_global_state_state(
            again,
            new_price,
            new_decimal,
        ) == again,
        again.authority == first.authority ==> create_global_state_spec(again) is Ok
            && create_global_state_state(again, new_price, new_decimal).global_state
            == created_state(again, new_price, new_decimal) && create_global_state_state(
            again,
            new_price,
            new_decimal,
        ).global_state.authority == first.authority,
{
}

/// A participant's record is made by the first purchase and reused by every later one:
/// a second purchase works on the record that the first has left and changes nothing in
/// it but the running total, which after the first holds the first amount more than it
/// came with, and after the second both.
pub proof fn lemma_purchases_share_record(ctx: BuyToken, first: u64, second: u64)
    requires
        buy_token_spec(ctx, first, true) is Ok,
        buy_token_spec(buy_token_state(ctx, first, true), second, true) is Ok,
    ensures
        buy_token_state(ctx, first, true).user_state == Some(
            UserAccount {
                authority: ctx.user,
                amount: (UserAccount::opened(ctx.user_state).amount + first) as u64,
                ..UserAccount::opened(ctx.user_state)
            },
        ),
        buy_token_state(ctx, first, true).user_state->0.amount == UserAccount::opened(
            ctx.user_state,
        ).amount + first,
        buy_token_state(buy_token_state(ctx, first, true), second, true).user_state == Some(
            UserAccount {
                amount: (UserAccount::opened(ctx.user_state).amount + first + second) as u64,
                ..buy_token_state(ctx, first, true).user_state->0
            },
        ),
        buy_token_state(buy_token_state(ctx, first, true), second, true).user_state->0.amount
            == UserAccount::opened(ctx.user_state).amount + first + second,
{
}

/// The sum of `amounts`.
pub open spec fn total_of(amounts: Seq<u64>) -> int
    decreases amounts.len(),
{
    if amounts.len() == 0 {
        0
    } else {
        total_of(amounts.drop_last()) + amounts.last()
    }
}

/// What purchases of `amounts` leave behind when one participant makes them in their
/// order, each on what the one before has left, and every one is accepted; `None` where
/// one of them is refused.
pub open spec fn after_purchases(ctx: BuyToken, amounts: Seq<u64>) -> Option<BuyToken>
    decreases amounts.len(),
{
    if amounts.len() == 0 {
        Some(ctx)
    } else {
        match after_purchases(ctx, amounts.drop_last()) {
            Some(before) => if buy_token_spec(before, amounts.last(), true) is Ok {
                Some(buy_token_state(before, amounts.last(), true))
            } else {
                None
            },
            None => None,
        }
    }
}

/// After any number of accepted purchases by one participant, the running total of the
/// participant's record is what it came with plus the sum of the amounts, and so is the
/// total collected; the record is still the one record, with the participant as its
/// owner once a purchase has been made.
pub proof fn lemma_record_accumulates(ctx: BuyToken, amounts: Seq<u64>)
    requires
        after_purchases(ctx, amounts) is Some,
    ensures
        UserAccount::opened(after_purchases(ctx, amounts)->0.user_state).amount
            == UserAccount::opened(ctx.user_state).amount + total_of(amounts),
        after_purchases(ctx, amounts)->0.global_state.amount == ctx.global_state.amount
            + total_of(amounts),
        amounts.len() > 0 ==> after_purchases(ctx, amounts)->0.user_state == Some(
            UserAccount {
                authority: ctx.user,
                amount: (UserAccount::opened(ctx.user_state).amount + total_of(amounts)) as u64,
                ..UserAccount::opened(ctx.user_state)
            },
        ),
        after_purchases(ctx, amounts)->0.user == ctx.user,
    decreases amounts.len(),
{
    if amounts.len() > 0 {
        lemma_record_accumulates(ctx, amounts.drop_last());
    }
}

} // verus!
