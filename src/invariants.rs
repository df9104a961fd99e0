use vstd::prelude::*;

use crate::authority::{
    burn_plan, mint_plan, settled, transfer_plan, BurnTokens, LedgerCall, MintTokens,
    TransferTokens,
};
use crate::error::ErrorCode;
use crate::state::{initialize_step, InitializeState, TokenState};

verus! {

/// One request to the authority: the accounts it names and the amount.
#[derive(Clone, Copy, Debug)]
pub enum Request {
    Mint(MintTokens, u64),
    Transfer(TransferTokens, u64),
    Burn(BurnTokens, u64),
}

/// The authority's decision on `req` against `state`.
pub open spec fn plan(state: TokenState, req: Request) -> Result<LedgerCall, ErrorCode> {
    match req {
        Request::Mint(ctx, amount) => mint_plan(state, ctx, amount),
        Request::Transfer(ctx, amount) => transfer_plan(ctx, amount),
        Request::Burn(ctx, amount) => burn_plan(ctx, amount),
    }
}

/// The state after one whole operation: the request is checked, and when it
/// passes the ledger call is made, succeeding or not as `ledger_ok` says.
pub open spec fn operate(state: TokenState, req: Request, ledger_ok: bool) -> TokenState {
    match plan(state, req) {
        Ok(call) => if ledger_ok {
            settled(state, call)
        } else {
            state
        },
        Err(_) => state,
    }
}

/// The state after a sequence of operations, each with the ledger's answer.
pub open spec fn run(state: TokenState, ops: Seq<(Request, bool)>) -> TokenState
    decreases ops.len(),
{
    if ops.len() == 0 {
        state
    } else {
        run(operate(state, ops[0].0, ops[0].1), ops.drop_first())
    }
}

/// Lifetime issuance stays within the cap after every operation, whatever
/// the requests and however the ledger answers.
pub proof fn lemma_cap_invariant(state: TokenState, ops: Seq<(Request, bool)>)
    requires
        state.wf(),
    ensures
        run(state, ops).wf(),
    decreases ops.len(),
{
    if ops.len() > 0 {
        lemma_cap_invariant(operate(state, ops[0].0, ops[0].1), ops.drop_first());
    }
}

/// Lifetime issuance never decreases: transfers and burns leave it alone,
/// and mints only add to it.
pub proof fn lemma_total_minted_monotone(state: TokenState, ops: Seq<(Request, bool)>)
    ensures
        run(state, ops).total_minted >= state.total_minted,
    decreases ops.len(),
{
    if ops.len() > 0 {
        lemma_total_minted_monotone(operate(state, ops[0].0, ops[0].1), ops.drop_first());
    }
}

/// The amount carried by a request.
pub open spec fn amount_of(req: Request) -> u64 {
    match req {
        Request::Mint(_, amount) => amount,
        Request::Transfer(_, amount) => amount,
        Request::Burn(_, amount) => amount,
    }
}

/// A request for zero tokens, of any kind, is refused as such and changes
/// nothing.
pub proof fn lemma_zero_amount_refused(state: TokenState, req: Request, ledger_ok: bool)
    requires
        amount_of(req) == 0,
    ensures
        plan(state, req) == Err::<LedgerCall, ErrorCode>(ErrorCode::AmountMustBeGreaterThanZero),
        operate(state, req, ledger_ok) == state,
{
}

/// A mint that names another mint than the state's is refused as a
/// mismatch and leaves issuance unchanged.
pub proof fn lemma_mint_binding(state: TokenState, ctx: MintTokens, amount: u64, ledger_ok: bool)
    requires
        amount > 0,
        ctx.mint != state.mint,
    ensures
        plan(state, Request::Mint(ctx, amount)) == Err::<LedgerCall, ErrorCode>(
            ErrorCode::MintMismatch,
        ),
        operate(state, Request::Mint(ctx, amount), ledger_ok).total_minted == state.total_minted,
{
}

/// Creating the state of a mint a second time is refused, and the state the
/// first creation made is left as it was.
pub proof fn lemma_initialize_once(
    first: InitializeState,
    first_cap: u64,
    second: InitializeState,
    second_cap: u64,
)
    requires
        second.mint == first.mint,
    ensures
        ({
            let (slot1, ok1) = initialize_step(None, first, first_cap);
            let (slot2, ok2) = initialize_step(slot1, second, second_cap);
            ok1 && !ok2 && slot2 == slot1
        }),
{
}

/// A burn that the ledger carries out asks it to debit exactly the amount
/// requested, and leaves lifetime issuance unchanged.
pub proof fn lemma_burn_independent(state: TokenState, ctx: BurnTokens, amount: u64)
    requires
        burn_plan(ctx, amount) is Ok,
    ensures
        burn_plan(ctx, amount) == Ok::<LedgerCall, ErrorCode>(
            LedgerCall::Burn { mint: ctx.mint, from: ctx.from, authority: ctx.authority, amount },
        ),
        operate(state, Request::Burn(ctx, amount), true) == state,
{
}

/// When the ledger call fails, the operation leaves the state exactly as it
/// was: no part of a mint is counted.
pub proof fn lemma_failed_ledger_call(state: TokenState, req: Request)
    ensures
        operate(state, req, false) == state,
{
}

} // verus!
