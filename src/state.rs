use vstd::prelude::*;

use crate::error::TokenError;
use crate::identity::Identity;

verus! {

/// The issuance record of one mint: the cap, what has been minted so far,
/// the mint it is bound to, and who created it.
#[derive(Clone, Copy, Debug)]
pub struct TokenState {
    pub max_supply: u64,
    pub total_minted: u64,
    pub mint: Identity,
    pub admin: Identity,
}

impl TokenState {
    /// Lifetime issuance never exceeds the cap.
    pub open spec fn wf(&self) -> bool {
        self.total_minted <= self.max_supply
    }
}

/// The accounts that the creation of an issuance state names.
#[derive(Clone, Copy, Debug)]
pub struct InitializeState {
    /// The signer that pays for the state and is recorded as its admin.
    pub admin: Identity,
    /// The mint the state is bound to.
    pub mint: Identity,
}

/// A fresh issuance state: nothing minted yet.
pub open spec fn fresh_state(ctx: InitializeState, max_supply: u64) -> TokenState {
    TokenState { max_supply, total_minted: 0, mint: ctx.mint, admin: ctx.admin }
}

/// What creating a state does to its storage slot, and whether it succeeds:
/// an empty slot receives a fresh state; an occupied one is left as it was.
pub open spec fn initialize_step(
    slot: Option<TokenState>,
    ctx: InitializeState,
    max_supply: u64,
) -> (Option<TokenState>, bool) {
    match slot {
        None => (Some(fresh_state(ctx, max_supply)), true),
        Some(s) => (Some(s), false),
    }
}

/// Creates the issuance state of `ctx.mint` in `slot`, with the given cap
/// (zero included, which freezes issuance for good).
///
/// A slot that already holds a state is refused and left untouched.
pub fn initialize_state<E>(
    slot: &mut Option<TokenState>,
    ctx: &InitializeState,
    max_supply: u64,
) -> (r: Result<(), TokenError<E>>)
    ensures
        (*final(slot), r is Ok) == initialize_step(*old(slot), *ctx, max_supply),
        *old(slot) is None ==> r is Ok && *final(slot) == Some(fresh_state(*ctx, max_supply)),
        *old(slot) is Some ==> r == Err::<(), TokenError<E>>(TokenError::AccountInUse)
            && *final(slot) == *old(slot),
{
    if slot.is_some() {
        return Err(TokenError::AccountInUse);
    }
    *slot = Some(TokenState { max_supply, total_minted: 0, mint: ctx.mint, admin: ctx.admin });
    Ok(())
}

} // verus!
