use vstd::prelude::*;

use crate::error::{ErrorCode, TokenError};
use crate::identity::Identity;
use crate::state::TokenState;

verus! {

/// Decimal places of every mint this program creates.
pub const MINT_DECIMALS: u8 = 9;

/// The accounts that the creation of a new mint names.
#[derive(Clone, Copy, Debug)]
pub struct CreateToken {
    /// The new mint.
    pub mint: Identity,
    /// The holding account of `authority` for the new mint.
    pub token_account: Identity,
    /// The signer that pays and becomes the mint authority.
    pub authority: Identity,
}

/// How the host is to set up a new mint and its first holding account.
#[derive(Clone, Copy, Debug)]
pub struct NewMint {
    pub mint: Identity,
    pub decimals: u8,
    pub mint_authority: Identity,
    pub token_account: Identity,
    pub token_account_owner: Identity,
}

/// The accounts that a mint request names.
#[derive(Clone, Copy, Debug)]
pub struct MintTokens {
    /// The mint to issue.
    pub mint: Identity,
    /// The mint authority that the ledger has on record for `mint`, if any.
    pub registered_authority: Option<Identity>,
    /// The account to credit.
    pub destination_ata: Identity,
    /// The signer of the request.
    pub mint_authority: Identity,
}

/// The accounts that a transfer request names.
#[derive(Clone, Copy, Debug)]
pub struct TransferTokens {
    pub from: Identity,
    pub to: Identity,
    /// The signer that owns `from`.
    pub authority: Identity,
}

/// The accounts that a burn request names.
#[derive(Clone, Copy, Debug)]
pub struct BurnTokens {
    /// The mint whose tokens are burnt.
    pub mint: Identity,
    /// The account to debit.
    pub from: Identity,
    /// The mint that `from` holds tokens of.
    pub from_mint: Identity,
    /// The signer that owns `from`.
    pub authority: Identity,
}

/// An instruction for the token ledger, issued once a request passed every
/// check of the authority.
#[derive(Clone, Copy, Debug)]
pub enum LedgerCall {
    MintTo { mint: Identity, to: Identity, authority: Identity, amount: u64 },
    Transfer { from: Identity, to: Identity, authority: Identity, amount: u64 },
    Burn { mint: Identity, from: Identity, authority: Identity, amount: u64 },
}

/// The decision on a mint request, checks in order, first failure wins.
pub open spec fn mint_plan(state: TokenState, ctx: MintTokens, amount: u64) -> Result<
    LedgerCall,
    ErrorCode,
> {
    if amount == 0 {
        Err(ErrorCode::AmountMustBeGreaterThanZero)
    } else if ctx.mint != state.mint {
        Err(ErrorCode::MintMismatch)
    } else if state.total_minted + amount > state.max_supply {
        Err(ErrorCode::ExceedsMaxSupply)
    } else if ctx.registered_authority != Some(ctx.mint_authority) {
        Err(ErrorCode::InvalidMintAuthority)
    } else {
        Ok(
            LedgerCall::MintTo {
                mint: ctx.mint,
                to: ctx.destination_ata,
                authority: ctx.mint_authority,
                amount,
            },
        )
    }
}

/// The decision on a transfer request.
pub open spec fn transfer_plan(ctx: TransferTokens, amount: u64) -> Result<LedgerCall, ErrorCode> {
    if amount == 0 {
        Err(ErrorCode::AmountMustBeGreaterThanZero)
    } else {
        Ok(LedgerCall::Transfer { from: ctx.from, to: ctx.to, authority: ctx.authority, amount })
    }
}

/// The decision on a burn request.
pub open spec fn burn_plan(ctx: BurnTokens, amount: u64) -> Result<LedgerCall, ErrorCode> {
    if amount == 0 {
        Err(ErrorCode::AmountMustBeGreaterThanZero)
    } else if ctx.from_mint != ctx.mint {
        Err(ErrorCode::MintMismatch)
    } else {
        Ok(LedgerCall::Burn { mint: ctx.mint, from: ctx.from, authority: ctx.authority, amount })
    }
}

/// A ledger call may be settled against `state`: a mint keeps issuance
/// within the cap.
pub open spec fn admissible(state: TokenState, call: LedgerCall) -> bool {
    match call {
        LedgerCall::MintTo { amount, .. } => state.total_minted + amount <= state.max_supply,
        _ => true,
    }
}

/// The state once the ledger has carried out `call`: a mint adds to
/// lifetime issuance; transfers and burns leave it as it is.
pub open spec fn settled(state: TokenState, call: LedgerCall) -> TokenState {
    match call {
        LedgerCall::MintTo { amount, .. } => TokenState {
            total_minted: (state.total_minted + amount) as u64,
            ..state
        },
        _ => state,
    }
}

/// Sets up a new mint: nine decimals, the paying signer as mint authority,
/// and a holding account of that signer. No issuance state is created here.
pub fn create_token_mint(ctx: &CreateToken) -> (r: NewMint)
    ensures
        r.mint == ctx.mint,
        r.decimals == MINT_DECIMALS,
        r.mint_authority == ctx.authority,
        r.token_account == ctx.token_account,
        r.token_account_owner == ctx.authority,
{
    NewMint {
        mint: ctx.mint,
        decimals: MINT_DECIMALS,
        mint_authority: ctx.authority,
        token_account: ctx.token_account,
        token_account_owner: ctx.authority,
    }
}

/// Checks a request to mint `amount` tokens against `state` and, when it
/// passes, returns the mint-to instruction for the ledger. The state is only
/// read: it changes once the ledger has carried the call out (see `settle`).
pub fn mint_tokens(state: &TokenState, ctx: &MintTokens, amount: u64) -> (r: Result<
    LedgerCall,
    ErrorCode,
>)
    ensures
        r == mint_plan(*state, *ctx, amount),
        amount == 0 ==> r == Err::<LedgerCall, ErrorCode>(ErrorCode::AmountMustBeGreaterThanZero),
        amount != 0 && ctx.mint != state.mint ==> r == Err::<LedgerCall, ErrorCode>(
            ErrorCode::MintMismatch,
        ),
        r matches Ok(call) ==> admissible(*state, call),
{
    if amount == 0 {
        return Err(ErrorCode::AmountMustBeGreaterThanZero);
    }
    if ctx.mint != state.mint {
        return Err(ErrorCode::MintMismatch);
    }
    if amount > state.max_supply || state.total_minted > state.max_supply - amount {
        return Err(ErrorCode::ExceedsMaxSupply);
    }
    let authorised = match ctx.registered_authority {
        Some(a) => a == ctx.mint_authority,
        None => false,
    };
    if !authorised {
        return Err(ErrorCode::InvalidMintAuthority);
    }
    Ok(
        LedgerCall::MintTo {
            mint: ctx.mint,
            to: ctx.destination_ata,
            authority: ctx.mint_authority,
            amount,
        },
    )
}

/// Checks a request to move `amount` tokens between two accounts and, when
/// it passes, returns the transfer instruction for the ledger.
pub fn transfer_tokens(ctx: &TransferTokens, amount: u64) -> (r: Result<LedgerCall, ErrorCode>)
    ensures
        r == transfer_plan(*ctx, amount),
        amount == 0 ==> r == Err::<LedgerCall, ErrorCode>(ErrorCode::AmountMustBeGreaterThanZero),
{
    if amount == 0 {
        return Err(ErrorCode::AmountMustBeGreaterThanZero);
    }
    Ok(LedgerCall::Transfer { from: ctx.from, to: ctx.to, authority: ctx.authority, amount })
}

/// Checks a request to burn `amount` tokens from an account and, when it
/// passes, returns the burn instruction for the ledger.
pub fn burn_tokens(ctx: &BurnTokens, amount: u64) -> (r: Result<LedgerCall, ErrorCode>)
    ensures
        r == burn_plan(*ctx, amount),
        amount == 0 ==> r == Err::<LedgerCall, ErrorCode>(ErrorCode::AmountMustBeGreaterThanZero),
{
    if amount == 0 {
        return Err(ErrorCode::AmountMustBeGreaterThanZero);
    }
    if ctx.from_mint != ctx.mint {
        return Err(ErrorCode::MintMismatch);
    }
    Ok(LedgerCall::Burn { mint: ctx.mint, from: ctx.from, authority: ctx.authority, amount })
}

/// Records the ledger's answer to `call`. Only a mint that the ledger
/// carried out counts towards issuance; a failed call leaves the state as it
/// was and its error is handed back unchanged.
pub fn settle<E>(state: &mut TokenState, call: &LedgerCall, outcome: Result<(), E>) -> (r: Result<
    (),
    TokenError<E>,
>)
    requires
        old(state).wf(),
        admissible(*old(state), *call),
    ensures
        final(state).wf(),
        final(state).total_minted >= old(state).total_minted,
        outcome is Ok ==> r is Ok && *final(state) == settled(*old(state), *call),
        outcome matches Err(e) ==> r == Err::<(), TokenError<E>>(TokenError::Ledger(e))
            && *final(state) == *old(state),
        !(call is MintTo) ==> *final(state) == *old(state),
{
    match outcome {
        Err(e) => Err(TokenError::Ledger(e)),
        Ok(()) => {
            if let LedgerCall::MintTo { amount, .. } = call {
                state.total_minted = state.total_minted + *amount;
            }
            Ok(())
        },
    }
}

} // verus!
