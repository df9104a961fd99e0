use tokens::{
    burn_tokens, create_token_mint, initialize_state, mint_tokens, settle, transfer_tokens,
    BurnTokens, CreateToken, ErrorCode, Identity, InitializeState, LedgerCall, MintTokens,
    TokenError, TokenState, TransferTokens, MINT_DECIMALS,
};

fn key(b: u8) -> Identity {
    Identity::new([b; 32])
}

fn state(max_supply: u64, total_minted: u64) -> TokenState {
    TokenState { max_supply, total_minted, mint: key(1), admin: key(2) }
}

fn mint_ctx() -> MintTokens {
    MintTokens {
        mint: key(1),
        registered_authority: Some(key(3)),
        destination_ata: key(4),
        mint_authority: key(3),
    }
}

/// Runs a whole mint: check, ledger answer, settlement.
fn mint(st: &mut TokenState, ctx: &MintTokens, amount: u64, ledger: Result<(), String>) -> Result<(), TokenError<String>> {
    let call = mint_tokens(st, ctx, amount).map_err(TokenError::Code)?;
    settle(st, &call, ledger)
}

#[test]
fn identity_equality_is_bytewise() {
    let mut b = [7u8; 32];
    assert!(Identity::new(b) == Identity::new(b));
    b[31] = 8;
    assert!(Identity::new(b) != Identity::new([7u8; 32]));
    assert!(!Identity::new(b).same_as(&Identity::new([7u8; 32])));
    assert_eq!(Identity::new(b).to_bytes(), b);
}

#[test]
fn initialize_state_sets_fields() {
    let mut slot = None;
    let ctx = InitializeState { admin: key(2), mint: key(1) };
    let r: Result<(), TokenError<String>> = initialize_state(&mut slot, &ctx, 1000);
    assert_eq!(r, Ok(()));
    let s = slot.unwrap();
    assert_eq!(s.max_supply, 1000);
    assert_eq!(s.total_minted, 0);
    assert!(s.mint == key(1));
    assert!(s.admin == key(2));
}

#[test]
fn initialize_state_twice_is_refused() {
    let mut slot = None;
    let first = InitializeState { admin: key(2), mint: key(1) };
    let second = InitializeState { admin: key(9), mint: key(1) };
    let r1: Result<(), TokenError<String>> = initialize_state(&mut slot, &first, 50);
    assert_eq!(r1, Ok(()));
    let r2: Result<(), TokenError<String>> = initialize_state(&mut slot, &second, 70);
    assert_eq!(r2, Err(TokenError::AccountInUse));
    let s = slot.unwrap();
    assert_eq!(s.max_supply, 50);
    assert!(s.admin == key(2));
}

#[test]
fn zero_cap_freezes_issuance() {
    let mut slot = None;
    let ctx = InitializeState { admin: key(2), mint: key(1) };
    let r: Result<(), TokenError<String>> = initialize_state(&mut slot, &ctx, 0);
    assert_eq!(r, Ok(()));
    let st = slot.unwrap();
    assert_eq!(mint_tokens(&st, &mint_ctx(), 1).unwrap_err(), ErrorCode::ExceedsMaxSupply);
}

#[test]
fn create_token_mint_policy() {
    let ctx = CreateToken { mint: key(1), token_account: key(5), authority: key(3) };
    let m = create_token_mint(&ctx);
    assert_eq!(m.decimals, 9);
    assert_eq!(MINT_DECIMALS, 9);
    assert!(m.mint == key(1));
    assert!(m.mint_authority == key(3));
    assert!(m.token_account == key(5));
    assert!(m.token_account_owner == key(3));
}

#[test]
fn cap_boundary() {
    let mut st = state(100, 90);
    assert_eq!(mint(&mut st, &mint_ctx(), 10, Ok(())), Ok(()));
    assert_eq!(st.total_minted, 100);
    assert_eq!(
        mint(&mut st, &mint_ctx(), 1, Ok(())),
        Err(TokenError::Code(ErrorCode::ExceedsMaxSupply))
    );
    assert_eq!(st.total_minted, 100);
}

#[test]
fn mint_produces_ledger_call() {
    let st = state(100, 0);
    match mint_tokens(&st, &mint_ctx(), 25).unwrap() {
        LedgerCall::MintTo { mint, to, authority, amount } => {
            assert!(mint == key(1));
            assert!(to == key(4));
            assert!(authority == key(3));
            assert_eq!(amount, 25);
        }
        other => panic!("unexpected call {:?}", other),
    }
}

#[test]
fn zero_amount_rejected_everywhere() {
    let mut st = state(100, 10);
    assert_eq!(
        mint(&mut st, &mint_ctx(), 0, Ok(())),
        Err(TokenError::Code(ErrorCode::AmountMustBeGreaterThanZero))
    );
    assert_eq!(st.total_minted, 10);
    let t = TransferTokens { from: key(4), to: key(5), authority: key(3) };
    assert_eq!(transfer_tokens(&t, 0).unwrap_err(), ErrorCode::AmountMustBeGreaterThanZero);
    let b = BurnTokens { mint: key(1), from: key(4), from_mint: key(1), authority: key(3) };
    assert_eq!(burn_tokens(&b, 0).unwrap_err(), ErrorCode::AmountMustBeGreaterThanZero);
}

#[test]
fn mint_mismatch_leaves_state() {
    let mut st = state(100, 10);
    let mut ctx = mint_ctx();
    ctx.mint = key(6);
    ctx.registered_authority = Some(key(3));
    assert_eq!(mint(&mut st, &ctx, 5, Ok(())), Err(TokenError::Code(ErrorCode::MintMismatch)));
    assert_eq!(st.total_minted, 10);
}

#[test]
fn zero_amount_checked_before_mint_binding() {
    let st = state(100, 10);
    let mut ctx = mint_ctx();
    ctx.mint = key(6);
    assert_eq!(mint_tokens(&st, &ctx, 0).unwrap_err(), ErrorCode::AmountMustBeGreaterThanZero);
}

#[test]
fn invalid_mint_authority() {
    let st = state(100, 10);
    let mut ctx = mint_ctx();
    ctx.mint_authority = key(8);
    assert_eq!(mint_tokens(&st, &ctx, 5).unwrap_err(), ErrorCode::InvalidMintAuthority);
    ctx.registered_authority = None;
    ctx.mint_authority = key(3);
    assert_eq!(mint_tokens(&st, &ctx, 5).unwrap_err(), ErrorCode::InvalidMintAuthority);
}

#[test]
fn cap_checked_before_authority() {
    let st = state(100, 99);
    let mut ctx = mint_ctx();
    ctx.mint_authority = key(8);
    assert_eq!(mint_tokens(&st, &ctx, 2).unwrap_err(), ErrorCode::ExceedsMaxSupply);
}

#[test]
fn exceeds_max_supply_without_overflow() {
    let st = TokenState { max_supply: u64::MAX, total_minted: u64::MAX - 1, mint: key(1), admin: key(2) };
    assert_eq!(mint_tokens(&st, &mint_ctx(), 2).unwrap_err(), ErrorCode::ExceedsMaxSupply);
    assert!(mint_tokens(&st, &mint_ctx(), 1).is_ok());
    let st = state(10, 0);
    assert_eq!(mint_tokens(&st, &mint_ctx(), u64::MAX).unwrap_err(), ErrorCode::ExceedsMaxSupply);
}

#[test]
fn failed_ledger_call_leaves_total() {
    let mut st = state(100, 40);
    let r = mint(&mut st, &mint_ctx(), 30, Err("insufficient funds".to_string()));
    assert_eq!(r, Err(TokenError::Ledger("insufficient funds".to_string())));
    assert_eq!(st.total_minted, 40);
}

#[test]
fn burn_does_not_change_total() {
    let mut st = state(100, 40);
    let b = BurnTokens { mint: key(1), from: key(4), from_mint: key(1), authority: key(3) };
    let call = burn_tokens(&b, 15).unwrap();
    match call {
        LedgerCall::Burn { amount, .. } => assert_eq!(amount, 15),
        other => panic!("unexpected call {:?}", other),
    }
    let r: Result<(), TokenError<String>> = settle(&mut st, &call, Ok(()));
    assert_eq!(r, Ok(()));
    assert_eq!(st.total_minted, 40);
}

#[test]
fn burn_mint_mismatch() {
    let b = BurnTokens { mint: key(1), from: key(4), from_mint: key(6), authority: key(3) };
    assert_eq!(burn_tokens(&b, 5).unwrap_err(), ErrorCode::MintMismatch);
}

#[test]
fn transfer_does_not_change_total() {
    let mut st = state(100, 40);
    let t = TransferTokens { from: key(4), to: key(5), authority: key(3) };
    let call = transfer_tokens(&t, 7).unwrap();
    match call {
        LedgerCall::Transfer { from, to, authority, amount } => {
            assert!(from == key(4) && to == key(5) && authority == key(3));
            assert_eq!(amount, 7);
        }
        other => panic!("unexpected call {:?}", other),
    }
    let r: Result<(), TokenError<String>> = settle(&mut st, &call, Ok(()));
    assert_eq!(r, Ok(()));
    assert_eq!(st.total_minted, 40);
}

#[test]
fn total_stays_within_cap_over_many_mints() {
    let mut st = state(50, 0);
    let mut last = 0;
    for amount in [7u64, 20, 0, 30, 23, 1, 5] {
        let _ = mint(&mut st, &mint_ctx(), amount, Ok(()));
        assert!(st.total_minted <= st.max_supply);
        assert!(st.total_minted >= last);
        last = st.total_minted;
    }
    assert_eq!(st.total_minted, 50);
}
