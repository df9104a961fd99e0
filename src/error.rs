use vstd::prelude::*;

verus! {

/// The rejections that the issuance authority itself reports.
#[derive(Clone, Copy, Debug, PartialEq, Eq, Structural)]
pub enum ErrorCode {
    /// A mint, transfer or burn was asked for zero tokens.
    AmountMustBeGreaterThanZero,
    /// The signer is not the mint's registered mint authority.
    InvalidMintAuthority,
    /// The mint named in the request is not the one the state (or the
    /// source account) is bound to.
    MintMismatch,
    /// The mint would push lifetime issuance above the cap.
    ExceedsMaxSupply,
}

/// Everything an operation can fail with: a rejection of the authority, a
/// refusal of the host to create a state that already exists, or an error of
/// the token ledger, handed back unchanged.
#[derive(Clone, Debug, PartialEq, Eq)]
pub enum TokenError<E> {
    Code(ErrorCode),
    AccountInUse,
    Ledger(E),
}

} // verus!
