//! Supply-capped token issuance: the rules that decide whether a mint,
//! transfer or burn may be forwarded to the token ledger, and the record
//! that tracks lifetime issuance against a hard cap.
pub mod authority;
pub mod error;
pub mod identity;
pub mod invariants;
pub mod state;

pub use authority::{
    burn_tokens, create_token_mint, mint_tokens, settle, transfer_tokens, BurnTokens, CreateToken,
    LedgerCall, MintTokens, NewMint, TransferTokens, MINT_DECIMALS,
};
pub use error::{ErrorCode, TokenError};
pub use identity::Identity;
pub use invariants::Request;
pub use state::{initialize_state, InitializeState, TokenState};
