//! Supply control for the MONARCA (MNCA) token.
//!
//! One mint record lives at an address derived from a fixed label and the
//! identity of the controlling program. It is created once; afterwards the
//! mint authority may increase the circulating supply and the owner of a token
//! account may decrease it. Every operation either applies in full or leaves
//! the accounts it was given untouched.
//!
//! The accounts handled here are plain snapshots of what the ledger holds; a
//! successful operation leaves them as the ledger holds them once it has
//! applied the request.

pub mod accounts;
pub mod address;
pub mod error;
pub mod supply;

pub use accounts::{
    MintAccount, MintAccountView, MintRecord, MintRecordView, Signer, TokenAccount,
    MINT_ACCOUNT_SIZE, MONARCA_DECIMALS,
};
pub use address::{derive_address, mint_address, Address, MINT_SEED, PROGRAM_ID};
pub use error::ErrorCode;
pub use supply::{burn_tokens, initialize_mint, mint_tokens, BurnTokens, InitializeMint, MintTokens};
