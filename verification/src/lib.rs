//! Verified core of a single-asset issuance program.
//!
//! The library derives the program-controlled signing authority, validates
//! the caller-supplied account set, and sequences the three effectful steps
//! (create the metadata record, mint the single unit, lock the record) as a
//! state machine over a model of the ledger slice the operation touches.
//! The effectful calls themselves are made by an unverified shell, which
//! asks this library what step is owed next and reports each outcome.

pub mod addr;
pub mod pda;
pub mod error;
pub mod accounts;
pub mod metadata;
pub mod state;
pub mod validate;
pub mod sequence;

pub use addr::Address;
pub use accounts::MintNFT;
pub use error::IssueError;
pub use state::LedgerState;
pub use sequence::mint_nft;
pub use sequence::Phase;
pub use sequence::Step;
