//! The reasons an issuance request, or a later metadata update, is rejected.

use vstd::prelude::*;

verus! {

/// Validation and update failures. Each variant names the account or
/// parameter that failed its check; all are detected before any external
/// call executes, so a rejected request leaves no durable state change.
#[derive(Clone, Copy, Debug, PartialEq, Eq, Structural)]
pub enum IssueError {
    /// The royalty basis points exceed the 10000 (100%) ceiling.
    RoyaltyOutOfRange,
    /// The paying account did not sign the operation.
    PayerNotSigner,
    /// The mint account already exists; a mint address cannot be reused.
    AccountAlreadyInUse,
    /// The mint account is not writable.
    MintNotWritable,
    /// The supplied metadata record address is not the derived one.
    MetadataAddressMismatch,
    /// The supplied authority account is not the derived signing authority.
    AuthorityAddressMismatch,
    /// The supplied holding account is not the derived associated account.
    HoldingAddressMismatch,
    /// The supplied system program is not the canonical one.
    SystemProgramMismatch,
    /// The supplied token program is not the canonical one.
    TokenProgramMismatch,
    /// The supplied associated-account program is not the canonical one.
    AssociatedTokenProgramMismatch,
    /// The supplied metadata program is not the canonical one.
    MetadataProgramMismatch,
    /// No valid bump offset exists for a required derivation; a deployment
    /// configuration fault, not retryable with corrected inputs.
    DerivationFailure,
    /// The metadata record is locked: its mutability flag is false.
    ImmutableMetadata,
    /// The presented update signer is not the record's update authority.
    UpdateAuthorityMismatch,
}

impl IssueError {
    /// A short reason code, for reporting by unverified callers.
    pub fn code(&self) -> (r: &'static str) {
        match self {
            IssueError::RoyaltyOutOfRange => "royalty out of range",
            IssueError::PayerNotSigner => "payer is not a signer",
            IssueError::AccountAlreadyInUse => "account already in use",
            IssueError::MintNotWritable => "mint account not writable",
            IssueError::MetadataAddressMismatch => "metadata address mismatch",
            IssueError::AuthorityAddressMismatch => "authority address mismatch",
            IssueError::HoldingAddressMismatch => "holding account mismatch",
            IssueError::SystemProgramMismatch => "system program mismatch",
            IssueError::TokenProgramMismatch => "token program mismatch",
            IssueError::AssociatedTokenProgramMismatch => "associated-account program mismatch",
            IssueError::MetadataProgramMismatch => "metadata program mismatch",
            IssueError::DerivationFailure => "derivation failure",
            IssueError::ImmutableMetadata => "metadata is immutable",
            IssueError::UpdateAuthorityMismatch => "update authority mismatch",
        }
    }
}

} // verus!
