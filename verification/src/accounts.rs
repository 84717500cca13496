//! The account set a caller supplies with one issuance request.

use vstd::prelude::*;
use crate::addr::Address;

verus! {

/// The caller-supplied account set, as the plain values the validator reads:
/// each account's address, and the flags the checks depend on.
pub struct MintNFT {
    /// The paying account.
    pub payer: Address,
    /// Whether the paying account signed the operation.
    pub payer_is_signer: bool,
    /// The mint to create: a fresh asset identity, chosen by the caller.
    pub mint: Address,
    /// Whether the mint account is writable.
    pub mint_is_writable: bool,
    /// The metadata record account; must match the derived address.
    pub metadata: Address,
    /// The signing authority account; must match the derived address.
    pub mint_authority: Address,
    /// The holding (associated) account for (mint, payer).
    pub token_account: Address,
    /// The system program reference.
    pub system_program: Address,
    /// The token (asset-transfer) program reference.
    pub token_program: Address,
    /// The associated-account program reference.
    pub associated_token_program: Address,
    /// The metadata program reference.
    pub token_metadata_program: Address,
}

/// The mathematical view of an account set: addresses as byte sequences.
pub ghost struct MintNFTV {
    pub payer: Seq<u8>,
    pub payer_is_signer: bool,
    pub mint: Seq<u8>,
    pub mint_is_writable: bool,
    pub metadata: Seq<u8>,
    pub mint_authority: Seq<u8>,
    pub token_account: Seq<u8>,
    pub system_program: Seq<u8>,
    pub token_program: Seq<u8>,
    pub associated_token_program: Seq<u8>,
    pub token_metadata_program: Seq<u8>,
}

impl View for MintNFT {
    type V = MintNFTV;

    open spec fn view(&self) -> MintNFTV {
        MintNFTV {
            payer: self.payer@,
            payer_is_signer: self.payer_is_signer,
            mint: self.mint@,
            mint_is_writable: self.mint_is_writable,
            metadata: self.metadata@,
            mint_authority: self.mint_authority@,
            token_account: self.token_account@,
            system_program: self.system_program@,
            token_program: self.token_program@,
            associated_token_program: self.associated_token_program@,
            token_metadata_program: self.token_metadata_program@,
        }
    }
}

} // verus!
