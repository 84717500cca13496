//! The account validator: every caller-supplied account is held against the
//! role it must play before any external call executes.

use vstd::prelude::*;
use crate::addr::Address;
use crate::addr::addr_eq;
use crate::addr::spec_system_program_id;
use crate::addr::spec_token_program_id;
use crate::addr::spec_associated_token_program_id;
use crate::addr::spec_metadata_program_id;
use crate::addr::system_program_id;
use crate::addr::token_program_id;
use crate::addr::associated_token_program_id;
use crate::addr::metadata_program_id;
use crate::accounts::MintNFT;
use crate::accounts::MintNFTV;
use crate::error::IssueError;
use crate::pda::spec_derived_authority;
use crate::pda::spec_derived_metadata;
use crate::pda::spec_derived_holding;
use crate::pda::derive_authority;
use crate::pda::derive_metadata_address;
use crate::pda::derive_holding_address;
use crate::state::LedgerState;
use crate::state::LedgerStateV;

verus! {

/// The validator's decision, checked in a fixed order: the royalty ceiling,
/// the payer's signature, freshness and writability of the mint, the three
/// derived addresses, and the four canonical program references. The first
/// failing check names the rejection; a request passes only when every check
/// holds.
pub open spec fn spec_validate(a: MintNFTV, st: LedgerStateV, program_id: Seq<u8>, royalty: u16) -> Result<(), IssueError> {
    if royalty > 10000 {
        Err(IssueError::RoyaltyOutOfRange)
    } else if !a.payer_is_signer {
        Err(IssueError::PayerNotSigner)
    } else if st.mint_initialized {
        Err(IssueError::AccountAlreadyInUse)
    } else if !a.mint_is_writable {
        Err(IssueError::MintNotWritable)
    } else {
        match spec_derived_metadata(a.token_metadata_program, a.mint) {
            None => Err(IssueError::DerivationFailure),
            Some(md) => {
                if a.metadata != md.0 {
                    Err(IssueError::MetadataAddressMismatch)
                } else {
                    match spec_derived_authority(program_id) {
                        None => Err(IssueError::DerivationFailure),
                        Some(auth) => {
                            if a.mint_authority != auth.0 {
                                Err(IssueError::AuthorityAddressMismatch)
                            } else {
                                match spec_derived_holding(a.payer, a.token_program, a.mint) {
                                    None => Err(IssueError::DerivationFailure),
                                    Some(h) => {
                                        if a.token_account != h.0 {
                                            Err(IssueError::HoldingAddressMismatch)
                                        } else if a.system_program != spec_system_program_id() {
                                            Err(IssueError::SystemProgramMismatch)
                                        } else if a.token_program != spec_token_program_id() {
                                            Err(IssueError::TokenProgramMismatch)
                                        } else if a.associated_token_program != spec_associated_token_program_id() {
                                            Err(IssueError::AssociatedTokenProgramMismatch)
                                        } else if a.token_metadata_program != spec_metadata_program_id() {
                                            Err(IssueError::MetadataProgramMismatch)
                                        } else {
                                            Ok(())
                                        }
                                    }
                                }
                            }
                        }
                    }
                }
            }
        }
    }
}

/// What a passed validation hands the call sequencer: the addresses the
/// steps write to, and the authority's address with the bump that completes
/// its signing proof.
#[derive(Debug)]
pub struct ValidatedIssuance {
    /// The derived signing authority.
    pub authority: Address,
    /// The bump offset of the signing authority's derivation.
    pub authority_bump: u8,
    /// The metadata record address (equal to the derived one).
    pub metadata: Address,
    /// The mint being issued.
    pub mint: Address,
    /// The holding account receiving the single unit.
    pub holding: Address,
    /// The paying account.
    pub payer: Address,
}

/// Check every supplied account against its role. Returns the addresses the
/// sequence needs exactly when every check passes, and the first failing
/// check's rejection otherwise; no check reads anything but the supplied
/// accounts and the pre-state of the ledger slice.
pub fn validate(accounts: &MintNFT, pre: &LedgerState, program_id: &Address, royalty: u16) -> (r: Result<ValidatedIssuance, IssueError>)
    ensures
        (match r {
            Ok(v) => {
                &&& spec_validate(accounts@, pre@, program_id@, royalty) is Ok
                &&& spec_derived_authority(program_id@) == Some((v.authority@, v.authority_bump))
                &&& v.metadata@ == accounts@.metadata
                &&& v.mint@ == accounts@.mint
                &&& v.holding@ == accounts@.token_account
                &&& v.payer@ == accounts@.payer
            },
            Err(e) => spec_validate(accounts@, pre@, program_id@, royalty) == Err::<(), IssueError>(e),
        }),
        royalty > 10000 ==> r == Err::<ValidatedIssuance, IssueError>(IssueError::RoyaltyOutOfRange),
{
    if royalty > 10000 {
        return Err(IssueError::RoyaltyOutOfRange);
    }
    if !accounts.payer_is_signer {
        return Err(IssueError::PayerNotSigner);
    }
    if pre.mint_initialized {
        return Err(IssueError::AccountAlreadyInUse);
    }
    if !accounts.mint_is_writable {
        return Err(IssueError::MintNotWritable);
    }
    let md = match derive_metadata_address(&accounts.token_metadata_program, &accounts.mint) {
        Some(p) => p,
        None => {
            return Err(IssueError::DerivationFailure);
        },
    };
    if !addr_eq(&accounts.metadata, &md.0) {
        return Err(IssueError::MetadataAddressMismatch);
    }
    let auth = match derive_authority(program_id) {
        Some(p) => p,
        None => {
            return Err(IssueError::DerivationFailure);
        },
    };
    if !addr_eq(&accounts.mint_authority, &auth.0) {
        return Err(IssueError::AuthorityAddressMismatch);
    }
    let h = match derive_holding_address(&accounts.payer, &accounts.token_program, &accounts.mint) {
        Some(p) => p,
        None => {
            return Err(IssueError::DerivationFailure);
        },
    };
    if !addr_eq(&accounts.token_account, &h.0) {
        return Err(IssueError::HoldingAddressMismatch);
    }
    if !addr_eq(&accounts.system_program, &system_program_id()) {
        return Err(IssueError::SystemProgramMismatch);
    }
    if !addr_eq(&accounts.token_program, &token_program_id()) {
        return Err(IssueError::TokenProgramMismatch);
    }
    if !addr_eq(&accounts.associated_token_program, &associated_token_program_id()) {
        return Err(IssueError::AssociatedTokenProgramMismatch);
    }
    if !addr_eq(&accounts.token_metadata_program, &metadata_program_id()) {
        return Err(IssueError::MetadataProgramMismatch);
    }
    Ok(ValidatedIssuance {
        authority: auth.0,
        authority_bump: auth.1,
        metadata: md.0,
        mint: accounts.mint,
        holding: h.0,
        payer: accounts.payer,
    })
}

/// Validation pins the derived addresses: any two account sets that pass for
/// the same program, mint and metadata program hold the same metadata record
/// address and the same signing authority. Re-derivation is stable: the
/// addresses are a pure function of the seeds and owning program alone.
pub proof fn lemma_validation_pins_addresses(
    a1: MintNFTV,
    a2: MintNFTV,
    st1: LedgerStateV,
    st2: LedgerStateV,
    program_id: Seq<u8>,
    r1: u16,
    r2: u16,
)
    requires
        spec_validate(a1, st1, program_id, r1) is Ok,
        spec_validate(a2, st2, program_id, r2) is Ok,
        a1.mint == a2.mint,
        a1.token_metadata_program == a2.token_metadata_program,
    ensures
        a1.metadata == a2.metadata,
        a1.mint_authority == a2.mint_authority,
{
}

/// A successful issuance cannot be repeated for the same mint: against any
/// ledger state whose mint account exists, every request that passes the
/// checks ahead of the freshness check is rejected as already in use, and
/// no request at all is accepted.
pub proof fn lemma_reissue_rejected(a: MintNFTV, st: LedgerStateV, program_id: Seq<u8>, royalty: u16)
    requires
        st.mint_initialized,
    ensures
        spec_validate(a, st, program_id, royalty) is Err,
        royalty <= 10000 && a.payer_is_signer ==> spec_validate(a, st, program_id, royalty)
            == Err::<(), IssueError>(IssueError::AccountAlreadyInUse),
{
}

} // verus!
