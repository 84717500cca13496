use nft_minting_project::accounts::MintNFT;
use nft_minting_project::addr::{
    addr_eq, associated_token_program_id, issuer_program_id, metadata_program_id,
    system_program_id, token_program_id, Address,
};
use nft_minting_project::error::IssueError;
use nft_minting_project::metadata::{apply_update, lock_update, new_record, RecordData, UpdateArgs};
use nft_minting_project::pda::{
    authority_tag, derive_authority, derive_holding_address, derive_metadata_address, metadata_tag,
};
use nft_minting_project::sequence::{advance, mint_nft, next_step, Phase, Step};
use nft_minting_project::state::LedgerState;
use nft_minting_project::validate::validate;

fn valid_accounts() -> (MintNFT, Address) {
    let program_id = issuer_program_id();
    let payer = Address::new([1; 32]);
    let mint = Address::new([2; 32]);
    let (authority, _) = derive_authority(&program_id).unwrap();
    let (metadata, _) = derive_metadata_address(&metadata_program_id(), &mint).unwrap();
    let (holding, _) = derive_holding_address(&payer, &token_program_id(), &mint).unwrap();
    let accounts = MintNFT {
        payer,
        payer_is_signer: true,
        mint,
        mint_is_writable: true,
        metadata,
        mint_authority: authority,
        token_account: holding,
        system_program: system_program_id(),
        token_program: token_program_id(),
        associated_token_program: associated_token_program_id(),
        token_metadata_program: metadata_program_id(),
    };
    (accounts, program_id)
}

fn issue_valid(royalty: u16) -> Result<LedgerState, IssueError> {
    let (accounts, program_id) = valid_accounts();
    mint_nft(
        &accounts,
        &LedgerState::empty(),
        &program_id,
        "Art #1".to_string(),
        "ART".to_string(),
        "https://x/1.json".to_string(),
        royalty,
    )
}

#[test]
fn seed_tags_spell_their_text() {
    assert_eq!(authority_tag(), b"mint-authority".to_vec());
    assert_eq!(metadata_tag(), b"metadata".to_vec());
}

#[test]
fn canonical_ids_match_ledger_constants() {
    assert_eq!(system_program_id().bytes, anchor_lang::system_program::ID.to_bytes());
    assert_eq!(token_program_id().bytes, anchor_spl::token::ID.to_bytes());
    assert_eq!(
        associated_token_program_id().bytes,
        anchor_spl::associated_token::ID.to_bytes()
    );
    assert_eq!(metadata_program_id().bytes, anchor_spl::metadata::ID.to_bytes());
}

#[test]
fn authority_derivation_matches_ledger_sdk() {
    let program_id = issuer_program_id();
    let (addr, bump) = derive_authority(&program_id).unwrap();
    let pk = solana_pubkey::Pubkey::new_from_array(program_id.bytes);
    let (expect, expect_bump) =
        solana_pubkey::Pubkey::find_program_address(&[b"mint-authority"], &pk);
    assert_eq!(addr.bytes, expect.to_bytes());
    assert_eq!(bump, expect_bump);
    assert_ne!(addr.bytes, program_id.bytes);
}

#[test]
fn metadata_derivation_matches_ledger_sdk() {
    let mint = Address::new([2; 32]);
    let (addr, bump) = derive_metadata_address(&metadata_program_id(), &mint).unwrap();
    let program_pk = solana_pubkey::Pubkey::new_from_array(metadata_program_id().bytes);
    let mint_pk = solana_pubkey::Pubkey::new_from_array(mint.bytes);
    let (expect, expect_bump) = solana_pubkey::Pubkey::find_program_address(
        &[b"metadata", program_pk.as_ref(), mint_pk.as_ref()],
        &program_pk,
    );
    assert_eq!(addr.bytes, expect.to_bytes());
    assert_eq!(bump, expect_bump);
}

#[test]
fn holding_derivation_matches_associated_account_rule() {
    let payer = Address::new([1; 32]);
    let mint = Address::new([2; 32]);
    let (addr, _) = derive_holding_address(&payer, &token_program_id(), &mint).unwrap();
    let payer_pk = solana_pubkey::Pubkey::new_from_array(payer.bytes);
    let mint_pk = solana_pubkey::Pubkey::new_from_array(mint.bytes);
    let expect = anchor_spl::associated_token::get_associated_token_address(&payer_pk, &mint_pk);
    assert_eq!(addr.bytes, expect.to_bytes());
}

#[test]
fn derivation_is_stable() {
    let program_id = issuer_program_id();
    let first = derive_authority(&program_id).unwrap();
    let second = derive_authority(&program_id).unwrap();
    assert_eq!(first.0.bytes, second.0.bytes);
    assert_eq!(first.1, second.1);
    let mint = Address::new([2; 32]);
    let m1 = derive_metadata_address(&metadata_program_id(), &mint).unwrap();
    let m2 = derive_metadata_address(&metadata_program_id(), &mint).unwrap();
    assert_eq!(m1.0.bytes, m2.0.bytes);
    assert_eq!(m1.1, m2.1);
}

#[test]
fn issue_fresh_mint_succeeds() {
    let (accounts, program_id) = valid_accounts();
    let post = issue_valid(500).unwrap();
    assert!(post.mint_initialized);
    assert_eq!(post.mint_supply, 1);
    assert!(post.holding_exists);
    assert_eq!(post.holding_balance, 1);
    let record = post.metadata.unwrap();
    assert_eq!(record.data.name, "Art #1");
    assert_eq!(record.data.symbol, "ART");
    assert_eq!(record.data.uri, "https://x/1.json");
    assert_eq!(record.data.seller_fee_basis_points, 500);
    assert_eq!(record.data.creator.bytes, accounts.mint_authority.bytes);
    assert!(record.data.creator_verified);
    assert_eq!(record.data.creator_share, 100);
    assert_eq!(record.update_authority.bytes, accounts.mint_authority.bytes);
    assert!(!record.is_mutable);
    let _ = program_id;
}

#[test]
fn reissue_for_same_mint_rejected() {
    let (accounts, program_id) = valid_accounts();
    let post = issue_valid(500).unwrap();
    let again = mint_nft(
        &accounts,
        &post,
        &program_id,
        "Art #1".to_string(),
        "ART".to_string(),
        "https://x/1.json".to_string(),
        500,
    );
    let err = again.unwrap_err();
    assert_eq!(err, IssueError::AccountAlreadyInUse);
    assert_eq!(err.code(), "account already in use");
    // The first issuance's state stands untouched.
    assert_eq!(post.mint_supply, 1);
    assert_eq!(post.holding_balance, 1);
}

#[test]
fn forged_metadata_address_rejected() {
    let (mut accounts, program_id) = valid_accounts();
    accounts.metadata = Address::new([9; 32]);
    let r = mint_nft(
        &accounts,
        &LedgerState::empty(),
        &program_id,
        "Art #1".to_string(),
        "ART".to_string(),
        "https://x/1.json".to_string(),
        500,
    );
    assert_eq!(r.unwrap_err(), IssueError::MetadataAddressMismatch);
}

#[test]
fn royalty_out_of_range_rejected() {
    assert_eq!(issue_valid(10001).unwrap_err(), IssueError::RoyaltyOutOfRange);
    assert_eq!(issue_valid(u16::MAX).unwrap_err(), IssueError::RoyaltyOutOfRange);
    assert!(issue_valid(10000).is_ok());
    assert!(issue_valid(0).is_ok());
}

#[test]
fn locked_record_rejects_every_update() {
    let (accounts, _) = valid_accounts();
    let post = issue_valid(500).unwrap();
    let record = post.metadata.unwrap();
    let update = UpdateArgs {
        signer: accounts.mint_authority,
        new_update_authority: None,
        new_data: Some(RecordData {
            name: "Other".to_string(),
            symbol: "OTH".to_string(),
            uri: "https://x/2.json".to_string(),
            seller_fee_basis_points: 0,
            creator: accounts.payer,
            creator_verified: false,
            creator_share: 0,
        }),
        new_is_mutable: None,
    };
    assert_eq!(apply_update(record, update).unwrap_err(), IssueError::ImmutableMetadata);
}

#[test]
fn locked_flag_cannot_flip_back() {
    let (accounts, _) = valid_accounts();
    let post = issue_valid(500).unwrap();
    let record = post.metadata.unwrap();
    let unlock = UpdateArgs {
        signer: accounts.mint_authority,
        new_update_authority: None,
        new_data: None,
        new_is_mutable: Some(true),
    };
    assert_eq!(apply_update(record, unlock).unwrap_err(), IssueError::ImmutableMetadata);
}

#[test]
fn mutable_record_accepts_update_then_lock_is_final() {
    let authority = Address::new([5; 32]);
    let data = RecordData {
        name: "Art #1".to_string(),
        symbol: "ART".to_string(),
        uri: "https://x/1.json".to_string(),
        seller_fee_basis_points: 500,
        creator: authority,
        creator_verified: true,
        creator_share: 100,
    };
    let record = new_record(data, authority);
    assert!(record.is_mutable);
    let wrong_signer = UpdateArgs {
        signer: Address::new([6; 32]),
        new_update_authority: None,
        new_data: None,
        new_is_mutable: Some(false),
    };
    assert_eq!(
        apply_update(record, wrong_signer).unwrap_err(),
        IssueError::UpdateAuthorityMismatch
    );
    let data2 = RecordData {
        name: "Art #1".to_string(),
        symbol: "ART".to_string(),
        uri: "https://x/1.json".to_string(),
        seller_fee_basis_points: 500,
        creator: authority,
        creator_verified: true,
        creator_share: 100,
    };
    let record2 = new_record(data2, authority);
    let locked = apply_update(record2, lock_update(authority)).unwrap();
    assert!(!locked.is_mutable);
    let relock = apply_update(locked, lock_update(authority));
    assert_eq!(relock.unwrap_err(), IssueError::ImmutableMetadata);
}

#[test]
fn payer_must_sign() {
    let (mut accounts, program_id) = valid_accounts();
    accounts.payer_is_signer = false;
    let r = validate(&accounts, &LedgerState::empty(), &program_id, 500);
    assert_eq!(r.unwrap_err(), IssueError::PayerNotSigner);
}

#[test]
fn mint_must_be_writable() {
    let (mut accounts, program_id) = valid_accounts();
    accounts.mint_is_writable = false;
    let r = validate(&accounts, &LedgerState::empty(), &program_id, 500);
    assert_eq!(r.unwrap_err(), IssueError::MintNotWritable);
}

#[test]
fn forged_authority_rejected() {
    let (mut accounts, program_id) = valid_accounts();
    accounts.mint_authority = Address::new([9; 32]);
    let r = validate(&accounts, &LedgerState::empty(), &program_id, 500);
    assert_eq!(r.unwrap_err(), IssueError::AuthorityAddressMismatch);
}

#[test]
fn forged_holding_account_rejected() {
    let (mut accounts, program_id) = valid_accounts();
    accounts.token_account = Address::new([9; 32]);
    let r = validate(&accounts, &LedgerState::empty(), &program_id, 500);
    assert_eq!(r.unwrap_err(), IssueError::HoldingAddressMismatch);
}

#[test]
fn wrong_program_references_rejected() {
    let other = Address::new([9; 32]);
    let empty = LedgerState::empty();

    let (mut accounts, program_id) = valid_accounts();
    accounts.system_program = other;
    let r = validate(&accounts, &empty, &program_id, 500);
    assert_eq!(r.unwrap_err(), IssueError::SystemProgramMismatch);

    // Replacing the token program moves the derived holding address too, so
    // that earlier check is what rejects the request.
    let (mut accounts, program_id) = valid_accounts();
    accounts.token_program = other;
    let r = validate(&accounts, &empty, &program_id, 500);
    assert_eq!(r.unwrap_err(), IssueError::HoldingAddressMismatch);

    // With the holding account re-derived for the forged token program, the
    // program-reference check itself is what rejects.
    let (mut accounts, program_id) = valid_accounts();
    accounts.token_program = other;
    let (holding, _) = derive_holding_address(&accounts.payer, &other, &accounts.mint).unwrap();
    accounts.token_account = holding;
    let r = validate(&accounts, &empty, &program_id, 500);
    assert_eq!(r.unwrap_err(), IssueError::TokenProgramMismatch);

    let (mut accounts, program_id) = valid_accounts();
    accounts.associated_token_program = other;
    let r = validate(&accounts, &empty, &program_id, 500);
    assert_eq!(r.unwrap_err(), IssueError::AssociatedTokenProgramMismatch);

    // Replacing the metadata program moves the derived metadata address too,
    // so that earlier check is what rejects the request.
    let (mut accounts, program_id) = valid_accounts();
    accounts.token_metadata_program = other;
    let r = validate(&accounts, &empty, &program_id, 500);
    assert_eq!(r.unwrap_err(), IssueError::MetadataAddressMismatch);

    // With the metadata record re-derived for the forged metadata program,
    // the program-reference check itself is what rejects.
    let (mut accounts, program_id) = valid_accounts();
    accounts.token_metadata_program = other;
    let (metadata, _) = derive_metadata_address(&other, &accounts.mint).unwrap();
    accounts.metadata = metadata;
    let r = validate(&accounts, &empty, &program_id, 500);
    assert_eq!(r.unwrap_err(), IssueError::MetadataProgramMismatch);
}

#[test]
fn validation_hands_sequence_the_derived_addresses() {
    let (accounts, program_id) = valid_accounts();
    let v = validate(&accounts, &LedgerState::empty(), &program_id, 500).unwrap();
    assert!(addr_eq(&v.authority, &accounts.mint_authority));
    assert!(addr_eq(&v.metadata, &accounts.metadata));
    assert!(addr_eq(&v.mint, &accounts.mint));
    assert!(addr_eq(&v.holding, &accounts.token_account));
    assert!(addr_eq(&v.payer, &accounts.payer));
    let (_, bump) = derive_authority(&program_id).unwrap();
    assert_eq!(v.authority_bump, bump);
}

#[test]
fn phases_advance_in_fixed_order() {
    let p = advance(Phase::Pending, true);
    assert_eq!(p, Phase::Validated);
    let p = advance(p, true);
    assert_eq!(p, Phase::MetadataCreated);
    let p = advance(p, true);
    assert_eq!(p, Phase::TokenMinted);
    let p = advance(p, true);
    assert_eq!(p, Phase::MetadataLocked);
    let p = advance(p, true);
    assert_eq!(p, Phase::Done);
    assert_eq!(advance(Phase::Done, false), Phase::Done);
    assert_eq!(advance(Phase::Pending, false), Phase::Rejected);
    assert_eq!(advance(Phase::Validated, false), Phase::Aborted);
    assert_eq!(advance(Phase::MetadataCreated, false), Phase::Aborted);
    assert_eq!(advance(Phase::TokenMinted, false), Phase::Aborted);
    assert_eq!(advance(Phase::Rejected, true), Phase::Rejected);
    assert_eq!(advance(Phase::Aborted, true), Phase::Aborted);
}

#[test]
fn each_phase_owes_its_step() {
    let (accounts, program_id) = valid_accounts();
    let v = validate(&accounts, &LedgerState::empty(), &program_id, 500).unwrap();

    match next_step(&Phase::Validated, &v) {
        Some(Step::CreateMetadata { metadata, mint, authority, payer, is_mutable, authority_bump }) => {
            assert_eq!(metadata.bytes, v.metadata.bytes);
            assert_eq!(mint.bytes, v.mint.bytes);
            assert_eq!(authority.bytes, v.authority.bytes);
            assert_eq!(payer.bytes, v.payer.bytes);
            assert!(is_mutable);
            assert_eq!(authority_bump, v.authority_bump);
        }
        _ => panic!("the create step is owed first"),
    }
    match next_step(&Phase::MetadataCreated, &v) {
        Some(Step::MintOne { mint, holding, authority, amount, authority_bump }) => {
            assert_eq!(mint.bytes, v.mint.bytes);
            assert_eq!(holding.bytes, v.holding.bytes);
            assert_eq!(authority.bytes, v.authority.bytes);
            assert_eq!(amount, 1);
            assert_eq!(authority_bump, v.authority_bump);
        }
        _ => panic!("the mint step is owed second"),
    }
    match next_step(&Phase::TokenMinted, &v) {
        Some(Step::LockMetadata { metadata, authority, new_is_mutable, authority_bump }) => {
            assert_eq!(metadata.bytes, v.metadata.bytes);
            assert_eq!(authority.bytes, v.authority.bytes);
            assert!(!new_is_mutable);
            assert_eq!(authority_bump, v.authority_bump);
        }
        _ => panic!("the lock step is owed last"),
    }
    assert!(next_step(&Phase::Pending, &v).is_none());
    assert!(next_step(&Phase::MetadataLocked, &v).is_none());
    assert!(next_step(&Phase::Done, &v).is_none());
    assert!(next_step(&Phase::Rejected, &v).is_none());
    assert!(next_step(&Phase::Aborted, &v).is_none());
}
