//! The call sequencer: the fixed order of the effectful steps, the signing
//! proof each one carries, and the effect one whole issuance has on the
//! ledger slice.

use vstd::prelude::*;
use crate::addr::Address;
use crate::accounts::MintNFT;
use crate::accounts::MintNFTV;
use crate::error::IssueError;
use crate::metadata::RecordData;
use crate::metadata::RecordDataV;
use crate::metadata::MetadataRecordV;
use crate::metadata::UpdateArgsV;
use crate::metadata::spec_apply_update;
use crate::metadata::lemma_locked_record_rejects_updates;
use crate::metadata::new_record;
use crate::metadata::apply_update;
use crate::metadata::lock_update;
use crate::pda::spec_derived_authority;
use crate::state::LedgerState;
use crate::state::LedgerStateV;
use crate::validate::ValidatedIssuance;
use crate::validate::spec_validate;
use crate::validate::validate;

verus! {

/// Where one issuance stands. A request that fails validation moves to
/// `Rejected` before any effect; a step that fails moves to `Aborted`, and
/// the platform then voids the steps already taken, so neither terminal
/// failure leaves a durable change.
#[derive(Clone, Copy, Debug, PartialEq, Eq, Structural)]
pub enum Phase {
    /// Nothing checked yet.
    Pending,
    /// Every account check passed.
    Validated,
    /// The metadata record was written.
    MetadataCreated,
    /// The single unit sits in the holding account.
    TokenMinted,
    /// The metadata record's mutability flag is false.
    MetadataLocked,
    /// The operation completed.
    Done,
    /// Validation failed; nothing was attempted.
    Rejected,
    /// A step failed; the whole operation is voided.
    Aborted,
}

/// One effectful step, with everything its external call needs: the accounts
/// it writes, and the bump that completes the authority's signing proof
/// (seed tag plus bump; no private key exists for the authority).
#[derive(Debug)]
pub enum Step {
    /// Write the metadata record for the mint, mutable, with the authority
    /// as its update authority.
    CreateMetadata {
        metadata: Address,
        mint: Address,
        authority: Address,
        payer: Address,
        is_mutable: bool,
        authority_bump: u8,
    },
    /// Mint the units into the holding account, authorized by the authority.
    MintOne {
        mint: Address,
        holding: Address,
        authority: Address,
        amount: u64,
        authority_bump: u8,
    },
    /// Flip the record's mutability flag to false, leaving data and update
    /// authority unchanged.
    LockMetadata {
        metadata: Address,
        authority: Address,
        new_is_mutable: bool,
        authority_bump: u8,
    },
}

/// The step owed at each phase. The order is fixed: the metadata record must
/// exist before the unit is minted, and the lock is last; terminal phases
/// owe nothing.
pub fn next_step(phase: &Phase, v: &ValidatedIssuance) -> (r: Option<Step>)
    ensures
        (match phase {
            Phase::Validated => r == Some(Step::CreateMetadata {
                metadata: v.metadata,
                mint: v.mint,
                authority: v.authority,
                payer: v.payer,
                is_mutable: true,
                authority_bump: v.authority_bump,
            }),
            Phase::MetadataCreated => r == Some(Step::MintOne {
                mint: v.mint,
                holding: v.holding,
                authority: v.authority,
                amount: 1u64,
                authority_bump: v.authority_bump,
            }),
            Phase::TokenMinted => r == Some(Step::LockMetadata {
                metadata: v.metadata,
                authority: v.authority,
                new_is_mutable: false,
                authority_bump: v.authority_bump,
            }),
            _ => r is None,
        }),
{
    match phase {
        Phase::Validated => Some(Step::CreateMetadata {
            metadata: v.metadata,
            mint: v.mint,
            authority: v.authority,
            payer: v.payer,
            is_mutable: true,
            authority_bump: v.authority_bump,
        }),
        Phase::MetadataCreated => Some(Step::MintOne {
            mint: v.mint,
            holding: v.holding,
            authority: v.authority,
            amount: 1,
            authority_bump: v.authority_bump,
        }),
        Phase::TokenMinted => Some(Step::LockMetadata {
            metadata: v.metadata,
            authority: v.authority,
            new_is_mutable: false,
            authority_bump: v.authority_bump,
        }),
        _ => None,
    }
}

/// The transition each phase makes on the outcome of its pending work:
/// validation moves `Pending` to `Validated` or `Rejected`; each step moves
/// one phase forward on success and to `Aborted` on failure; the lock's
/// success completes the operation; terminal phases never move again.
pub open spec fn spec_advance(phase: Phase, ok: bool) -> Phase {
    match phase {
        Phase::Pending => (if ok { Phase::Validated } else { Phase::Rejected }),
        Phase::Validated => (if ok { Phase::MetadataCreated } else { Phase::Aborted }),
        Phase::MetadataCreated => (if ok { Phase::TokenMinted } else { Phase::Aborted }),
        Phase::TokenMinted => (if ok { Phase::MetadataLocked } else { Phase::Aborted }),
        Phase::MetadataLocked => (if ok { Phase::Done } else { Phase::Aborted }),
        Phase::Done => Phase::Done,
        Phase::Rejected => Phase::Rejected,
        Phase::Aborted => Phase::Aborted,
    }
}

/// Advance one phase on the outcome of its pending work.
pub fn advance(phase: Phase, ok: bool) -> (r: Phase)
    ensures
        r == spec_advance(phase, ok),
{
    match phase {
        Phase::Pending => (if ok { Phase::Validated } else { Phase::Rejected }),
        Phase::Validated => (if ok { Phase::MetadataCreated } else { Phase::Aborted }),
        Phase::MetadataCreated => (if ok { Phase::TokenMinted } else { Phase::Aborted }),
        Phase::TokenMinted => (if ok { Phase::MetadataLocked } else { Phase::Aborted }),
        Phase::MetadataLocked => (if ok { Phase::Done } else { Phase::Aborted }),
        Phase::Done => Phase::Done,
        Phase::Rejected => Phase::Rejected,
        Phase::Aborted => Phase::Aborted,
    }
}

/// The order of the steps is not reorderable: each phase of progress is
/// reached only from the one before it, and only on success. In particular
/// the unit is never minted before the metadata record exists, and the lock
/// comes last.
pub proof fn lemma_step_order(phase: Phase, ok: bool)
    ensures
        spec_advance(phase, ok) == Phase::Validated ==> phase == Phase::Pending && ok,
        spec_advance(phase, ok) == Phase::MetadataCreated ==> phase == Phase::Validated && ok,
        spec_advance(phase, ok) == Phase::TokenMinted ==> phase == Phase::MetadataCreated && ok,
        spec_advance(phase, ok) == Phase::MetadataLocked ==> phase == Phase::TokenMinted && ok,
        spec_advance(phase, ok) == Phase::Done ==> phase == Phase::MetadataLocked || phase == Phase::Done,
{
}

/// A failed outcome never makes progress: it lands in a terminal failure
/// phase, or stays in one.
pub proof fn lemma_failure_terminal(phase: Phase)
    ensures
        spec_advance(phase, false) == Phase::Rejected
            || spec_advance(phase, false) == Phase::Aborted
            || spec_advance(phase, false) == Phase::Done,
{
}

/// What one whole issuance yields: the first failing validation check's
/// rejection, or the post-state in which the mint exists with supply one,
/// the single unit sits in the holding account, and the metadata record
/// holds the given fields — its single creator the derived authority,
/// verified, at 100% share — locked against every further update.
pub open spec fn spec_issue(
    a: MintNFTV,
    pre: LedgerStateV,
    program_id: Seq<u8>,
    name: Seq<char>,
    symbol: Seq<char>,
    uri: Seq<char>,
    royalty: u16,
) -> Result<LedgerStateV, IssueError> {
    match spec_validate(a, pre, program_id, royalty) {
        Err(e) => Err(e),
        Ok(_) => {
            let auth = spec_derived_authority(program_id)->Some_0.0;
            Ok(LedgerStateV {
                mint_initialized: true,
                mint_supply: 1,
                metadata: Some(MetadataRecordV {
                    data: RecordDataV {
                        name: name,
                        symbol: symbol,
                        uri: uri,
                        seller_fee_basis_points: royalty,
                        creator: auth,
                        creator_verified: true,
                        creator_share: 100,
                    },
                    update_authority: auth,
                    is_mutable: false,
                }),
                holding_exists: true,
                holding_balance: 1,
            })
        },
    }
}

/// Issue the single-unit asset: validate every supplied account, then, in
/// order, create the metadata record, mint the one unit into the holding
/// account, and lock the record. Returns the new state of the ledger slice,
/// or the validation rejection — in which case the slice is untouched (the
/// caller keeps `pre`).
pub fn mint_nft(
    accounts: &MintNFT,
    pre: &LedgerState,
    program_id: &Address,
    name: String,
    symbol: String,
    uri: String,
    seller_fee_basis_points: u16,
) -> (r: Result<LedgerState, IssueError>)
    ensures
        (match r {
            Ok(post) => {
                &&& spec_issue(accounts@, pre@, program_id@, name@, symbol@, uri@, seller_fee_basis_points)
                    == Ok::<LedgerStateV, IssueError>(post@)
                &&& post@.wf()
            },
            Err(e) => spec_issue(accounts@, pre@, program_id@, name@, symbol@, uri@, seller_fee_basis_points)
                == Err::<LedgerStateV, IssueError>(e),
        }),
{
    let v = match validate(accounts, pre, program_id, seller_fee_basis_points) {
        Ok(v) => v,
        Err(e) => {
            return Err(e);
        },
    };
    let authority = v.authority;
    let data = RecordData {
        name,
        symbol,
        uri,
        seller_fee_basis_points,
        creator: authority,
        creator_verified: true,
        creator_share: 100,
    };
    let record = new_record(data, authority);
    // The lock is signed by the record's own update authority and the record
    // was just created mutable, so it cannot be rejected.
    let locked = apply_update(record, lock_update(authority)).unwrap();
    Ok(LedgerState {
        mint_initialized: true,
        mint_supply: 1,
        metadata: Some(locked),
        holding_exists: true,
        holding_balance: 1,
    })
}

/// After a successful issuance the metadata record exists and is locked:
/// every update request against it — whatever it asks and whoever signs —
/// is rejected, and the record can never become mutable again.
pub proof fn lemma_issued_record_is_locked(
    a: MintNFTV,
    pre: LedgerStateV,
    program_id: Seq<u8>,
    name: Seq<char>,
    symbol: Seq<char>,
    uri: Seq<char>,
    royalty: u16,
    post: LedgerStateV,
    u: UpdateArgsV,
)
    requires
        spec_issue(a, pre, program_id, name, symbol, uri, royalty) == Ok::<LedgerStateV, IssueError>(post),
    ensures
        post.metadata is Some,
        !post.metadata->Some_0.is_mutable,
        spec_apply_update(post.metadata->Some_0, u) is Err,
{
    lemma_locked_record_rejects_updates(post.metadata->Some_0, u);
}

/// Issuance cannot be repeated for the same mint: whatever it produced, a
/// second request against the post-state is rejected — as already in use
/// when it passes the checks ahead of the freshness check — and leaves no
/// effect of its own.
pub proof fn lemma_second_issue_rejected(
    a: MintNFTV,
    pre: LedgerStateV,
    program_id: Seq<u8>,
    name: Seq<char>,
    symbol: Seq<char>,
    uri: Seq<char>,
    royalty: u16,
    post: LedgerStateV,
    a2: MintNFTV,
    name2: Seq<char>,
    symbol2: Seq<char>,
    uri2: Seq<char>,
    royalty2: u16,
)
    requires
        spec_issue(a, pre, program_id, name, symbol, uri, royalty) == Ok::<LedgerStateV, IssueError>(post),
    ensures
        spec_issue(a2, post, program_id, name2, symbol2, uri2, royalty2) is Err,
        royalty2 <= 10000 && a2.payer_is_signer ==> spec_issue(a2, post, program_id, name2, symbol2, uri2, royalty2)
            == Err::<LedgerStateV, IssueError>(IssueError::AccountAlreadyInUse),
{
    crate::validate::lemma_reissue_rejected(a2, post, program_id, royalty2);
}

} // verus!
