//! The metadata record bound to a mint, and the update rule that makes a
//! locked record permanent.

use vstd::prelude::*;
use crate::addr::Address;
use crate::error::IssueError;

verus! {

/// The descriptive payload of a metadata record.
#[derive(Debug)]
pub struct RecordData {
    /// Display name of the asset.
    pub name: String,
    /// Short symbol of the asset.
    pub symbol: String,
    /// URI of the external asset data.
    pub uri: String,
    /// Royalty in basis points, at most 10000.
    pub seller_fee_basis_points: u16,
    /// The single creator's address.
    pub creator: Address,
    /// Whether the creator is marked verified.
    pub creator_verified: bool,
    /// The creator's share of royalties, in percent.
    pub creator_share: u8,
}

/// The mathematical view of a record's payload.
pub ghost struct RecordDataV {
    pub name: Seq<char>,
    pub symbol: Seq<char>,
    pub uri: Seq<char>,
    pub seller_fee_basis_points: u16,
    pub creator: Seq<u8>,
    pub creator_verified: bool,
    pub creator_share: u8,
}

impl View for RecordData {
    type V = RecordDataV;

    open spec fn view(&self) -> RecordDataV {
        RecordDataV {
            name: self.name@,
            symbol: self.symbol@,
            uri: self.uri@,
            seller_fee_basis_points: self.seller_fee_basis_points,
            creator: self.creator@,
            creator_verified: self.creator_verified,
            creator_share: self.creator_share,
        }
    }
}

/// A metadata record: payload, update authority, and the mutability flag
/// that, once false, locks the record forever.
#[derive(Debug)]
pub struct MetadataRecord {
    pub data: RecordData,
    pub update_authority: Address,
    pub is_mutable: bool,
}

/// The mathematical view of a metadata record.
pub ghost struct MetadataRecordV {
    pub data: RecordDataV,
    pub update_authority: Seq<u8>,
    pub is_mutable: bool,
}

impl View for MetadataRecord {
    type V = MetadataRecordV;

    open spec fn view(&self) -> MetadataRecordV {
        MetadataRecordV {
            data: self.data@,
            update_authority: self.update_authority@,
            is_mutable: self.is_mutable,
        }
    }
}

/// One requested change to a metadata record.
#[derive(Debug)]
pub struct UpdateArgs {
    /// The authority presented as signer of the update.
    pub signer: Address,
    /// A new update authority, if any.
    pub new_update_authority: Option<Address>,
    /// A replacement payload, if any.
    pub new_data: Option<RecordData>,
    /// A new value for the mutability flag, if any.
    pub new_is_mutable: Option<bool>,
}

/// The mathematical view of an update request.
pub ghost struct UpdateArgsV {
    pub signer: Seq<u8>,
    pub new_update_authority: Option<Seq<u8>>,
    pub new_data: Option<RecordDataV>,
    pub new_is_mutable: Option<bool>,
}

impl View for UpdateArgs {
    type V = UpdateArgsV;

    open spec fn view(&self) -> UpdateArgsV {
        UpdateArgsV {
            signer: self.signer@,
            new_update_authority: (match self.new_update_authority {
                Some(a) => Some(a@),
                None => None,
            }),
            new_data: (match self.new_data {
                Some(ref d) => Some(d@),
                None => None,
            }),
            new_is_mutable: self.new_is_mutable,
        }
    }
}

/// What applying an update to a record yields: a rejection when the signer
/// is wrong or the record is locked, otherwise the record with the requested
/// fields replaced. The mutability flag can move from true to false, never
/// back: a locked record accepts no update at all.
pub open spec fn spec_apply_update(m: MetadataRecordV, u: UpdateArgsV) -> Result<MetadataRecordV, IssueError> {
    if u.signer != m.update_authority {
        Err(IssueError::UpdateAuthorityMismatch)
    } else if !m.is_mutable {
        Err(IssueError::ImmutableMetadata)
    } else {
        Ok(MetadataRecordV {
            data: (match u.new_data {
                Some(d) => d,
                None => m.data,
            }),
            update_authority: (match u.new_update_authority {
                Some(a) => a,
                None => m.update_authority,
            }),
            is_mutable: (match u.new_is_mutable {
                Some(b) => b && m.is_mutable,
                None => m.is_mutable,
            }),
        })
    }
}

/// A freshly created record: the given payload, mutable, owned by the given
/// update authority.
pub open spec fn spec_new_record(data: RecordDataV, update_authority: Seq<u8>) -> MetadataRecordV {
    MetadataRecordV {
        data: data,
        update_authority: update_authority,
        is_mutable: true,
    }
}

/// Create a metadata record, as the create step of the sequence writes it.
pub fn new_record(data: RecordData, update_authority: Address) -> (r: MetadataRecord)
    ensures
        r@ == spec_new_record(data@, update_authority@),
{
    MetadataRecord {
        data: data,
        update_authority: update_authority,
        is_mutable: true,
    }
}

/// Apply one update request to a record.
pub fn apply_update(m: MetadataRecord, u: UpdateArgs) -> (r: Result<MetadataRecord, IssueError>)
    ensures
        (match r {
            Ok(m2) => spec_apply_update(m@, u@) == Ok::<MetadataRecordV, IssueError>(m2@),
            Err(e) => spec_apply_update(m@, u@) == Err::<MetadataRecordV, IssueError>(e),
        }),
{
    if !crate::addr::addr_eq(&u.signer, &m.update_authority) {
        return Err(IssueError::UpdateAuthorityMismatch);
    }
    if !m.is_mutable {
        return Err(IssueError::ImmutableMetadata);
    }
    let data = match u.new_data {
        Some(d) => d,
        None => m.data,
    };
    let update_authority = match u.new_update_authority {
        Some(a) => a,
        None => m.update_authority,
    };
    let is_mutable = match u.new_is_mutable {
        Some(b) => b && m.is_mutable,
        None => m.is_mutable,
    };
    Ok(MetadataRecord { data, update_authority, is_mutable })
}

/// The update that locks a record: data and authority unchanged, mutability
/// flag set to false, signed by the record's update authority.
pub fn lock_update(authority: Address) -> (r: UpdateArgs)
    ensures
        r@ == (UpdateArgsV {
            signer: authority@,
            new_update_authority: None,
            new_data: None,
            new_is_mutable: Some(false),
        }),
{
    UpdateArgs {
        signer: authority,
        new_update_authority: None,
        new_data: None,
        new_is_mutable: Some(false),
    }
}

/// A locked record rejects every update: whatever change is requested and
/// whoever signs it, a record whose mutability flag is false yields an
/// error, never a changed record.
pub proof fn lemma_locked_record_rejects_updates(m: MetadataRecordV, u: UpdateArgsV)
    requires
        !m.is_mutable,
    ensures
        spec_apply_update(m, u) is Err,
{
}

/// The mutability flag never flips back: if an update succeeds and its
/// result is mutable, the record it started from was mutable too.
pub proof fn lemma_lock_is_permanent(m: MetadataRecordV, u: UpdateArgsV, m2: MetadataRecordV)
    requires
        spec_apply_update(m, u) == Ok::<MetadataRecordV, IssueError>(m2),
        m2.is_mutable,
    ensures
        m.is_mutable,
{
}

/// The result of applying a whole sequence of update requests in order,
/// where a rejected request leaves the record as it was.
pub open spec fn spec_apply_all(m: MetadataRecordV, us: Seq<UpdateArgsV>) -> MetadataRecordV
    decreases us.len(),
{
    if us.len() == 0 {
        m
    } else {
        let next = (match spec_apply_update(m, us[0]) {
            Ok(m2) => m2,
            Err(_) => m,
        });
        spec_apply_all(next, us.skip(1))
    }
}

/// A locked record stays exactly as it is under any sequence of update
/// requests: each one is rejected, so nothing about the record ever changes
/// again.
pub proof fn lemma_locked_record_is_final(m: MetadataRecordV, us: Seq<UpdateArgsV>)
    requires
        !m.is_mutable,
    ensures
        spec_apply_all(m, us) == m,
    decreases us.len(),
{
    if us.len() > 0 {
        lemma_locked_record_rejects_updates(m, us[0]);
        lemma_locked_record_is_final(m, us.skip(1));
    }
}

} // verus!
