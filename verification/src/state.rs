//! The slice of ledger state one issuance operation touches.

use vstd::prelude::*;
use crate::metadata::MetadataRecord;
use crate::metadata::MetadataRecordV;

verus! {

/// The durable state an issuance reads and writes: the mint, its metadata
/// record, and the recipient's holding account. One value of this type
/// describes those accounts either before or after one operation; a rejected
/// operation leaves the value it was given untouched.
#[derive(Debug)]
pub struct LedgerState {
    /// Whether the mint account already exists.
    pub mint_initialized: bool,
    /// Total units of the mint in existence.
    pub mint_supply: u64,
    /// The metadata record bound to the mint, if one was created.
    pub metadata: Option<MetadataRecord>,
    /// Whether the holding account exists.
    pub holding_exists: bool,
    /// Units of the mint held by the holding account.
    pub holding_balance: u64,
}

/// The mathematical view of the ledger slice.
pub ghost struct LedgerStateV {
    pub mint_initialized: bool,
    pub mint_supply: u64,
    pub metadata: Option<MetadataRecordV>,
    pub holding_exists: bool,
    pub holding_balance: u64,
}

impl View for LedgerState {
    type V = LedgerStateV;

    open spec fn view(&self) -> LedgerStateV {
        LedgerStateV {
            mint_initialized: self.mint_initialized,
            mint_supply: self.mint_supply,
            metadata: (match self.metadata {
                Some(ref m) => Some(m@),
                None => None,
            }),
            holding_exists: self.holding_exists,
            holding_balance: self.holding_balance,
        }
    }
}

impl LedgerStateV {
    /// Well-formedness: nothing of the mint exists before the mint account
    /// does, and no balance sits in a holding account that does not exist.
    pub open spec fn wf(self) -> bool {
        &&& (!self.mint_initialized ==> {
            &&& self.mint_supply == 0
            &&& self.metadata is None
            &&& self.holding_balance == 0
        })
        &&& (!self.holding_exists ==> self.holding_balance == 0)
    }
}

impl LedgerState {
    /// The state before any issuance: no mint, no metadata, no holding
    /// account.
    pub fn empty() -> (r: LedgerState)
        ensures
            r@ == (LedgerStateV {
                mint_initialized: false,
                mint_supply: 0,
                metadata: None,
                holding_exists: false,
                holding_balance: 0,
            }),
            r@.wf(),
    {
        LedgerState {
            mint_initialized: false,
            mint_supply: 0,
            metadata: None,
            holding_exists: false,
            holding_balance: 0,
        }
    }
}

} // verus!
