//! Ledger addresses as plain 32-byte values, and the well-known addresses of
//! the external programs this operation calls into.

use vstd::prelude::*;

verus! {

/// A ledger address: 32 raw bytes.
#[derive(Clone, Copy, Debug)]
pub struct Address {
    pub bytes: [u8; 32],
}

impl View for Address {
    type V = Seq<u8>;

    open spec fn view(&self) -> Seq<u8> {
        self.bytes@
    }
}

impl Address {
    pub fn new(bytes: [u8; 32]) -> (r: Address)
        ensures
            r@ == bytes@,
    {
        Address { bytes }
    }
}

/// Byte-for-byte equality of two addresses.
pub fn addr_eq(a: &Address, b: &Address) -> (r: bool)
    ensures
        r == (a@ == b@),
{
    let mut i: usize = 0;
    while i < 32
        invariant
            i <= 32,
            forall|j: int| 0 <= j < i ==> a@[j] == b@[j],
        decreases 32 - i,
    {
        if a.bytes[i] != b.bytes[i] {
            assert(a@[i as int] != b@[i as int]);
            assert(a@ != b@);
            return false;
        }
        i += 1;
    }
    assert(a@ =~= b@);
    true
}

/// Well-known address of the system program, which allocates and funds new accounts.
pub open spec fn spec_system_program_id() -> Seq<u8> {
    seq![0u8, 0, 0, 0, 0, 0, 0, 0, 0, 0, 0, 0, 0, 0, 0, 0, 0, 0, 0, 0, 0, 0, 0, 0, 0, 0, 0, 0, 0, 0, 0, 0]
}

/// Well-known address of the system program, which allocates and funds new accounts.
pub fn system_program_id() -> (r: Address)
    ensures
        r@ == spec_system_program_id(),
{
    let a = Address::new([0, 0, 0, 0, 0, 0, 0, 0, 0, 0, 0, 0, 0, 0, 0, 0, 0, 0, 0, 0, 0, 0, 0, 0, 0, 0, 0, 0, 0, 0, 0, 0]);
    proof {
        assert(a@ =~= spec_system_program_id());
    }
    a
}

/// Well-known address of the asset-transfer (token) program.
pub open spec fn spec_token_program_id() -> Seq<u8> {
    seq![6u8, 221, 246, 225, 215, 101, 161, 147, 217, 203, 225, 70, 206, 235, 121, 172, 28, 180, 133, 237, 95, 91, 55, 145, 58, 140, 245, 133, 126, 255, 0, 169]
}

/// Well-known address of the asset-transfer (token) program.
pub fn token_program_id() -> (r: Address)
    ensures
        r@ == spec_token_program_id(),
{
    let a = Address::new([6, 221, 246, 225, 215, 101, 161, 147, 217, 203, 225, 70, 206, 235, 121, 172, 28, 180, 133, 237, 95, 91, 55, 145, 58, 140, 245, 133, 126, 255, 0, 169]);
    proof {
        assert(a@ =~= spec_token_program_id());
    }
    a
}

/// Well-known address of the associated-account program.
pub open spec fn spec_associated_token_program_id() -> Seq<u8> {
    seq![140u8, 151, 37, 143, 78, 36, 137, 241, 187, 61, 16, 41, 20, 142, 13, 131, 11, 90, 19, 153, 218, 255, 16, 132, 4, 142, 123, 216, 219, 233, 248, 89]
}

/// Well-known address of the associated-account program.
pub fn associated_token_program_id() -> (r: Address)
    ensures
        r@ == spec_associated_token_program_id(),
{
    let a = Address::new([140, 151, 37, 143, 78, 36, 137, 241, 187, 61, 16, 41, 20, 142, 13, 131, 11, 90, 19, 153, 218, 255, 16, 132, 4, 142, 123, 216, 219, 233, 248, 89]);
    proof {
        assert(a@ =~= spec_associated_token_program_id());
    }
    a
}

/// Well-known address of the metadata program.
pub open spec fn spec_metadata_program_id() -> Seq<u8> {
    seq![11u8, 112, 101, 177, 227, 209, 124, 69, 56, 157, 82, 127, 107, 4, 195, 205, 88, 184, 108, 115, 26, 160, 253, 181, 73, 182, 209, 188, 3, 248, 41, 70]
}

/// Well-known address of the metadata program.
pub fn metadata_program_id() -> (r: Address)
    ensures
        r@ == spec_metadata_program_id(),
{
    let a = Address::new([11, 112, 101, 177, 227, 209, 124, 69, 56, 157, 82, 127, 107, 4, 195, 205, 88, 184, 108, 115, 26, 160, 253, 181, 73, 182, 209, 188, 3, 248, 41, 70]);
    proof {
        assert(a@ =~= spec_metadata_program_id());
    }
    a
}

/// Well-known address of this issuance program itself.
pub open spec fn spec_issuer_program_id() -> Seq<u8> {
    seq![212u8, 54, 106, 246, 34, 20, 73, 103, 102, 32, 98, 213, 188, 0, 7, 170, 206, 117, 204, 146, 71, 76, 89, 162, 27, 118, 108, 202, 250, 201, 141, 54]
}

/// Well-known address of this issuance program itself.
pub fn issuer_program_id() -> (r: Address)
    ensures
        r@ == spec_issuer_program_id(),
{
    let a = Address::new([212, 54, 106, 246, 34, 20, 73, 103, 102, 32, 98, 213, 188, 0, 7, 170, 206, 117, 204, 146, 71, 76, 89, 162, 27, 118, 108, 202, 250, 201, 141, 54]);
    proof {
        assert(a@ =~= spec_issuer_program_id());
    }
    a
}

} // verus!
