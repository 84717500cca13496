//! Derivation of program-controlled addresses.
//!
//! A program-derived address is a keyless address computed from a list of
//! seed byte strings and the owning program's address. The derivation itself
//! is a hash-based search performed by the ledger SDK; this module names its
//! result and exposes the three derivations the issuance operation needs:
//! the signing authority, the metadata record address, and the holding
//! (associated) account address.

use vstd::prelude::*;
use crate::addr::Address;
use crate::addr::spec_associated_token_program_id;
use crate::addr::associated_token_program_id;

verus! {

/// What `Pubkey::try_find_program_address` returns for the given seeds and
/// program address: a pure function of its arguments alone.
pub uninterp spec fn find_pda(seeds: Seq<Seq<u8>>, program_id: Seq<u8>) -> Option<(Seq<u8>, u8)>;

/// The view of a list of seed byte strings.
pub open spec fn seeds_view(seeds: Seq<Vec<u8>>) -> Seq<Seq<u8>> {
    seeds.map_values(|s: Vec<u8>| s@)
}

/// Relies on `Pubkey::try_find_program_address` (solana-address): the search
/// for a valid bump is a deterministic function of the seeds and the program
/// address, returning `None` only when no bump yields a valid address.
#[verifier::external_body]
fn pda_lookup(seeds: &Vec<Vec<u8>>, program_id: &Address) -> (r: Option<(Address, u8)>)
    ensures
        (match r {
            Some(p) => find_pda(seeds_view(seeds@), program_id@) == Some((p.0@, p.1)),
            None => find_pda(seeds_view(seeds@), program_id@) is None,
        }),
{
    let seed_refs: Vec<&[u8]> = seeds.iter().map(|s| s.as_slice()).collect();
    let pk = anchor_lang::prelude::Pubkey::new_from_array(program_id.bytes);
    anchor_lang::prelude::Pubkey::try_find_program_address(&seed_refs, &pk)
        .map(|(a, b)| (Address { bytes: a.to_bytes() }, b))
}

/// The fixed seed tag of the signing authority.
pub open spec fn spec_authority_tag() -> Seq<u8> {
    seq![109u8, 105, 110, 116, 45, 97, 117, 116, 104, 111, 114, 105, 116, 121]
}

/// The fixed namespace tag of metadata record addresses.
pub open spec fn spec_metadata_tag() -> Seq<u8> {
    seq![109u8, 101, 116, 97, 100, 97, 116, 97]
}

/// The seed tag of the signing authority, as bytes (the ASCII text
/// `mint-authority`).
pub fn authority_tag() -> (r: Vec<u8>)
    ensures
        r@ == spec_authority_tag(),
{
    let mut v: Vec<u8> = Vec::new();
    v.push(109);
    v.push(105);
    v.push(110);
    v.push(116);
    v.push(45);
    v.push(97);
    v.push(117);
    v.push(116);
    v.push(104);
    v.push(111);
    v.push(114);
    v.push(105);
    v.push(116);
    v.push(121);
    proof {
        assert(v@ =~= spec_authority_tag());
    }
    v
}

/// The namespace tag of metadata record addresses, as bytes (the ASCII text
/// `metadata`).
pub fn metadata_tag() -> (r: Vec<u8>)
    ensures
        r@ == spec_metadata_tag(),
{
    let mut v: Vec<u8> = Vec::new();
    v.push(109);
    v.push(101);
    v.push(116);
    v.push(97);
    v.push(100);
    v.push(97);
    v.push(116);
    v.push(97);
    proof {
        assert(v@ =~= spec_metadata_tag());
    }
    v
}

/// The bytes of an address, as one seed.
fn addr_seed(a: &Address) -> (r: Vec<u8>)
    ensures
        r@ == a@,
{
    let mut v: Vec<u8> = Vec::new();
    let mut i: usize = 0;
    while i < 32
        invariant
            i <= 32,
            v@.len() == i,
            forall|j: int| 0 <= j < i ==> v@[j] == a@[j],
        decreases 32 - i,
    {
        v.push(a.bytes[i]);
        i += 1;
    }
    proof {
        assert(v@ =~= a@);
    }
    v
}

/// The seeds of the signing authority: the fixed tag alone.
pub open spec fn spec_authority_seeds() -> Seq<Seq<u8>> {
    seq![spec_authority_tag()]
}

/// The derived signing authority of the given program: address and bump.
pub open spec fn spec_derived_authority(program_id: Seq<u8>) -> Option<(Seq<u8>, u8)> {
    find_pda(spec_authority_seeds(), program_id)
}

/// The seeds of a metadata record: the namespace tag, the metadata program's
/// address, and the mint's address.
pub open spec fn spec_metadata_seeds(metadata_program: Seq<u8>, mint: Seq<u8>) -> Seq<Seq<u8>> {
    seq![spec_metadata_tag(), metadata_program, mint]
}

/// The derived metadata record address for a mint, owned by the metadata
/// program.
pub open spec fn spec_derived_metadata(metadata_program: Seq<u8>, mint: Seq<u8>) -> Option<(Seq<u8>, u8)> {
    find_pda(spec_metadata_seeds(metadata_program, mint), metadata_program)
}

/// The seeds of a holding (associated) account: the owning wallet, the token
/// program, and the mint.
pub open spec fn spec_holding_seeds(owner: Seq<u8>, token_program: Seq<u8>, mint: Seq<u8>) -> Seq<Seq<u8>> {
    seq![owner, token_program, mint]
}

/// The derived holding account address for an (owner, mint) pair, owned by
/// the associated-account program.
pub open spec fn spec_derived_holding(owner: Seq<u8>, token_program: Seq<u8>, mint: Seq<u8>) -> Option<(Seq<u8>, u8)> {
    find_pda(
        spec_holding_seeds(owner, token_program, mint),
        spec_associated_token_program_id(),
    )
}

/// Derive the signing authority of `program_id`.
pub fn derive_authority(program_id: &Address) -> (r: Option<(Address, u8)>)
    ensures
        (match r {
            Some(p) => spec_derived_authority(program_id@) == Some((p.0@, p.1)),
            None => spec_derived_authority(program_id@) is None,
        }),
{
    let mut seeds: Vec<Vec<u8>> = Vec::new();
    seeds.push(authority_tag());
    proof {
        assert(seeds_view(seeds@) =~= spec_authority_seeds());
    }
    pda_lookup(&seeds, program_id)
}

/// Derive the metadata record address bound to `mint` under
/// `metadata_program`.
pub fn derive_metadata_address(metadata_program: &Address, mint: &Address) -> (r: Option<(Address, u8)>)
    ensures
        (match r {
            Some(p) => spec_derived_metadata(metadata_program@, mint@) == Some((p.0@, p.1)),
            None => spec_derived_metadata(metadata_program@, mint@) is None,
        }),
{
    let mut seeds: Vec<Vec<u8>> = Vec::new();
    seeds.push(metadata_tag());
    seeds.push(addr_seed(metadata_program));
    seeds.push(addr_seed(mint));
    proof {
        assert(seeds_view(seeds@) =~= spec_metadata_seeds(metadata_program@, mint@));
    }
    pda_lookup(&seeds, metadata_program)
}

/// Derive the holding (associated) account address for `owner` and `mint`
/// under `token_program`.
pub fn derive_holding_address(owner: &Address, token_program: &Address, mint: &Address) -> (r: Option<(Address, u8)>)
    ensures
        (match r {
            Some(p) => spec_derived_holding(owner@, token_program@, mint@) == Some((p.0@, p.1)),
            None => spec_derived_holding(owner@, token_program@, mint@) is None,
        }),
{
    let mut seeds: Vec<Vec<u8>> = Vec::new();
    seeds.push(addr_seed(owner));
    seeds.push(addr_seed(token_program));
    seeds.push(addr_seed(mint));
    let ata_program = associated_token_program_id();
    proof {
        assert(seeds_view(seeds@) =~= spec_holding_seeds(owner@, token_program@, mint@));
    }
    pda_lookup(&seeds, &ata_program)
}

} // verus!
