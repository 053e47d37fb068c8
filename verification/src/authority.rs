//! Derivation of the marketplace's program-derived addresses.
//!
//! The escrow holding account, the listing record and the configuration
//! record each live at an address derived deterministically from a seed tag,
//! the asset's identity and the marketplace program's identity. No private
//! key exists for such an address: the derivation also yields a bump byte
//! with which the program — and only the program — can reconstruct the
//! authorization to sign as that address. Because the derivation is a pure
//! function of the seeds, at most one escrow and one listing address exist
//! per asset.

use vstd::prelude::*;

verus! {

/// The marketplace program's own 32-byte identity.
pub const PROGRAM_ID: [u8; 32] = [
    140u8, 52u8, 171u8, 111u8, 89u8, 0u8, 242u8, 114u8, 6u8, 26u8, 207u8, 131u8, 155u8, 5u8, 87u8,
    120u8, 107u8, 192u8, 226u8, 210u8, 35u8, 27u8, 116u8, 134u8, 43u8, 104u8, 59u8, 245u8, 7u8,
    62u8, 197u8, 83u8,
];

/// What the host's address derivation returns for given seeds and program
/// identity: a 32-byte address off the signing curve and its bump byte, or
/// nothing in the statistically improbable case that no bump works or a seed
/// is over the host's length limits. The derivation is a pure function of
/// its arguments; this name stands for its (hash-based) definition.
pub uninterp spec fn derived_address(seeds: Seq<Seq<u8>>, program_id: Seq<u8>) -> Option<
    (Seq<u8>, u8),
>;

/// Relies on `Pubkey::try_find_program_address` of `anchor_lang`: the
/// returned address and bump are a function of the seeds and the program
/// identity alone, and a returned address is 32 bytes.
#[verifier::external_body]
fn find_address(seeds: &Vec<Vec<u8>>, program_id: &[u8; 32]) -> (r: Option<(Vec<u8>, u8)>)
    ensures
        ({
            let d = derived_address(seeds@.map_values(|s: Vec<u8>| s@), program_id@);
            match r {
                Some((addr, bump)) => d == Some((addr@, bump)) && addr@.len() == 32,
                None => d is None,
            }
        }),
{
    let key = anchor_lang::prelude::Pubkey::new_from_array(*program_id);
    let seed_slices: std::vec::Vec<&[u8]> = seeds.iter().map(|s| s.as_slice()).collect();
    anchor_lang::prelude::Pubkey::try_find_program_address(&seed_slices, &key).map(
        |found: (anchor_lang::prelude::Pubkey, u8)| (found.0.to_bytes().to_vec(), found.1),
    )
}

/// The seed tag under which an asset's escrow holding account is derived.
pub open spec fn escrow_tag() -> Seq<u8> {
    seq![101u8, 115u8, 99u8, 114u8, 111u8, 119u8]
}

/// The seed tag under which an asset's listing record is derived.
pub open spec fn listing_tag() -> Seq<u8> {
    seq![108u8, 105u8, 115u8, 116u8, 105u8, 110u8, 103u8]
}

/// The bytes of `escrow_tag`: the ASCII word "escrow".
fn escrow_tag_bytes() -> (r: Vec<u8>)
    ensures
        r@ == escrow_tag(),
{
    let mut tag: Vec<u8> = Vec::new();
    tag.push(101);
    tag.push(115);
    tag.push(99);
    tag.push(114);
    tag.push(111);
    tag.push(119);
    proof {
        assert(tag@ =~= escrow_tag());
    }
    tag
}

/// The bytes of `listing_tag`: the ASCII word "listing".
fn listing_tag_bytes() -> (r: Vec<u8>)
    ensures
        r@ == listing_tag(),
{
    let mut tag: Vec<u8> = Vec::new();
    tag.push(108);
    tag.push(105);
    tag.push(115);
    tag.push(116);
    tag.push(105);
    tag.push(110);
    tag.push(103);
    proof {
        assert(tag@ =~= listing_tag());
    }
    tag
}

/// The seed tag — the one fixed seed — under which the global configuration
/// record is derived.
pub open spec fn marketplace_tag() -> Seq<u8> {
    seq![109u8, 97u8, 114u8, 107u8, 101u8, 116u8, 112u8, 108u8, 97u8, 99u8, 101u8]
}

/// The bytes of `marketplace_tag`: the ASCII word "marketplace".
fn marketplace_tag_bytes() -> (r: Vec<u8>)
    ensures
        r@ == marketplace_tag(),
{
    let mut tag: Vec<u8> = Vec::new();
    tag.push(109);
    tag.push(97);
    tag.push(114);
    tag.push(107);
    tag.push(101);
    tag.push(116);
    tag.push(112);
    tag.push(108);
    tag.push(97);
    tag.push(99);
    tag.push(101);
    proof {
        assert(tag@ =~= marketplace_tag());
    }
    tag
}

/// Derives the address and bump of the global configuration record, from the
/// fixed tag "marketplace" and the program's identity alone: one address for
/// the life of the deployment.
pub fn marketplace_address() -> (r: Option<(Vec<u8>, u8)>)
    ensures
        ({
            let d = derived_address(seq![marketplace_tag()], PROGRAM_ID@);
            match r {
                Some((addr, bump)) => d == Some((addr@, bump)) && addr@.len() == 32,
                None => d is None,
            }
        }),
{
    let mut seeds: Vec<Vec<u8>> = Vec::new();
    seeds.push(marketplace_tag_bytes());
    proof {
        assert(seeds@.map_values(|s: Vec<u8>| s@) =~= seq![marketplace_tag()]);
    }
    find_address(&seeds, &PROGRAM_ID)
}

/// Derives the address and bump of the holding account that escrows the
/// asset `mint_key`, from the tag "escrow", the asset's identity and the
/// program's identity alone.
pub fn escrow_address(mint_key: Vec<u8>) -> (r: Option<(Vec<u8>, u8)>)
    ensures
        ({
            let d = derived_address(seq![escrow_tag(), mint_key@], PROGRAM_ID@);
            match r {
                Some((addr, bump)) => d == Some((addr@, bump)) && addr@.len() == 32,
                None => d is None,
            }
        }),
{
    let ghost key_bytes = mint_key@;
    let mut seeds: Vec<Vec<u8>> = Vec::new();
    seeds.push(escrow_tag_bytes());
    seeds.push(mint_key);
    proof {
        assert(seeds@.map_values(|s: Vec<u8>| s@) =~= seq![escrow_tag(), key_bytes]);
    }
    find_address(&seeds, &PROGRAM_ID)
}

/// Derives the address and bump of the listing record for the asset
/// `mint_key`, from the tag "listing", the asset's identity and the
/// program's identity alone. At most one listing address exists per asset.
pub fn listing_address(mint_key: Vec<u8>) -> (r: Option<(Vec<u8>, u8)>)
    ensures
        ({
            let d = derived_address(seq![listing_tag(), mint_key@], PROGRAM_ID@);
            match r {
                Some((addr, bump)) => d == Some((addr@, bump)) && addr@.len() == 32,
                None => d is None,
            }
        }),
{
    let ghost key_bytes = mint_key@;
    let mut seeds: Vec<Vec<u8>> = Vec::new();
    seeds.push(listing_tag_bytes());
    seeds.push(mint_key);
    proof {
        assert(seeds@.map_values(|s: Vec<u8>| s@) =~= seq![listing_tag(), key_bytes]);
    }
    find_address(&seeds, &PROGRAM_ID)
}

} // verus!
