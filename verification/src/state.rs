//! The ledger records that the marketplace operations read and write,
//! modelled as plain values.
//!
//! An identity (an account address on the host ledger) is abstract here: the
//! operations only ever compare identities for equality, so a plain integer
//! stands for one. The byte-level derivation of the escrow and listing
//! addresses lives in `authority`.

use vstd::prelude::*;

verus! {

/// An identity on the host ledger: an account address, a mint address, or a
/// participant. The operations only compare identities for equality.
pub type Pubkey = u64;

/// The one global marketplace configuration record, created once.
#[derive(Clone, Copy, Debug, PartialEq, Eq)]
pub struct Marketplace {
    /// The operator identity that created the marketplace.
    pub authority: Pubkey,
    /// An advisory fee value; recorded, never charged by any operation here.
    pub fee: u64,
}

/// The per-asset listing record: at most one exists per asset, at an address
/// derived from the asset's mint identity.
#[derive(Clone, Copy, Debug, PartialEq, Eq)]
pub struct NFTListing {
    /// The identity that created the listing; only it may cancel.
    pub seller: Pubkey,
    /// The asking price, in the smallest unit of the accepted currency.
    pub price: u64,
    /// The fungible currency accepted as payment; `None` means the ledger's
    /// native currency.
    pub payment_mint: Option<Pubkey>,
}

/// A holding account: how much of one asset or currency an authority controls.
#[derive(Clone, Copy, Debug, PartialEq, Eq)]
pub struct TokenAccount {
    /// The mint identity of the asset or currency held.
    pub mint: Pubkey,
    /// The authority permitted to move the held units.
    pub owner: Pubkey,
    /// The number of smallest units held.
    pub amount: u64,
}

/// The definition record of an asset or currency.
#[derive(Clone, Copy, Debug, PartialEq, Eq)]
pub struct Mint {
    /// Total number of units in circulation.
    pub supply: u64,
    /// Number of fractional digits; zero means indivisible.
    pub decimals: u8,
    /// The identity allowed to mint further units, if any remains.
    pub mint_authority: Option<Pubkey>,
}

/// A mint describes a unique, non-reproducible asset: exactly one unit
/// exists, it is indivisible, and no further unit can ever be minted.
pub open spec fn is_unique_asset(m: Mint) -> bool {
    m.supply == 1 && m.decimals == 0 && m.mint_authority is None
}

/// Checks at run time that a mint describes a unique, non-reproducible asset.
pub fn check_unique_asset(m: &Mint) -> (r: bool)
    ensures
        r == is_unique_asset(*m),
{
    m.supply == 1 && m.decimals == 0 && m.mint_authority.is_none()
}

} // verus!
