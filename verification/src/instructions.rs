//! The four marketplace operations.
//!
//! Each operation takes the set of ledger records the host resolved for it —
//! the same shape the on-chain entry point receives — mutates it, and returns
//! a single outcome. The exact effect of an operation is a transition
//! function on that record set (`initialize_marketplace_spec`,
//! `list_nft_spec`, `buy_nft_spec`, `cancel_nft_spec`); every operation's
//! contract says it realizes its transition and changes nothing on failure,
//! mirroring the host's all-or-nothing application of an operation.
//!
//! Each record set carries a well-formedness condition stating only what the
//! host establishes before the operation runs: which authority owns a holding
//! account it resolved, that a pre-existing escrow account is denominated in
//! the listed asset, and that balances of one asset together never exceed its
//! supply (so no transfer can overflow a balance).

use vstd::prelude::*;

use crate::error::{MarketplaceError, OpError};
use crate::state::{is_unique_asset, Marketplace, Mint, NFTListing, Pubkey, TokenAccount};

verus! {

/// The record set for `initialize_marketplace`: the configuration record
/// slot (empty until created) and the caller.
#[derive(Clone, Copy, Debug, PartialEq, Eq)]
pub struct InitializeMarketplace {
    /// The global configuration record, if it was already created.
    pub marketplace: Option<Marketplace>,
    /// The caller; becomes the marketplace authority.
    pub signer: Pubkey,
}

/// The exact effect of `initialize_marketplace`: create the one global
/// configuration record, or refuse because it already exists.
pub open spec fn initialize_marketplace_spec(
    ctx: InitializeMarketplace,
    fee: u64,
) -> (InitializeMarketplace, Result<(), OpError>) {
    if ctx.marketplace is Some {
        (ctx, Err(OpError::RecordExists))
    } else {
        (
            (InitializeMarketplace {
                marketplace: Some(Marketplace { authority: ctx.signer, fee }),
                ..ctx
            }),
            Ok(()),
        )
    }
}

/// Creates the global marketplace configuration, recording the caller as its
/// authority and `fee` as the advisory fee. Fails, changing nothing, if the
/// configuration already exists: the record-creation primitive refuses a
/// second creation.
pub fn initialize_marketplace(ctx: &mut InitializeMarketplace, fee: u64) -> (r: Result<
    (),
    OpError,
>)
    ensures
        (*final(ctx), r) == initialize_marketplace_spec(*old(ctx), fee),
        r is Ok <==> old(ctx).marketplace is None,
        r is Err ==> *final(ctx) == *old(ctx),
        r is Ok ==> final(ctx).marketplace == Some(
            Marketplace { authority: old(ctx).signer, fee },
        ),
{
    if ctx.marketplace.is_some() {
        Err(OpError::RecordExists)
    } else {
        ctx.marketplace = Some(Marketplace { authority: ctx.signer, fee });
        Ok(())
    }
}

/// The record set for `list_nft`.
#[derive(Clone, Copy, Debug, PartialEq, Eq)]
pub struct ListNFT {
    /// The listing record for this asset, if one already exists.
    pub nft_listing: Option<NFTListing>,
    /// The escrow holding account for this asset, if one already exists.
    pub escrow_account: Option<TokenAccount>,
    /// The seller's holding account for the asset being listed.
    pub seller_token_account: TokenAccount,
    /// The definition record of the asset being listed.
    pub mint: Mint,
    /// The asset's identity: the address of its definition record.
    pub mint_key: Pubkey,
    /// The derived escrow authority for this asset; no participant holds a
    /// key for it (see `authority`).
    pub escrow_authority: Pubkey,
    /// The caller; becomes the recorded seller.
    pub seller: Pubkey,
}

/// The number of asset units a possibly-absent holding account holds.
pub open spec fn held_units(account: Option<TokenAccount>) -> u64 {
    match account {
        Some(a) => a.amount,
        None => 0u64,
    }
}

/// What the host establishes before `list_nft` runs: the seller's holding
/// account is the seller's, a pre-existing escrow account is this asset's and
/// is controlled by the derived escrow authority, and holdings of the asset
/// never exceed its supply.
pub open spec fn list_accounts_wf(ctx: ListNFT) -> bool {
    &&& ctx.seller_token_account.owner == ctx.seller
    &&& (ctx.escrow_account matches Some(e) ==> e.mint == ctx.mint_key && e.owner
        == ctx.escrow_authority)
    &&& (ctx.seller_token_account.mint == ctx.mint_key ==> ctx.seller_token_account.amount
        + held_units(ctx.escrow_account) <= ctx.mint.supply)
}

/// The exact effect of `list_nft`: check the price and the asset's
/// uniqueness, move the single unit from the seller's holding account into
/// escrow, and write the listing record — or fail, changing nothing.
pub open spec fn list_nft_spec(ctx: ListNFT, price: u64, payment_mint: Option<Pubkey>) -> (
    ListNFT,
    Result<(), OpError>,
) {
    if price == 0 {
        (ctx, Err(OpError::Marketplace(MarketplaceError::InvalidPrice)))
    } else if !(is_unique_asset(ctx.mint) && ctx.seller_token_account.mint == ctx.mint_key) {
        (ctx, Err(OpError::Marketplace(MarketplaceError::InvalidMint)))
    } else if ctx.seller_token_account.amount < 1 {
        (ctx, Err(OpError::TokenBalance))
    } else {
        (
            (ListNFT {
                nft_listing: Some(NFTListing { seller: ctx.seller, price, payment_mint }),
                escrow_account: Some(
                    TokenAccount {
                        mint: ctx.mint_key,
                        owner: ctx.escrow_authority,
                        amount: (held_units(ctx.escrow_account) + 1) as u64,
                    },
                ),
                seller_token_account: TokenAccount {
                    amount: (ctx.seller_token_account.amount - 1) as u64,
                    ..ctx.seller_token_account
                },
                ..ctx
            }),
            Ok(()),
        )
    }
}

/// Lists an asset for sale: moves its single unit from the seller's holding
/// account into the escrow holding account (creating the escrow if it does
/// not exist) and records seller, price and accepted payment currency.
///
/// Fails with `InvalidPrice` on a zero price; with `InvalidMint` if the asset
/// is not a unique, indivisible, non-reproducible token or the seller's
/// holding account is denominated in a different asset; and with
/// `TokenBalance` if the seller's holding account does not hold the unit. On
/// failure nothing changes.
pub fn list_nft(ctx: &mut ListNFT, price: u64, payment_mint: Option<Pubkey>) -> (r: Result<
    (),
    OpError,
>)
    requires
        list_accounts_wf(*old(ctx)),
    ensures
        (*final(ctx), r) == list_nft_spec(*old(ctx), price, payment_mint),
        r is Ok <==> (price > 0 && is_unique_asset(old(ctx).mint) && old(
            ctx,
        ).seller_token_account.mint == old(ctx).mint_key && old(ctx).seller_token_account.amount
            >= 1),
        r is Err ==> *final(ctx) == *old(ctx),
        r is Ok ==> final(ctx).nft_listing == Some(
            NFTListing { seller: old(ctx).seller, price, payment_mint },
        ),
        r is Ok ==> (final(ctx).escrow_account matches Some(e) && e.amount == held_units(
            old(ctx).escrow_account,
        ) + 1),
{
    if price == 0 {
        return Err(OpError::Marketplace(MarketplaceError::InvalidPrice));
    }
    if !(crate::state::check_unique_asset(&ctx.mint) && ctx.seller_token_account.mint
        == ctx.mint_key) {
        return Err(OpError::Marketplace(MarketplaceError::InvalidMint));
    }
    if ctx.seller_token_account.amount < 1 {
        return Err(OpError::TokenBalance);
    }
    let escrow_held: u64 = match ctx.escrow_account {
        Some(e) => e.amount,
        None => 0,
    };
    *ctx = ListNFT {
        nft_listing: Some(NFTListing { seller: ctx.seller, price, payment_mint }),
        escrow_account: Some(
            TokenAccount {
                mint: ctx.mint_key,
                owner: ctx.escrow_authority,
                amount: escrow_held + 1,
            },
        ),
        seller_token_account: TokenAccount {
            amount: ctx.seller_token_account.amount - 1,
            ..ctx.seller_token_account
        },
        ..*ctx
    };
    Ok(())
}

/// The record set for `buy_nft`.
#[derive(Clone, Copy, Debug, PartialEq, Eq)]
pub struct BuyNFT {
    /// The listing record for this asset, if it still exists.
    pub nft_listing: Option<NFTListing>,
    /// The escrow holding account for this asset, if it still exists.
    pub escrow_account: Option<TokenAccount>,
    /// The buyer's holding account for the asset; receives the unit.
    pub buyer_token_account: TokenAccount,
    /// The asset's identity.
    pub mint_key: Pubkey,
    /// The buyer's holding account for the payment currency, on the
    /// fungible-token payment path.
    pub buyer_payment_account: Option<TokenAccount>,
    /// The seller's holding account for the payment currency, on the
    /// fungible-token payment path.
    pub seller_payment_account: Option<TokenAccount>,
    /// The payment currency the buyer offers; `None` offers native currency.
    pub payment_mint: Option<Pubkey>,
    /// The caller, paying for and receiving the asset.
    pub buyer: Pubkey,
    /// The seller identity the buyer supplied; must match the listing.
    pub seller: Pubkey,
    /// The buyer's native-currency balance.
    pub buyer_lamports: u64,
    /// The seller's native-currency balance.
    pub seller_lamports: u64,
}

/// What the host establishes before `buy_nft` runs: each resolved holding
/// account belongs to the participant it was resolved for, the escrow is this
/// asset's, and balances of one asset or currency together never exceed its
/// supply.
pub open spec fn buy_accounts_wf(ctx: BuyNFT) -> bool {
    &&& ctx.buyer_token_account.owner == ctx.buyer
    &&& (match ctx.escrow_account {
        Some(e) => e.mint == ctx.mint_key && (ctx.buyer_token_account.mint == ctx.mint_key
            ==> ctx.buyer_token_account.amount + e.amount <= u64::MAX),
        None => true,
    })
    &&& (match ctx.buyer_payment_account {
        Some(b) => b.owner == ctx.buyer,
        None => true,
    })
    &&& (match ctx.seller_payment_account {
        Some(s) => s.owner == ctx.seller,
        None => true,
    })
    &&& (match (ctx.buyer_payment_account, ctx.seller_payment_account) {
        (Some(b), Some(s)) => b.mint == s.mint ==> b.amount + s.amount <= u64::MAX,
        _ => true,
    })
    &&& ctx.buyer_lamports + ctx.seller_lamports <= u64::MAX
}

/// The payment leg of `buy_nft`: dispatch on the listing's recorded currency
/// and the three buyer-supplied payment arguments. All four present moves
/// `price` units of the (consistent) fungible currency from buyer to seller;
/// all four absent moves `price` units of native currency; anything else is
/// inconsistent. Returns the record set with the payment applied.
pub open spec fn payment_step(ctx: BuyNFT, listing: NFTListing) -> Result<BuyNFT, OpError> {
    match (listing.payment_mint,
    ctx.payment_mint,
    ctx.buyer_payment_account,
    ctx.seller_payment_account) {
        (Some(listing_mint), Some(provided_mint), Some(buyer_pay), Some(seller_pay)) => {
            if listing_mint != provided_mint || listing_mint != buyer_pay.mint || listing_mint
                != seller_pay.mint {
                Err(OpError::Marketplace(MarketplaceError::PaymentMintMismatch))
            } else if buyer_pay.amount < listing.price {
                Err(OpError::TokenBalance)
            } else {
                Ok(
                    BuyNFT {
                        buyer_payment_account: Some(
                            TokenAccount {
                                amount: (buyer_pay.amount - listing.price) as u64,
                                ..buyer_pay
                            },
                        ),
                        seller_payment_account: Some(
                            TokenAccount {
                                amount: (seller_pay.amount + listing.price) as u64,
                                ..seller_pay
                            },
                        ),
                        ..ctx
                    },
                )
            }
        },
        (None, None, None, None) => {
            if ctx.buyer_lamports < listing.price {
                Err(OpError::Marketplace(MarketplaceError::SOLBalance))
            } else {
                Ok(
                    BuyNFT {
                        buyer_lamports: (ctx.buyer_lamports - listing.price) as u64,
                        seller_lamports: (ctx.seller_lamports + listing.price) as u64,
                        ..ctx
                    },
                )
            }
        },
        _ => Err(OpError::Marketplace(MarketplaceError::PaymentMintMismatch)),
    }
}

/// The exact effect of `buy_nft`: after the payment leg succeeds, move the
/// asset unit from escrow to the buyer and destroy the escrow and the
/// listing; any failure leaves every record as it was (the host rolls back a
/// partially applied operation).
pub open spec fn buy_nft_spec(ctx: BuyNFT) -> (BuyNFT, Result<(), OpError>) {
    match (ctx.nft_listing, ctx.escrow_account) {
        (Some(listing), Some(escrow)) => {
            if ctx.buyer_token_account.mint != ctx.mint_key {
                (ctx, Err(OpError::Marketplace(MarketplaceError::InvalidMint)))
            } else if listing.seller != ctx.seller {
                (ctx, Err(OpError::Marketplace(MarketplaceError::NotOwner)))
            } else {
                match payment_step(ctx, listing) {
                    Err(e) => (ctx, Err(e)),
                    Ok(paid) => {
                        if escrow.amount < 1 {
                            (ctx, Err(OpError::TokenBalance))
                        } else {
                            (
                                (BuyNFT {
                                    nft_listing: None,
                                    escrow_account: None,
                                    buyer_token_account: TokenAccount {
                                        amount: (ctx.buyer_token_account.amount + 1) as u64,
                                        ..ctx.buyer_token_account
                                    },
                                    ..paid
                                }),
                                Ok(()),
                            )
                        }
                    },
                }
            }
        },
        _ => (ctx, Err(OpError::RecordMissing)),
    }
}

/// Buys a listed asset: moves the price from buyer to seller in the listing's
/// recorded currency, moves the asset unit from escrow to the buyer, and
/// destroys the escrow and the listing so the asset can be listed anew.
///
/// Fails with `RecordMissing` if the listing or escrow no longer exists (a
/// competing purchase or cancellation was ordered first); with `InvalidMint`
/// if the buyer's holding account is denominated in a different asset; with
/// `NotOwner` if the supplied seller identity is not the recorded seller;
/// with `PaymentMintMismatch` if the four payment arguments are not
/// consistently native or consistently the listing's recorded currency; with
/// `SOLBalance` or `TokenBalance` if the buyer's balance cannot cover the
/// price. On failure nothing changes.
pub fn buy_nft(ctx: &mut BuyNFT) -> (r: Result<(), OpError>)
    requires
        buy_accounts_wf(*old(ctx)),
    ensures
        (*final(ctx), r) == buy_nft_spec(*old(ctx)),
        r is Err ==> *final(ctx) == *old(ctx),
        r is Ok ==> final(ctx).nft_listing is None && final(ctx).escrow_account is None,
        r is Ok ==> final(ctx).buyer_token_account.amount == old(ctx).buyer_token_account.amount
            + 1,
{
    let listing = match ctx.nft_listing {
        Some(l) => l,
        None => { return Err(OpError::RecordMissing) },
    };
    let escrow = match ctx.escrow_account {
        Some(e) => e,
        None => { return Err(OpError::RecordMissing) },
    };
    if ctx.buyer_token_account.mint != ctx.mint_key {
        return Err(OpError::Marketplace(MarketplaceError::InvalidMint));
    }
    if listing.seller != ctx.seller {
        return Err(OpError::Marketplace(MarketplaceError::NotOwner));
    }
    match (listing.payment_mint, ctx.payment_mint, ctx.buyer_payment_account, ctx.seller_payment_account) {
        (Some(listing_mint), Some(provided_mint), Some(buyer_pay), Some(seller_pay)) => {
            if listing_mint != provided_mint || listing_mint != buyer_pay.mint || listing_mint
                != seller_pay.mint {
                return Err(OpError::Marketplace(MarketplaceError::PaymentMintMismatch));
            }
            if buyer_pay.amount < listing.price {
                return Err(OpError::TokenBalance);
            }
            if escrow.amount < 1 {
                return Err(OpError::TokenBalance);
            }
            *ctx = BuyNFT {
                nft_listing: None,
                escrow_account: None,
                buyer_token_account: TokenAccount {
                    amount: ctx.buyer_token_account.amount + 1,
                    ..ctx.buyer_token_account
                },
                buyer_payment_account: Some(
                    TokenAccount { amount: buyer_pay.amount - listing.price, ..buyer_pay },
                ),
                seller_payment_account: Some(
                    TokenAccount { amount: seller_pay.amount + listing.price, ..seller_pay },
                ),
                ..*ctx
            };
            Ok(())
        },
        (None, None, None, None) => {
            if ctx.buyer_lamports < listing.price {
                return Err(OpError::Marketplace(MarketplaceError::SOLBalance));
            }
            if escrow.amount < 1 {
                return Err(OpError::TokenBalance);
            }
            *ctx = BuyNFT {
                nft_listing: None,
                escrow_account: None,
                buyer_token_account: TokenAccount {
                    amount: ctx.buyer_token_account.amount + 1,
                    ..ctx.buyer_token_account
                },
                buyer_lamports: ctx.buyer_lamports - listing.price,
                seller_lamports: ctx.seller_lamports + listing.price,
                ..*ctx
            };
            Ok(())
        },
        _ => Err(OpError::Marketplace(MarketplaceError::PaymentMintMismatch)),
    }
}

/// The record set for `cancel_nft`.
#[derive(Clone, Copy, Debug, PartialEq, Eq)]
pub struct CancelNFT {
    /// The listing record for this asset, if it still exists.
    pub nft_listing: Option<NFTListing>,
    /// The escrow holding account for this asset, if it still exists.
    pub escrow_account: Option<TokenAccount>,
    /// The seller's holding account for the asset; receives the unit back.
    pub seller_token_account: TokenAccount,
    /// The asset's identity.
    pub mint_key: Pubkey,
    /// The caller; must be the recorded seller.
    pub seller: Pubkey,
}

/// What the host establishes before `cancel_nft` runs: the seller's holding
/// account is the caller's and this asset's, the escrow is this asset's, and
/// holdings of the asset together never exceed its supply.
pub open spec fn cancel_accounts_wf(ctx: CancelNFT) -> bool {
    &&& ctx.seller_token_account.owner == ctx.seller
    &&& ctx.seller_token_account.mint == ctx.mint_key
    &&& (ctx.escrow_account matches Some(e) ==> e.mint == ctx.mint_key
        && ctx.seller_token_account.amount + e.amount <= u64::MAX)
}

/// When a cancellation is owed success: the listing still exists, the caller
/// is its recorded seller, and the escrow still holds the asset unit.
pub open spec fn cancel_succeeds(ctx: CancelNFT) -> bool {
    &&& ctx.nft_listing matches Some(listing) && listing.seller == ctx.seller
    &&& ctx.escrow_account matches Some(escrow) && escrow.amount >= 1
}

/// The exact effect of `cancel_nft`: the recorded seller reclaims the asset
/// unit from escrow, and the escrow and the listing are destroyed — or the
/// operation fails, changing nothing.
pub open spec fn cancel_nft_spec(ctx: CancelNFT) -> (CancelNFT, Result<(), OpError>) {
    match (ctx.nft_listing, ctx.escrow_account) {
        (Some(listing), Some(escrow)) => {
            if listing.seller != ctx.seller {
                (ctx, Err(OpError::Marketplace(MarketplaceError::NotOwner)))
            } else if escrow.amount < 1 {
                (ctx, Err(OpError::TokenBalance))
            } else {
                (
                    (CancelNFT {
                        nft_listing: None,
                        escrow_account: None,
                        seller_token_account: TokenAccount {
                            amount: (ctx.seller_token_account.amount + 1) as u64,
                            ..ctx.seller_token_account
                        },
                        ..ctx
                    }),
                    Ok(()),
                )
            }
        },
        _ => (ctx, Err(OpError::RecordMissing)),
    }
}

/// Cancels a listing: the recorded seller takes the asset unit back from
/// escrow, and the escrow and the listing are destroyed. No payment changes
/// hands.
///
/// Fails with `RecordMissing` if the listing or escrow no longer exists; with
/// `NotOwner` if the caller is not the recorded seller; with `TokenBalance`
/// if the escrow does not hold the unit. On failure nothing changes.
pub fn cancel_nft(ctx: &mut CancelNFT) -> (r: Result<(), OpError>)
    requires
        cancel_accounts_wf(*old(ctx)),
    ensures
        (*final(ctx), r) == cancel_nft_spec(*old(ctx)),
        r is Err ==> *final(ctx) == *old(ctx),
        r is Ok <==> cancel_succeeds(*old(ctx)),
        r is Ok ==> final(ctx).nft_listing is None && final(ctx).escrow_account is None
            && final(ctx).seller_token_account.amount == old(ctx).seller_token_account.amount + 1,
{
    let listing = match ctx.nft_listing {
        Some(l) => l,
        None => { return Err(OpError::RecordMissing) },
    };
    let escrow = match ctx.escrow_account {
        Some(e) => e,
        None => { return Err(OpError::RecordMissing) },
    };
    if listing.seller != ctx.seller {
        return Err(OpError::Marketplace(MarketplaceError::NotOwner));
    }
    if escrow.amount < 1 {
        return Err(OpError::TokenBalance);
    }
    *ctx = CancelNFT {
        nft_listing: None,
        escrow_account: None,
        seller_token_account: TokenAccount {
            amount: ctx.seller_token_account.amount + 1,
            ..ctx.seller_token_account
        },
        ..*ctx
    };
    Ok(())
}

} // verus!
