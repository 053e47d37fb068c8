//! The marketplace's guarantees, proved over the operation transitions.

use vstd::prelude::*;

use crate::error::{MarketplaceError, OpError};
use crate::instructions::{
    buy_accounts_wf, buy_nft_spec, cancel_accounts_wf, cancel_nft_spec, list_accounts_wf,
    list_nft_spec, BuyNFT, CancelNFT, ListNFT,
};
use crate::state::{is_unique_asset, NFTListing, Pubkey, TokenAccount};

verus! {

/// The custody invariant of one asset's records: a listing exists exactly
/// when the escrow holding account exists and holds the single unit.
pub open spec fn listed_iff_escrowed(
    listing: Option<NFTListing>,
    escrow: Option<TokenAccount>,
) -> bool {
    listing is Some <==> (escrow matches Some(e) && e.amount == 1)
}

/// `list_nft` preserves the custody invariant: it either fails and changes
/// nothing, or leaves a listing beside an escrow holding exactly one unit.
pub proof fn lemma_list_preserves_custody(ctx: ListNFT, price: u64, payment_mint: Option<Pubkey>)
    requires
        list_accounts_wf(ctx),
        listed_iff_escrowed(ctx.nft_listing, ctx.escrow_account),
    ensures
        ({
            let (after, _) = list_nft_spec(ctx, price, payment_mint);
            listed_iff_escrowed(after.nft_listing, after.escrow_account)
        }),
{
}

/// `buy_nft` preserves the custody invariant: it either fails and changes
/// nothing, or destroys the listing and the escrow together.
pub proof fn lemma_buy_preserves_custody(ctx: BuyNFT)
    requires
        listed_iff_escrowed(ctx.nft_listing, ctx.escrow_account),
    ensures
        ({
            let (after, _) = buy_nft_spec(ctx);
            listed_iff_escrowed(after.nft_listing, after.escrow_account)
        }),
{
}

/// `cancel_nft` preserves the custody invariant: it either fails and changes
/// nothing, or destroys the listing and the escrow together.
pub proof fn lemma_cancel_preserves_custody(ctx: CancelNFT)
    requires
        listed_iff_escrowed(ctx.nft_listing, ctx.escrow_account),
    ensures
        ({
            let (after, _) = cancel_nft_spec(ctx);
            listed_iff_escrowed(after.nft_listing, after.escrow_account)
        }),
{
}

/// Listing a unique asset at a positive price and immediately cancelling as
/// the same seller succeeds, returns the asset unit to the seller's original
/// holding account with its balance unchanged, and leaves no listing and no
/// escrow behind.
pub proof fn lemma_list_then_cancel_round_trip(ctx: ListNFT, price: u64, payment_mint: Option<
    Pubkey,
>)
    requires
        list_accounts_wf(ctx),
        price > 0,
        is_unique_asset(ctx.mint),
        ctx.seller_token_account.mint == ctx.mint_key,
        ctx.seller_token_account.amount >= 1,
    ensures
        ({
            let (listed, listing_result) = list_nft_spec(ctx, price, payment_mint);
            let cancel_ctx = CancelNFT {
                nft_listing: listed.nft_listing,
                escrow_account: listed.escrow_account,
                seller_token_account: listed.seller_token_account,
                mint_key: ctx.mint_key,
                seller: ctx.seller,
            };
            let (after, cancel_result) = cancel_nft_spec(cancel_ctx);
            &&& listing_result is Ok
            &&& cancel_result is Ok
            &&& after.seller_token_account == ctx.seller_token_account
            &&& after.nft_listing is None
            &&& after.escrow_account is None
        }),
{
}

/// Buying a listing that accepts native currency, with all payment arguments
/// absent and a sufficient balance, succeeds, debits the buyer's native
/// balance by exactly the price, credits the seller's by exactly the price,
/// moves the asset unit to the buyer, and destroys the listing and the
/// escrow.
pub proof fn lemma_buy_native_pays_exactly(ctx: BuyNFT)
    requires
        buy_accounts_wf(ctx),
        ctx.nft_listing matches Some(listing) && listing.payment_mint is None && listing.seller
            == ctx.seller && ctx.buyer_lamports >= listing.price,
        ctx.escrow_account matches Some(escrow) && escrow.amount >= 1,
        ctx.buyer_token_account.mint == ctx.mint_key,
        ctx.payment_mint is None,
        ctx.buyer_payment_account is None,
        ctx.seller_payment_account is None,
    ensures
        ({
            let (after, result) = buy_nft_spec(ctx);
            &&& result is Ok
            &&& after.buyer_lamports == ctx.buyer_lamports - ctx.nft_listing->0.price
            &&& after.seller_lamports == ctx.seller_lamports + ctx.nft_listing->0.price
            &&& after.buyer_token_account.amount == ctx.buyer_token_account.amount + 1
            &&& after.nft_listing is None
            &&& after.escrow_account is None
        }),
{
}

/// Buying a listing that accepts a fungible currency, with the same currency
/// supplied and both payment accounts denominated in it and sufficiently
/// funded, succeeds, debits the buyer's payment account by exactly the
/// price, credits the seller's by exactly the price, leaves both native
/// balances untouched, moves the asset unit to the buyer, and destroys the
/// listing and the escrow.
pub proof fn lemma_buy_token_pays_exactly(ctx: BuyNFT)
    requires
        buy_accounts_wf(ctx),
        ctx.nft_listing matches Some(listing) && listing.seller == ctx.seller
            && listing.payment_mint is Some,
        ctx.payment_mint == ctx.nft_listing->0.payment_mint,
        ctx.buyer_payment_account matches Some(buyer_pay) && buyer_pay.mint
            == ctx.nft_listing->0.payment_mint->0 && buyer_pay.amount >= ctx.nft_listing->0.price,
        ctx.seller_payment_account matches Some(seller_pay) && seller_pay.mint
            == ctx.nft_listing->0.payment_mint->0,
        ctx.escrow_account matches Some(escrow) && escrow.amount >= 1,
        ctx.buyer_token_account.mint == ctx.mint_key,
    ensures
        ({
            let (after, result) = buy_nft_spec(ctx);
            &&& result is Ok
            &&& after.buyer_payment_account matches Some(buyer_pay) && buyer_pay.amount
                == ctx.buyer_payment_account->0.amount - ctx.nft_listing->0.price
            &&& after.seller_payment_account matches Some(seller_pay) && seller_pay.amount
                == ctx.seller_payment_account->0.amount + ctx.nft_listing->0.price
            &&& after.buyer_lamports == ctx.buyer_lamports
            &&& after.seller_lamports == ctx.seller_lamports
            &&& after.buyer_token_account.amount == ctx.buyer_token_account.amount + 1
            &&& after.nft_listing is None
            &&& after.escrow_account is None
        }),
{
}

/// Offering native payment against a listing that accepts a fungible
/// currency fails with `PaymentMintMismatch` and changes nothing.
pub proof fn lemma_native_payment_for_token_listing_fails(ctx: BuyNFT)
    requires
        ctx.nft_listing matches Some(listing) && listing.payment_mint is Some && listing.seller
            == ctx.seller,
        ctx.escrow_account is Some,
        ctx.buyer_token_account.mint == ctx.mint_key,
        ctx.payment_mint is None,
    ensures
        buy_nft_spec(ctx).1 == Err::<(), OpError>(
            OpError::Marketplace(MarketplaceError::PaymentMintMismatch),
        ),
        buy_nft_spec(ctx).0 == ctx,
{
}

/// A cancellation attempted by any identity other than the recorded seller
/// fails with `NotOwner` and changes nothing.
pub proof fn lemma_cancel_by_other_identity_fails(ctx: CancelNFT)
    requires
        ctx.nft_listing matches Some(listing) && listing.seller != ctx.seller,
        ctx.escrow_account is Some,
    ensures
        cancel_nft_spec(ctx).1 == Err::<(), OpError>(OpError::Marketplace(MarketplaceError::NotOwner)),
        cancel_nft_spec(ctx).0 == ctx,
{
}

/// A listing attempted at price zero fails with `InvalidPrice` and changes
/// nothing, whatever the rest of the record set holds.
pub proof fn lemma_zero_price_rejected(ctx: ListNFT, payment_mint: Option<Pubkey>)
    ensures
        list_nft_spec(ctx, 0, payment_mint).1 == Err::<(), OpError>(
            OpError::Marketplace(MarketplaceError::InvalidPrice),
        ),
        list_nft_spec(ctx, 0, payment_mint).0 == ctx,
{
}

/// Of two purchases of the same listing, only the one the host orders first
/// succeeds: the second observes the listing and escrow already destroyed,
/// fails with `RecordMissing`, and changes nothing — the asset is delivered
/// once and the price paid once.
pub proof fn lemma_second_buy_fails(first: BuyNFT, second: BuyNFT)
    requires
        buy_nft_spec(first).1 is Ok,
        second.nft_listing == buy_nft_spec(first).0.nft_listing,
        second.escrow_account == buy_nft_spec(first).0.escrow_account,
    ensures
        buy_nft_spec(second).1 == Err::<(), OpError>(OpError::RecordMissing),
        buy_nft_spec(second).0 == second,
{
}

} // verus!
