use nft_marketplace::error::{MarketplaceError, OpError};
use nft_marketplace::instructions::{
    buy_nft, cancel_nft, initialize_marketplace, list_nft, BuyNFT, CancelNFT,
    InitializeMarketplace, ListNFT,
};
use nft_marketplace::state::{Marketplace, Mint, NFTListing, TokenAccount};

const NFT_MINT: u64 = 11;
const PAY_MINT: u64 = 22;
const SELLER: u64 = 100;
const BUYER: u64 = 200;
const ESCROW_AUTH: u64 = 77;

fn unique_mint() -> Mint {
    Mint { supply: 1, decimals: 0, mint_authority: None }
}

fn fresh_list_ctx() -> ListNFT {
    ListNFT {
        nft_listing: None,
        escrow_account: None,
        seller_token_account: TokenAccount { mint: NFT_MINT, owner: SELLER, amount: 1 },
        mint: unique_mint(),
        mint_key: NFT_MINT,
        escrow_authority: ESCROW_AUTH,
        seller: SELLER,
    }
}

/// A context as it stands right after a successful native-currency listing.
fn listed_buy_ctx(price: u64, payment_mint: Option<u64>) -> BuyNFT {
    BuyNFT {
        nft_listing: Some(NFTListing { seller: SELLER, price, payment_mint }),
        escrow_account: Some(TokenAccount { mint: NFT_MINT, owner: ESCROW_AUTH, amount: 1 }),
        buyer_token_account: TokenAccount { mint: NFT_MINT, owner: BUYER, amount: 0 },
        mint_key: NFT_MINT,
        buyer_payment_account: None,
        seller_payment_account: None,
        payment_mint: None,
        buyer: BUYER,
        seller: SELLER,
        buyer_lamports: 1_000,
        seller_lamports: 50,
    }
}

#[test]
fn initialize_records_authority_and_fee() {
    let mut ctx = InitializeMarketplace { marketplace: None, signer: SELLER };
    assert_eq!(initialize_marketplace(&mut ctx, 250), Ok(()));
    assert_eq!(ctx.marketplace, Some(Marketplace { authority: SELLER, fee: 250 }));
}

#[test]
fn initialize_twice_fails() {
    let mut ctx = InitializeMarketplace { marketplace: None, signer: SELLER };
    assert_eq!(initialize_marketplace(&mut ctx, 250), Ok(()));
    let before = ctx;
    assert_eq!(initialize_marketplace(&mut ctx, 500), Err(OpError::RecordExists));
    assert_eq!(ctx, before);
}

#[test]
fn list_moves_unit_into_escrow_and_records_listing() {
    let mut ctx = fresh_list_ctx();
    assert_eq!(list_nft(&mut ctx, 100, None), Ok(()));
    assert_eq!(
        ctx.nft_listing,
        Some(NFTListing { seller: SELLER, price: 100, payment_mint: None })
    );
    assert_eq!(
        ctx.escrow_account,
        Some(TokenAccount { mint: NFT_MINT, owner: ESCROW_AUTH, amount: 1 })
    );
    assert_eq!(ctx.seller_token_account.amount, 0);
}

#[test]
fn list_with_zero_price_fails_invalid_price() {
    let mut ctx = fresh_list_ctx();
    let before = ctx;
    assert_eq!(
        list_nft(&mut ctx, 0, None),
        Err(OpError::Marketplace(MarketplaceError::InvalidPrice))
    );
    assert_eq!(ctx, before);
}

#[test]
fn list_rejects_divisible_or_reproducible_asset() {
    let mut oversupplied = fresh_list_ctx();
    oversupplied.mint.supply = 2;
    oversupplied.seller_token_account.amount = 2;
    assert_eq!(
        list_nft(&mut oversupplied, 100, None),
        Err(OpError::Marketplace(MarketplaceError::InvalidMint))
    );

    let mut divisible = fresh_list_ctx();
    divisible.mint.decimals = 6;
    assert_eq!(
        list_nft(&mut divisible, 100, None),
        Err(OpError::Marketplace(MarketplaceError::InvalidMint))
    );

    let mut mintable = fresh_list_ctx();
    mintable.mint.mint_authority = Some(SELLER);
    assert_eq!(
        list_nft(&mut mintable, 100, None),
        Err(OpError::Marketplace(MarketplaceError::InvalidMint))
    );
}

#[test]
fn list_rejects_holding_account_of_other_asset() {
    let mut ctx = fresh_list_ctx();
    ctx.seller_token_account.mint = PAY_MINT;
    ctx.seller_token_account.amount = 0;
    assert_eq!(
        list_nft(&mut ctx, 100, None),
        Err(OpError::Marketplace(MarketplaceError::InvalidMint))
    );
}

#[test]
fn list_without_the_unit_fails_token_balance() {
    let mut ctx = fresh_list_ctx();
    ctx.seller_token_account.amount = 0;
    let before = ctx;
    assert_eq!(list_nft(&mut ctx, 100, None), Err(OpError::TokenBalance));
    assert_eq!(ctx, before);
}

#[test]
fn list_then_cancel_returns_asset_and_leaves_no_records() {
    let mut list_ctx = fresh_list_ctx();
    let original_holding = list_ctx.seller_token_account;
    assert_eq!(list_nft(&mut list_ctx, 100, None), Ok(()));

    let mut cancel_ctx = CancelNFT {
        nft_listing: list_ctx.nft_listing,
        escrow_account: list_ctx.escrow_account,
        seller_token_account: list_ctx.seller_token_account,
        mint_key: NFT_MINT,
        seller: SELLER,
    };
    assert_eq!(cancel_nft(&mut cancel_ctx), Ok(()));
    assert_eq!(cancel_ctx.seller_token_account, original_holding);
    assert_eq!(cancel_ctx.nft_listing, None);
    assert_eq!(cancel_ctx.escrow_account, None);
}

#[test]
fn cancel_by_other_identity_fails_not_owner() {
    let mut ctx = CancelNFT {
        nft_listing: Some(NFTListing { seller: SELLER, price: 100, payment_mint: None }),
        escrow_account: Some(TokenAccount { mint: NFT_MINT, owner: ESCROW_AUTH, amount: 1 }),
        seller_token_account: TokenAccount { mint: NFT_MINT, owner: BUYER, amount: 0 },
        mint_key: NFT_MINT,
        seller: BUYER,
    };
    let before = ctx;
    assert_eq!(
        cancel_nft(&mut ctx),
        Err(OpError::Marketplace(MarketplaceError::NotOwner))
    );
    assert_eq!(ctx, before);
}

#[test]
fn cancel_without_listing_fails_record_missing() {
    let mut ctx = CancelNFT {
        nft_listing: None,
        escrow_account: None,
        seller_token_account: TokenAccount { mint: NFT_MINT, owner: SELLER, amount: 1 },
        mint_key: NFT_MINT,
        seller: SELLER,
    };
    assert_eq!(cancel_nft(&mut ctx), Err(OpError::RecordMissing));
}

#[test]
fn buy_native_round_trip_pays_seller_and_delivers_asset() {
    let mut list_ctx = fresh_list_ctx();
    assert_eq!(list_nft(&mut list_ctx, 100, None), Ok(()));

    let mut buy_ctx = BuyNFT {
        nft_listing: list_ctx.nft_listing,
        escrow_account: list_ctx.escrow_account,
        buyer_token_account: TokenAccount { mint: NFT_MINT, owner: BUYER, amount: 0 },
        mint_key: NFT_MINT,
        buyer_payment_account: None,
        seller_payment_account: None,
        payment_mint: None,
        buyer: BUYER,
        seller: SELLER,
        buyer_lamports: 1_000,
        seller_lamports: 50,
    };
    assert_eq!(buy_nft(&mut buy_ctx), Ok(()));
    assert_eq!(buy_ctx.buyer_lamports, 900);
    assert_eq!(buy_ctx.seller_lamports, 150);
    assert_eq!(
        buy_ctx.buyer_token_account,
        TokenAccount { mint: NFT_MINT, owner: BUYER, amount: 1 }
    );
    assert_eq!(buy_ctx.nft_listing, None);
    assert_eq!(buy_ctx.escrow_account, None);
}

#[test]
fn buy_token_listing_with_native_payment_fails_mismatch() {
    let mut ctx = listed_buy_ctx(100, Some(PAY_MINT));
    let before = ctx;
    assert_eq!(
        buy_nft(&mut ctx),
        Err(OpError::Marketplace(MarketplaceError::PaymentMintMismatch))
    );
    assert_eq!(ctx, before);
}

#[test]
fn buy_with_token_payment_moves_price_between_payment_accounts() {
    let mut ctx = listed_buy_ctx(100, Some(PAY_MINT));
    ctx.payment_mint = Some(PAY_MINT);
    ctx.buyer_payment_account = Some(TokenAccount { mint: PAY_MINT, owner: BUYER, amount: 400 });
    ctx.seller_payment_account = Some(TokenAccount { mint: PAY_MINT, owner: SELLER, amount: 7 });
    assert_eq!(buy_nft(&mut ctx), Ok(()));
    assert_eq!(
        ctx.buyer_payment_account,
        Some(TokenAccount { mint: PAY_MINT, owner: BUYER, amount: 300 })
    );
    assert_eq!(
        ctx.seller_payment_account,
        Some(TokenAccount { mint: PAY_MINT, owner: SELLER, amount: 107 })
    );
    assert_eq!(ctx.buyer_token_account.amount, 1);
    assert_eq!(ctx.nft_listing, None);
    assert_eq!(ctx.escrow_account, None);
    assert_eq!(ctx.buyer_lamports, 1_000);
    assert_eq!(ctx.seller_lamports, 50);
}

#[test]
fn buy_with_wrong_currency_identity_fails_mismatch() {
    let mut ctx = listed_buy_ctx(100, Some(PAY_MINT));
    ctx.payment_mint = Some(PAY_MINT + 1);
    ctx.buyer_payment_account = Some(TokenAccount { mint: PAY_MINT, owner: BUYER, amount: 400 });
    ctx.seller_payment_account = Some(TokenAccount { mint: PAY_MINT, owner: SELLER, amount: 0 });
    let before = ctx;
    assert_eq!(
        buy_nft(&mut ctx),
        Err(OpError::Marketplace(MarketplaceError::PaymentMintMismatch))
    );
    assert_eq!(ctx, before);
}

#[test]
fn buy_with_payment_account_of_other_currency_fails_mismatch() {
    let mut ctx = listed_buy_ctx(100, Some(PAY_MINT));
    ctx.payment_mint = Some(PAY_MINT);
    ctx.buyer_payment_account = Some(TokenAccount { mint: PAY_MINT + 1, owner: BUYER, amount: 400 });
    ctx.seller_payment_account = Some(TokenAccount { mint: PAY_MINT, owner: SELLER, amount: 0 });
    assert_eq!(
        buy_nft(&mut ctx),
        Err(OpError::Marketplace(MarketplaceError::PaymentMintMismatch))
    );
}

#[test]
fn buy_with_wrong_seller_identity_fails_not_owner() {
    let mut ctx = listed_buy_ctx(100, None);
    ctx.seller = BUYER;
    let before = ctx;
    assert_eq!(
        buy_nft(&mut ctx),
        Err(OpError::Marketplace(MarketplaceError::NotOwner))
    );
    assert_eq!(ctx, before);
}

#[test]
fn buy_with_insufficient_native_balance_fails_sol_balance() {
    let mut ctx = listed_buy_ctx(2_000, None);
    let before = ctx;
    assert_eq!(
        buy_nft(&mut ctx),
        Err(OpError::Marketplace(MarketplaceError::SOLBalance))
    );
    assert_eq!(ctx, before);
}

#[test]
fn buy_with_insufficient_token_balance_fails_token_balance() {
    let mut ctx = listed_buy_ctx(100, Some(PAY_MINT));
    ctx.payment_mint = Some(PAY_MINT);
    ctx.buyer_payment_account = Some(TokenAccount { mint: PAY_MINT, owner: BUYER, amount: 99 });
    ctx.seller_payment_account = Some(TokenAccount { mint: PAY_MINT, owner: SELLER, amount: 0 });
    let before = ctx;
    assert_eq!(buy_nft(&mut ctx), Err(OpError::TokenBalance));
    assert_eq!(ctx, before);
}

#[test]
fn buy_with_foreign_holding_account_fails_invalid_mint() {
    let mut ctx = listed_buy_ctx(100, None);
    ctx.buyer_token_account.mint = PAY_MINT;
    assert_eq!(
        buy_nft(&mut ctx),
        Err(OpError::Marketplace(MarketplaceError::InvalidMint))
    );
}

#[test]
fn second_buy_of_same_listing_fails_record_missing() {
    let mut first = listed_buy_ctx(100, None);
    assert_eq!(buy_nft(&mut first), Ok(()));

    let mut second = listed_buy_ctx(100, None);
    second.nft_listing = first.nft_listing;
    second.escrow_account = first.escrow_account;
    second.buyer = BUYER + 1;
    second.buyer_token_account.owner = BUYER + 1;
    let before = second;
    assert_eq!(buy_nft(&mut second), Err(OpError::RecordMissing));
    assert_eq!(second, before);
}
