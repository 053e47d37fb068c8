//! The failure taxonomy of the marketplace operations.

use vstd::prelude::*;

verus! {

/// The marketplace's own named validation failures. Every one is
/// caller-visible and non-retriable; none is transient.
#[derive(Clone, Copy, Debug, PartialEq, Eq)]
pub enum MarketplaceError {
    /// The payer's native-currency balance cannot cover the payment.
    SOLBalance,
    /// The asset fails the uniqueness constraints, or a supplied holding
    /// account is not denominated in the expected asset.
    InvalidMint,
    /// The listing price is not strictly positive.
    InvalidPrice,
    /// The caller is not the recorded seller, or the supplied seller identity
    /// does not match the listing.
    NotOwner,
    /// The buyer's, seller's and listing's currency arguments are
    /// inconsistent with each other or with the listing's recorded currency.
    PaymentMintMismatch,
}

/// The single outcome a caller sees from an operation: success, one of the
/// marketplace's own named errors, or a refusal by the host ledger's record
/// and transfer primitives (the operations never roll anything back
/// themselves; the host applies each operation all-or-nothing).
#[derive(Clone, Copy, Debug, PartialEq, Eq)]
pub enum OpError {
    /// One of the marketplace's own named validation failures.
    Marketplace(MarketplaceError),
    /// The record-creation primitive refused: the record already exists.
    /// Raised when the marketplace configuration is initialized twice.
    RecordExists,
    /// A required record (the listing or the escrow holding account) does not
    /// exist — in particular, it was already destroyed by a completed sale or
    /// cancellation that the host ordered first.
    RecordMissing,
    /// The fungible-token transfer primitive refused the move: the source
    /// holds fewer units than the transfer asks for.
    TokenBalance,
}

} // verus!
