//! An escrow-mediated marketplace for unique, indivisible digital assets.
//!
//! A seller locks the single unit of a unique asset into an escrow holding
//! account and records a price and an accepted payment currency; a buyer
//! atomically exchanges payment for the asset; until then the seller may
//! reclaim it. The modules model the ledger records the operations touch as
//! plain values, state the effect of every operation as a transition, and
//! prove the marketplace's guarantees over those transitions.

pub mod authority;
pub mod error;
pub mod instructions;
pub mod laws;
pub mod state;
