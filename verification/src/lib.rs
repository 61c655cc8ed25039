//! A verified settlement and state-transition engine for fractional
//! real-estate ownership ledgers.
//!
//! Ledger records (properties, token holdings, marketplace listings,
//! registry attestations) are plain values; every transition that mutates
//! them is an ordinary function with a contract that pins down exactly
//! which inputs succeed, which error each rejected input produces, and how
//! the records change.  The execution host that loads records, verifies
//! cryptographic signers and moves token units or value between accounts
//! stays outside the library: transitions receive the authenticated signer
//! identity and current timestamp as arguments and report the transfers to
//! perform as returned effect values.

pub mod codec;
pub mod instruction;
pub mod marketplace;
pub mod processor;
pub mod registry;
pub mod state;
pub mod tokenization;
pub mod utils;
