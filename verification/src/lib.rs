//! Rate-limited token minting and proportional batch distribution.
//!
//! The library is the decision core of a token-issuing system. It enforces
//! two independent safety rules: a global mint may fire at most once per
//! calendar day, and a batch distribution must allocate a shared pool
//! proportionally to recipient-supplied weights, split across discrete
//! transfers that agree with one committed total.
//!
//! Account storage, signatures and transport belong to an external ledger
//! store. The core works on plain values: identities, balances and
//! timestamps are handed in by the surrounding store, and every mutation
//! the core performs on them is stated in its contracts.

pub mod distribution;
pub mod error;
pub mod ledger;
pub mod mint_gate;
pub mod percentage;
