//! A minimal on-chain data-account reconciler.
//!
//! Given a user identity and an opaque byte payload, the reconciler drives a
//! single deterministically-derived storage account to a canonical end state:
//! funded at exactly the host's minimum balance for the payload's size, sized
//! to exactly the payload's length, and containing exactly the payload bytes.
//! Creation, funding, defunding, resizing and overwriting all happen in one
//! atomic invocation; the host runtime supplies atomicity, exclusive access
//! to the two accounts, the minimum-balance oracle, and the primitives that
//! move funds and memory.

pub mod authority;
pub mod laws;
pub mod reconcile;
pub mod state;
