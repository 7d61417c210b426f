//! Validation of change rules in a key-authority ledger: whether a proposed
//! threshold policy for an identity's keys may enter the shared history.
//!
//! Every validator is a pure function of the entry and of what the ledger
//! holds for it. A lookup that has not resolved yet is an input like any
//! other (`Resolved::Missing`), and the validators answer it by deferring on
//! the missing address rather than by rejecting. Signature checks are named
//! by the library and performed by the host; their results come back in.

pub mod authorization;
pub mod entry;
pub mod hash;
pub mod laws;
pub mod leaf;
pub mod outcome;
pub mod validate;
