//! A fund-custody and conditional-disbursement engine.
//!
//! Donors deposit value into named pools; a pool may be wrapped in a
//! campaign that escrows raised funds behind a sequence of milestones.
//! Funds are released to a fixed recipient only as milestones are
//! approved, and donors may reclaim an unreleased share once the
//! campaign's deadline passes without full completion.
//!
//! The engine is pure state-transition logic: the hosting ledger runtime
//! resolves accounts, authenticates callers, applies each operation
//! atomically and supplies the current time. Identities are opaque
//! numeric keys and account balances are plain integers handed in by the
//! caller of each operation.

pub mod campaign;
pub mod conservation;
pub mod errors;
pub mod events;
pub mod pool;
