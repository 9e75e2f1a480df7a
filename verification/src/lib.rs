//! A verified payment-splitting core for a creator-tipping platform.
//!
//! A contributor buys a number of unit-priced "coffees" for a creator, and the
//! payment is split atomically between the creator and a platform fee
//! destination according to a configurable percentage, with optional
//! per-creator fee overrides.
//!
//! The crate proves the three things the platform must never get wrong:
//! - the split never mints or loses value: fee plus creator amount equals
//!   units times unit price exactly, with every intermediate checked against
//!   64-bit overflow;
//! - only the stored authority can mutate platform configuration or the
//!   discount registry, and a rejected call leaves all state unchanged;
//! - the fee rate that applies to a purchase is resolved deterministically:
//!   a creator's discount, while it exists, supersedes the platform default.
//!
//! The surrounding ledger runtime (account storage, signature verification,
//! and the primitive that physically moves value) is the execution
//! environment, not part of this crate: operations take the caller identity
//! and account references as plain values, and a purchase returns a
//! [`platform::PurchaseReceipt`] naming the two transfers the runtime must
//! perform as one atomic unit.

pub mod accounts;
pub mod errors;
pub mod events;
pub mod fees;
pub mod platform;
