//! Identities, persisted records, and per-operation call contexts.
//!
//! The enclosing ledger runtime addresses accounts by keys and verifies that
//! a caller has cryptographically authorized an operation; this core trusts
//! that verdict and works on the identities as plain values. Each operation
//! takes a context struct naming the accounts involved, with every identity
//! field standing for an already-verified signer or account key.

use vstd::prelude::*;

verus! {

/// The owner key marking an account as a plain, externally-owned account
/// (one belonging to the system itself rather than to a program). Only such
/// accounts may be trusted as fund destinations.
pub const SYSTEM_PROGRAM_ID: u64 = 0;

/// A reference to a ledger account: its address together with the key of the
/// program that owns it.
#[derive(Clone, Copy, Debug, PartialEq, Eq, Structural)]
pub struct AccountRef {
    pub key: u64,
    pub owner: u64,
}

impl AccountRef {
    /// Whether the account is externally owned, and so acceptable as a fee
    /// destination.
    pub open spec fn is_externally_owned(self) -> bool {
        self.owner == SYSTEM_PROGRAM_ID
    }
}

/// The platform-wide configuration singleton: the one identity empowered to
/// mutate configuration, the account receiving the platform's cut, and the
/// default fee percentage (always within 0 to 100).
#[derive(Clone, Copy, Debug, PartialEq, Eq, Structural)]
pub struct PlatformState {
    pub authority: u64,
    pub fee_destination: u64,
    pub fee_percentage: u64,
}

/// A per-creator fee override (at most one per creator): purchases for
/// `creator` are charged `fee_percentage` instead of the platform default.
#[derive(Clone, Copy, Debug, PartialEq, Eq, Structural)]
pub struct CreatorFeeDiscount {
    pub creator: u64,
    pub fee_percentage: u64,
}

/// Context of platform initialization: the signer that becomes the platform
/// authority, and the account that is to receive the platform's cut.
#[derive(Clone, Copy, Debug, PartialEq, Eq, Structural)]
pub struct InitializePlatform {
    pub authority: u64,
    pub fee_destination: AccountRef,
}

/// Context of a default-fee update: the signer claiming to be the authority.
#[derive(Clone, Copy, Debug, PartialEq, Eq, Structural)]
pub struct UpdateFee {
    pub authority: u64,
}

/// Context of a fee-destination update: the signer claiming to be the
/// authority, and the account that is to receive the platform's cut from now
/// on.
#[derive(Clone, Copy, Debug, PartialEq, Eq, Structural)]
pub struct UpdateFeeDestination {
    pub authority: u64,
    pub new_fee_destination: AccountRef,
}

/// Context of a purchase: the paying contributor, the creator being paid,
/// and the fee destination the caller supplied, which must match the stored
/// one.
#[derive(Clone, Copy, Debug, PartialEq, Eq, Structural)]
pub struct BuyCoffee {
    pub contributor: u64,
    pub creator: u64,
    pub fee_destination: u64,
}

/// Context of discount creation: the signer claiming to be the authority,
/// and the creator the new discount applies to.
#[derive(Clone, Copy, Debug, PartialEq, Eq, Structural)]
pub struct AddCreatorFeeDiscount {
    pub authority: u64,
    pub creator: u64,
}

/// Context of a discount update: the signer claiming to be the authority,
/// and the creator whose discount changes.
#[derive(Clone, Copy, Debug, PartialEq, Eq, Structural)]
pub struct UpdateCreatorFeeDiscount {
    pub authority: u64,
    pub creator: u64,
}

/// Context of discount removal: the signer claiming to be the authority
/// (who is credited the reclaimed storage), and the creator whose discount
/// is destroyed.
#[derive(Clone, Copy, Debug, PartialEq, Eq, Structural)]
pub struct RemoveCreatorDiscount {
    pub authority: u64,
    pub creator: u64,
}

} // verus!
