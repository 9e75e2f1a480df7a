//! Change notifications.
//!
//! Each successful operation returns the notification it would emit, carrying
//! the literal field values that changed. Notifications are fire-and-forget:
//! no component of the core depends on them, they exist for outside
//! observers, and the enclosing runtime is free to publish or drop them.

use vstd::prelude::*;

verus! {

/// The platform singleton was created.
#[derive(Clone, Copy, Debug, PartialEq, Eq, Structural)]
pub struct PlatformInitialized {
    pub authority: u64,
    pub fee_destination: u64,
    pub fee_percentage: u64,
}

/// The platform default fee percentage changed.
#[derive(Clone, Copy, Debug, PartialEq, Eq, Structural)]
pub struct FeeUpdated {
    pub new_fee_percentage: u64,
}

/// The platform fee destination changed.
#[derive(Clone, Copy, Debug, PartialEq, Eq, Structural)]
pub struct FeeDestinationUpdated {
    pub new_fee_destination: u64,
}

/// A purchase completed: both transfers of the split are owed.
#[derive(Clone, Copy, Debug, PartialEq, Eq, Structural)]
pub struct CoffeePurchased {
    pub contributor: u64,
    pub creator: u64,
    pub total_amount: u64,
    pub fee_amount: u64,
    pub creator_amount: u64,
}

/// A per-creator fee discount was created.
#[derive(Clone, Copy, Debug, PartialEq, Eq, Structural)]
pub struct CreatorFeeDiscountAdded {
    pub creator: u64,
    pub fee_percentage: u64,
}

/// An existing per-creator fee discount changed in place.
#[derive(Clone, Copy, Debug, PartialEq, Eq, Structural)]
pub struct CreatorFeeDiscountUpdated {
    pub creator: u64,
    pub new_fee_percentage: u64,
}

/// A per-creator fee discount was destroyed and its storage reclaimed.
#[derive(Clone, Copy, Debug, PartialEq, Eq, Structural)]
pub struct CreatorFeeDiscountRemoved {
    pub creator: u64,
}

} // verus!
