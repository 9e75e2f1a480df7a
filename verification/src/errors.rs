//! The error taxonomy of the platform.
//!
//! Every validation failure aborts the whole operation and is surfaced
//! verbatim as one of these codes; nothing is retried or downgraded.

use vstd::prelude::*;

verus! {

/// Why an operation was rejected.
#[derive(Clone, Copy, Debug, PartialEq, Eq, Structural)]
pub enum ErrorCode {
    /// A fee percentage outside the permitted range of 0 to 100.
    InvalidFeePercentage,
    /// The caller is not the stored platform authority.
    Unauthorized,
    /// A fee destination that does not match the stored one, or that is not
    /// an externally-owned account.
    InvalidFeeDestination,
    /// A purchase of zero units.
    InvalidUnits,
    /// A purchase at a unit price of zero.
    InvalidUnitPrice,
    /// An intermediate amount exceeded the 64-bit unsigned range.
    ArithmeticOverflow,
    /// A record that the operation needs does not exist: the platform has not
    /// been initialized, or no discount is registered for the creator.
    AccountNotFound,
    /// A record that the operation would create already exists: the platform
    /// singleton, or a discount for the same creator.
    AccountAlreadyExists,
}

} // verus!
