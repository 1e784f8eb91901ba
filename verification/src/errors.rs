//! The typed failures an operation can surface.
//!
//! Every operation either commits completely or fails with one of these and
//! leaves every record exactly as it found it.

use vstd::prelude::*;

verus! {

/// Why an operation was refused.
///
/// Validation errors (`EmptySlug`, `SlugTooLong`, `InvalidPrice`,
/// `InvalidDuration`, `InvalidDeposit`) reject malformed input before any
/// state is touched. State-precondition errors (`GatewayNotActive`,
/// `SessionNotActive`, `SessionExpired`) reject an operation the current
/// record state forbids. `Unauthorized` rejects a caller whose identity does
/// not match the role the operation demands. `UsageExceedsDeposit` rejects a
/// usage increment that would break the deposit bound (including one whose
/// sum would not even be representable). `CannotCancelWithUsage` rejects
/// cancellation of a session that has already metered usage.
#[derive(Clone, Copy, Debug, PartialEq, Eq, Structural)]
pub enum GatewaySessionError {
    EmptySlug,
    SlugTooLong,
    GatewayNotActive,
    InvalidPrice,
    Unauthorized,
    SessionNotActive,
    SessionExpired,
    UsageExceedsDeposit,
    CannotCancelWithUsage,
    InvalidDuration,
    InvalidDeposit,
}

} // verus!
