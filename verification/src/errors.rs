//! The stable error kinds a rejected transition reports.

use vstd::prelude::*;

verus! {

/// Why a transition was rejected. Every rejection carries one specific kind,
/// and a rejected transition has no observable side effect.
#[derive(Clone, Copy, PartialEq, Eq, Structural, Debug)]
pub enum ErrorCode {
    /// The total amount of a new transaction must be positive.
    InvalidAmount,
    /// The rental window must end strictly after it starts.
    InvalidRentalPeriod,
    /// The booking identifier exceeds its size bound.
    BookingIdTooLong,
    /// The record's status is not the one the transition requires.
    InvalidTransactionStatus,
    /// A payment must match the total amount exactly.
    IncorrectPaymentAmount,
    /// Owner or administrator tried to complete before the grace period ran out.
    CompletionNotAllowed,
    /// Only the administrator may resolve a dispute.
    UnauthorizedAdmin,
    /// The owner and renter percentages exceed the whole.
    InvalidPercentages,
    /// The resolution reason exceeds its size bound.
    ReasonTooLong,
    /// A paid transaction cannot be cancelled through the pre-payment path.
    CannotCancelPaidTransaction,
    /// Only the renter may cancel through the renter paths.
    UnauthorizedCancellation,
    /// Only the owner may cancel through the owner path.
    UnauthorizedOwnerCancellation,
    /// The owner must cancel at least one day before the rental starts.
    OwnerCancellationTooLate,
    /// A completed transaction cannot be cancelled.
    CannotCancelCompletedTransaction,
    /// Only the renter, the owner or the administrator may complete.
    UnauthorizedCompletion,
    /// An arithmetic step would overflow.
    MathOverflow,
    /// The renter cannot cancel once the rental window has begun.
    CancellationTooLate,
}

} // verus!
