//! Notification payloads.
//!
//! Every successful transition returns one of these values. The caller
//! delivers it to whatever notification channel it uses; the payload fields
//! are exactly the values the transition used or mutated, so the amounts in a
//! payout-carrying event are also the transfers the caller must execute
//! against its value-transfer facility.

use vstd::prelude::*;
use crate::state::AccountId;

verus! {

/// A new rental transaction record was created. No funds moved.
#[derive(Clone, Debug)]
pub struct RentalTransactionCreated {
    pub product_id: u64,
    pub renter: AccountId,
    pub owner_wallet: AccountId,
    pub total_amount: u64,
    pub booking_id: String,
}

/// The renter funded the escrow: `amount` moved from the payer to the escrow
/// account.
#[derive(Clone, Debug)]
pub struct RentalPaymentCompleted {
    pub booking_id: String,
    pub amount: u64,
    pub renter: AccountId,
}

/// The rental completed normally: `owner_amount` moved from escrow to the
/// owner and `platform_fee` from escrow to the administrator.
#[derive(Clone, Debug)]
pub struct RentalCompleted {
    pub booking_id: String,
    pub owner_amount: u64,
    pub platform_fee: u64,
    pub completed_by: AccountId,
}

/// The administrator resolved a dispute: `owner_amount`, `renter_refund` and
/// `platform_fee` moved from escrow to the owner, the renter and the
/// administrator respectively (zero amounts move nothing).
#[derive(Clone, Debug)]
pub struct AdminIntervention {
    pub booking_id: String,
    pub owner_amount: u64,
    pub renter_refund: u64,
    pub platform_fee: u64,
    pub reason: String,
    pub admin: AccountId,
}

/// The renter cancelled before paying. No funds moved.
#[derive(Clone, Debug)]
pub struct RentalCancelledByRenter {
    pub booking_id: String,
    pub renter: AccountId,
    pub cancelled_at: i64,
}

/// The owner cancelled ahead of the rental: the full `refund_amount` moved
/// from escrow back to the renter.
#[derive(Clone, Debug)]
pub struct RentalCancelledByOwner {
    pub booking_id: String,
    pub owner: AccountId,
    pub refund_amount: u64,
    pub cancelled_at: i64,
}

/// The renter cancelled after paying: `refund_amount` moved from escrow back
/// to the renter and `cancellation_fee` from escrow to the administrator
/// (zero amounts move nothing).
#[derive(Clone, Debug)]
pub struct RentalCancelledByRenterPaid {
    pub booking_id: String,
    pub renter: AccountId,
    pub refund_amount: u64,
    pub cancellation_fee: u64,
    pub cancelled_at: i64,
}

} // verus!
