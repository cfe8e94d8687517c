//! The rental transaction record and its lifecycle transitions.

use vstd::prelude::*;
use crate::errors::ErrorCode;
use crate::events::AdminIntervention;
use crate::events::RentalCancelledByOwner;
use crate::events::RentalCancelledByRenter;
use crate::events::RentalCancelledByRenterPaid;
use crate::events::RentalCompleted;
use crate::events::RentalPaymentCompleted;
use crate::events::RentalTransactionCreated;
use crate::shares::lemma_completion_split;
use crate::shares::lemma_pct_share_bounds;
use crate::shares::lemma_pct_share_whole;
use crate::shares::lemma_resolution_split;
use crate::shares::pct_share;
use crate::shares::BPS_DENOMINATOR;
use crate::shares::FULL_REFUND_BPS;
use crate::shares::HALF_REFUND_BPS;
use crate::state::byte_len;
use crate::state::AccountId;
use crate::state::GlobalState;
use crate::state::TransactionStatus;

verus! {

/// One day in seconds: the completion grace period and the cancellation
/// deadlines are all measured against this window.
pub const ONE_DAY_SECONDS: i64 = 86400;

/// Longest accepted booking identifier, in bytes.
pub const MAX_BOOKING_ID_BYTES: usize = 64;

/// Longest accepted resolution reason, in bytes.
pub const MAX_REASON_BYTES: usize = 256;

/// One rental transaction record: the central entity, one instance per
/// booking attempt.
///
/// `escrow_balance` models the custodial account whose sole spending
/// authority is this record: callers move real value only as the transitions
/// direct, so the field tracks exactly what the escrow holds.
#[derive(Clone, Debug)]
pub struct RentalTransaction {
    pub product_id: u64,
    pub renter: AccountId,
    pub owner_wallet: AccountId,
    pub total_amount: u64,
    pub rental_start: i64,
    pub rental_end: i64,
    pub booking_id: String,
    pub status: TransactionStatus,
    pub created_at: i64,
    pub paid_at: Option<i64>,
    pub completed_at: Option<i64>,
    pub resolution_reason: Option<String>,
    pub escrow_balance: u64,
}

impl RentalTransaction {
    /// Well-formedness: what creation establishes and every transition
    /// preserves. In particular the escrow holds exactly the total while the
    /// record is `Paid` and exactly zero in every other state, so a terminal
    /// record owes nobody anything.
    pub open spec fn wf(self) -> bool {
        &&& self.total_amount > 0
        &&& self.rental_end > self.rental_start
        &&& byte_len(self.booking_id@) <= MAX_BOOKING_ID_BYTES
        &&& self.escrow_balance == if self.status == TransactionStatus::Paid {
            self.total_amount
        } else {
            0u64
        }
        &&& self.status.is_terminal() <==> self.completed_at is Some
        &&& (self.status == TransactionStatus::Paid || self.status
            == TransactionStatus::Completed || self.status == TransactionStatus::Resolved)
            ==> self.paid_at is Some
        &&& self.status == TransactionStatus::Created ==> self.paid_at is None
        &&& (self.status == TransactionStatus::Resolved <==> self.resolution_reason is Some)
        &&& self.resolution_reason matches Some(reason) ==> byte_len(reason@)
            <= MAX_REASON_BYTES
    }

    /// Capture the payment: move exactly the total amount from the payer into
    /// escrow and mark the record `Paid`. Only a record in `Created` accepts
    /// a payment, and only for its exact total (no partial or over-payment).
    /// On success the caller owes the escrow account a transfer of `amount`
    /// from the payer.
    pub fn pay_rental(&mut self, amount: u64, payer: AccountId, now: i64) -> (r: Result<
        RentalPaymentCompleted,
        ErrorCode,
    >)
        requires
            old(self).wf(),
        ensures
            final(self).wf(),
            r is Ok <==> old(self).status == TransactionStatus::Created && amount == old(
                self,
            ).total_amount,
            match r {
                Ok(ev) => {
                    &&& *final(self) == (RentalTransaction {
                        status: TransactionStatus::Paid,
                        paid_at: Some(now),
                        escrow_balance: old(self).total_amount,
                        ..*old(self)
                    })
                    &&& ev.booking_id == old(self).booking_id
                    &&& ev.amount == amount
                    &&& ev.renter == payer
                },
                Err(e) => {
                    &&& *final(self) == *old(self)
                    &&& (e == ErrorCode::InvalidTransactionStatus <==> old(self).status
                        != TransactionStatus::Created)
                    &&& (e == ErrorCode::IncorrectPaymentAmount <==> old(self).status
                        == TransactionStatus::Created && amount != old(self).total_amount)
                },
            },
    {
        if !(self.status == TransactionStatus::Created) {
            return Err(ErrorCode::InvalidTransactionStatus);
        }
        if amount != self.total_amount {
            return Err(ErrorCode::IncorrectPaymentAmount);
        }
        self.status = TransactionStatus::Paid;
        self.paid_at = Some(now);
        self.escrow_balance = amount;
        Ok(RentalPaymentCompleted { booking_id: self.booking_id.clone(), amount, renter: payer })
    }

    /// Who may trigger completion: the renter, the owner, or the platform
    /// administrator.
    pub open spec fn completion_authorized(self, config: GlobalState, caller: AccountId) -> bool {
        caller == self.renter || caller == self.owner_wallet || caller == config.admin
    }

    /// When completion may run: the renter may force it at any time after
    /// payment; anyone else must wait until one full day past the rental end.
    pub open spec fn completion_due(self, caller: AccountId, now: i64) -> bool {
        caller == self.renter || now >= self.rental_end + ONE_DAY_SECONDS
    }

    /// Conclude the rental and pay out the escrow: the platform keeps
    /// `floor(total * fee_rate / 10000)` and the owner receives the exact
    /// remainder, so the two payouts always sum to the total. On success the
    /// caller owes the owner and the administrator the two transfers the
    /// event reports, both out of escrow.
    pub fn complete_rental(
        &mut self,
        config: &GlobalState,
        caller: AccountId,
        now: i64,
    ) -> (r: Result<RentalCompleted, ErrorCode>)
        requires
            old(self).wf(),
            config.wf(),
        ensures
            final(self).wf(),
            r is Ok <==> old(self).status == TransactionStatus::Paid && old(
                self,
            ).completion_authorized(*config, caller) && old(self).completion_due(caller, now),
            match r {
                Ok(ev) => {
                    &&& *final(self) == (RentalTransaction {
                        status: TransactionStatus::Completed,
                        completed_at: Some(now),
                        escrow_balance: 0,
                        ..*old(self)
                    })
                    &&& ev.platform_fee == pct_share(
                        old(self).total_amount,
                        config.platform_fee_rate,
                    )
                    &&& ev.owner_amount == old(self).total_amount - ev.platform_fee
                    &&& ev.owner_amount + ev.platform_fee == old(self).total_amount
                    &&& ev.booking_id == old(self).booking_id
                    &&& ev.completed_by == caller
                },
                Err(e) => {
                    &&& *final(self) == *old(self)
                    &&& (e == ErrorCode::InvalidTransactionStatus <==> old(self).status
                        != TransactionStatus::Paid)
                    &&& (e == ErrorCode::UnauthorizedCompletion <==> old(self).status
                        == TransactionStatus::Paid && !old(self).completion_authorized(
                        *config,
                        caller,
                    ))
                    &&& (e == ErrorCode::CompletionNotAllowed <==> old(self).status
                        == TransactionStatus::Paid && old(self).completion_authorized(
                        *config,
                        caller,
                    ) && !old(self).completion_due(caller, now))
                },
            },
    {
        if !(self.status == TransactionStatus::Paid) {
            return Err(ErrorCode::InvalidTransactionStatus);
        }
        if !(caller == self.renter || caller == self.owner_wallet || caller == config.admin) {
            return Err(ErrorCode::UnauthorizedCompletion);
        }
        let due = (now as i128) >= (self.rental_end as i128) + (ONE_DAY_SECONDS as i128);
        if !(due || caller == self.renter) {
            return Err(ErrorCode::CompletionNotAllowed);
        }
        let total = self.total_amount;
        proof {
            lemma_completion_split(total, config.platform_fee_rate);
        }
        let platform_fee = (((total as u128) * (config.platform_fee_rate as u128)) / (
        BPS_DENOMINATOR as u128)) as u64;
        let owner_amount = total - platform_fee;
        self.status = TransactionStatus::Completed;
        self.completed_at = Some(now);
        self.escrow_balance = 0;
        Ok(RentalCompleted {
            booking_id: self.booking_id.clone(),
            owner_amount,
            platform_fee,
            completed_by: caller,
        })
    }

    /// Execute an administrator's numeric dispute decision over a paid
    /// record: the owner receives `floor(total * owner_bps / 10000)`, the
    /// renter `floor(total * renter_bps / 10000)`, and the platform the exact
    /// remainder, which absorbs all rounding loss, so the three payouts sum
    /// to the total. On success the caller owes the three transfers the event
    /// reports, all out of escrow (zero amounts move nothing).
    pub fn admin_intervene(
        &mut self,
        config: &GlobalState,
        caller: AccountId,
        owner_percentage: u16,
        renter_refund_percentage: u16,
        reason: String,
        now: i64,
    ) -> (r: Result<AdminIntervention, ErrorCode>)
        requires
            old(self).wf(),
        ensures
            final(self).wf(),
            r is Ok <==> caller == config.admin && owner_percentage + renter_refund_percentage
                <= BPS_DENOMINATOR && byte_len(reason@) <= MAX_REASON_BYTES && old(self).status
                == TransactionStatus::Paid,
            match r {
                Ok(ev) => {
                    &&& *final(self) == (RentalTransaction {
                        status: TransactionStatus::Resolved,
                        completed_at: Some(now),
                        resolution_reason: Some(reason),
                        escrow_balance: 0,
                        ..*old(self)
                    })
                    &&& ev.owner_amount == pct_share(old(self).total_amount, owner_percentage)
                    &&& ev.renter_refund == pct_share(
                        old(self).total_amount,
                        renter_refund_percentage,
                    )
                    &&& ev.platform_fee == old(self).total_amount - ev.owner_amount
                        - ev.renter_refund
                    &&& ev.owner_amount + ev.renter_refund + ev.platform_fee == old(
                        self,
                    ).total_amount
                    &&& ev.booking_id == old(self).booking_id
                    &&& ev.reason == reason
                    &&& ev.admin == caller
                },
                Err(e) => {
                    &&& *final(self) == *old(self)
                    &&& (e == ErrorCode::UnauthorizedAdmin <==> caller != config.admin)
                    &&& (e == ErrorCode::InvalidPercentages <==> caller == config.admin
                        && owner_percentage + renter_refund_percentage > BPS_DENOMINATOR)
                    &&& (e == ErrorCode::ReasonTooLong <==> caller == config.admin
                        && owner_percentage + renter_refund_percentage <= BPS_DENOMINATOR
                        && byte_len(reason@) > MAX_REASON_BYTES)
                    &&& (e == ErrorCode::InvalidTransactionStatus <==> caller == config.admin
                        && owner_percentage + renter_refund_percentage <= BPS_DENOMINATOR
                        && byte_len(reason@) <= MAX_REASON_BYTES && old(self).status
                        != TransactionStatus::Paid)
                },
            },
    {
        if !(caller == config.admin) {
            return Err(ErrorCode::UnauthorizedAdmin);
        }
        if (owner_percentage as u32) + (renter_refund_percentage as u32) > (BPS_DENOMINATOR
            as u32) {
            return Err(ErrorCode::InvalidPercentages);
        }
        if reason.as_str().len() > MAX_REASON_BYTES {
            return Err(ErrorCode::ReasonTooLong);
        }
        if !(self.status == TransactionStatus::Paid) {
            return Err(ErrorCode::InvalidTransactionStatus);
        }
        let total = self.total_amount;
        proof {
            lemma_resolution_split(total, owner_percentage, renter_refund_percentage);
        }
        let owner_amount = (((total as u128) * (owner_percentage as u128)) / (BPS_DENOMINATOR
            as u128)) as u64;
        let renter_refund = (((total as u128) * (renter_refund_percentage as u128)) / (
        BPS_DENOMINATOR as u128)) as u64;
        let platform_fee = total - owner_amount - renter_refund;
        let ev = AdminIntervention {
            booking_id: self.booking_id.clone(),
            owner_amount,
            renter_refund,
            platform_fee,
            reason: reason.clone(),
            admin: caller,
        };
        self.status = TransactionStatus::Resolved;
        self.completed_at = Some(now);
        self.resolution_reason = Some(reason);
        self.escrow_balance = 0;
        Ok(ev)
    }

    /// Cancel before payment. Only the renter may do so, and only while the
    /// record is still `Created`; no funds exist yet, so nothing moves.
    pub fn cancel_as_renter_created(&mut self, caller: AccountId, now: i64) -> (r: Result<
        RentalCancelledByRenter,
        ErrorCode,
    >)
        requires
            old(self).wf(),
        ensures
            final(self).wf(),
            r is Ok <==> caller == old(self).renter && old(self).status
                == TransactionStatus::Created,
            match r {
                Ok(ev) => {
                    &&& *final(self) == (RentalTransaction {
                        status: TransactionStatus::Cancelled,
                        completed_at: Some(now),
                        ..*old(self)
                    })
                    &&& final(self).escrow_balance == 0
                    &&& ev.booking_id == old(self).booking_id
                    &&& ev.renter == caller
                    &&& ev.cancelled_at == now
                },
                Err(e) => {
                    &&& *final(self) == *old(self)
                    &&& (e == ErrorCode::UnauthorizedCancellation <==> caller != old(self).renter)
                    &&& (e == ErrorCode::InvalidTransactionStatus <==> caller == old(self).renter
                        && old(self).status != TransactionStatus::Created)
                },
            },
    {
        if !(caller == self.renter) {
            return Err(ErrorCode::UnauthorizedCancellation);
        }
        if !(self.status == TransactionStatus::Created) {
            return Err(ErrorCode::InvalidTransactionStatus);
        }
        self.status = TransactionStatus::Cancelled;
        self.completed_at = Some(now);
        Ok(RentalCancelledByRenter {
            booking_id: self.booking_id.clone(),
            renter: caller,
            cancelled_at: now,
        })
    }

    /// The refund schedule when the renter cancels a paid rental: the whole
    /// amount with at least one day to spare before the rental starts, half
    /// of it otherwise.
    pub open spec fn renter_refund_bps(self, now: i64) -> u16 {
        if self.rental_start - now >= ONE_DAY_SECONDS {
            FULL_REFUND_BPS
        } else {
            HALF_REFUND_BPS
        }
    }

    /// Cancel after payment. Only the renter may do so, only while the
    /// record is `Paid`, and only strictly before the rental window begins.
    /// The renter is refunded `floor(total * refund_bps / 10000)` under the
    /// refund schedule and the platform keeps the exact complement as the
    /// cancellation fee, so the two sum to the total. On success the caller
    /// owes the two transfers the event reports, both out of escrow (zero
    /// amounts move nothing).
    pub fn cancel_as_renter_paid(&mut self, caller: AccountId, now: i64) -> (r: Result<
        RentalCancelledByRenterPaid,
        ErrorCode,
    >)
        requires
            old(self).wf(),
        ensures
            final(self).wf(),
            r is Ok <==> caller == old(self).renter && old(self).status
                == TransactionStatus::Paid && now < old(self).rental_start,
            match r {
                Ok(ev) => {
                    &&& *final(self) == (RentalTransaction {
                        status: TransactionStatus::Cancelled,
                        completed_at: Some(now),
                        escrow_balance: 0,
                        ..*old(self)
                    })
                    &&& ev.refund_amount == pct_share(
                        old(self).total_amount,
                        old(self).renter_refund_bps(now),
                    )
                    &&& ev.cancellation_fee == old(self).total_amount - ev.refund_amount
                    &&& ev.refund_amount + ev.cancellation_fee == old(self).total_amount
                    &&& old(self).rental_start - now >= ONE_DAY_SECONDS ==> ev.refund_amount
                        == old(self).total_amount
                    &&& ev.booking_id == old(self).booking_id
                    &&& ev.renter == caller
                    &&& ev.cancelled_at == now
                },
                Err(e) => {
                    &&& *final(self) == *old(self)
                    &&& (e == ErrorCode::UnauthorizedCancellation <==> caller != old(self).renter)
                    &&& (e == ErrorCode::InvalidTransactionStatus <==> caller == old(self).renter
                        && old(self).status != TransactionStatus::Paid)
                    &&& (e == ErrorCode::CancellationTooLate <==> caller == old(self).renter
                        && old(self).status == TransactionStatus::Paid && now >= old(
                        self,
                    ).rental_start)
                },
            },
    {
        if !(caller == self.renter) {
            return Err(ErrorCode::UnauthorizedCancellation);
        }
        if !(self.status == TransactionStatus::Paid) {
            return Err(ErrorCode::InvalidTransactionStatus);
        }
        if !((now as i128) < (self.rental_start as i128)) {
            return Err(ErrorCode::CancellationTooLate);
        }
        let full_refund = (self.rental_start as i128) - (now as i128) >= (ONE_DAY_SECONDS
            as i128);
        let refund_bps = if full_refund {
            FULL_REFUND_BPS
        } else {
            HALF_REFUND_BPS
        };
        let total = self.total_amount;
        proof {
            lemma_pct_share_bounds(total, refund_bps);
            if full_refund {
                lemma_pct_share_whole(total);
            }
        }
        let refund_amount = (((total as u128) * (refund_bps as u128)) / (BPS_DENOMINATOR
            as u128)) as u64;
        let cancellation_fee = total - refund_amount;
        self.status = TransactionStatus::Cancelled;
        self.completed_at = Some(now);
        self.escrow_balance = 0;
        Ok(RentalCancelledByRenterPaid {
            booking_id: self.booking_id.clone(),
            renter: caller,
            refund_amount,
            cancellation_fee,
            cancelled_at: now,
        })
    }

    /// Cancel by the owner. Only the owner may do so, only while the record
    /// is `Paid`, and only up to one full day before the rental starts (the
    /// deadline instant itself is still allowed). The renter is refunded the
    /// entire total, penalty-free: on success the caller owes the single
    /// escrow-to-renter transfer the event reports.
    pub fn cancel_as_owner(&mut self, caller: AccountId, now: i64) -> (r: Result<
        RentalCancelledByOwner,
        ErrorCode,
    >)
        requires
            old(self).wf(),
        ensures
            final(self).wf(),
            r is Ok <==> old(self).status == TransactionStatus::Paid && caller == old(
                self,
            ).owner_wallet && now <= old(self).rental_start - ONE_DAY_SECONDS,
            match r {
                Ok(ev) => {
                    &&& *final(self) == (RentalTransaction {
                        status: TransactionStatus::Cancelled,
                        completed_at: Some(now),
                        escrow_balance: 0,
                        ..*old(self)
                    })
                    &&& ev.refund_amount == old(self).total_amount
                    &&& ev.booking_id == old(self).booking_id
                    &&& ev.owner == caller
                    &&& ev.cancelled_at == now
                },
                Err(e) => {
                    &&& *final(self) == *old(self)
                    &&& (e == ErrorCode::InvalidTransactionStatus <==> old(self).status
                        != TransactionStatus::Paid)
                    &&& (e == ErrorCode::UnauthorizedOwnerCancellation <==> old(self).status
                        == TransactionStatus::Paid && caller != old(self).owner_wallet)
                    &&& (e == ErrorCode::OwnerCancellationTooLate <==> old(self).status
                        == TransactionStatus::Paid && caller == old(self).owner_wallet && now
                        > old(self).rental_start - ONE_DAY_SECONDS)
                },
            },
    {
        if !(self.status == TransactionStatus::Paid) {
            return Err(ErrorCode::InvalidTransactionStatus);
        }
        if !(caller == self.owner_wallet) {
            return Err(ErrorCode::UnauthorizedOwnerCancellation);
        }
        if !((now as i128) <= (self.rental_start as i128) - (ONE_DAY_SECONDS as i128)) {
            return Err(ErrorCode::OwnerCancellationTooLate);
        }
        let refund_amount = self.total_amount;
        self.status = TransactionStatus::Cancelled;
        self.completed_at = Some(now);
        self.escrow_balance = 0;
        Ok(RentalCancelledByOwner {
            booking_id: self.booking_id.clone(),
            owner: caller,
            refund_amount,
            cancelled_at: now,
        })
    }
}

/// No double spend out of a settled record: once a transaction has reached a
/// terminal status its escrow holds exactly nothing, so there is nothing left
/// to pay out twice. (That nothing further can run is each transition's own
/// contract: every one succeeds only from `Created` or `Paid`.)
pub proof fn lemma_terminal_escrow_empty(txn: RentalTransaction)
    requires
        txn.wf(),
        txn.status.is_terminal(),
    ensures
        txn.escrow_balance == 0,
{
}

/// Validate the booking intent and allocate a new record in status `Created`.
/// No funds move. Fails with `InvalidAmount` on a zero amount, then
/// `InvalidRentalPeriod` on a window that does not end after it starts, then
/// `BookingIdTooLong` past the identifier bound; on failure no record exists.
pub fn create_rental_transaction(
    product_id: u64,
    renter: AccountId,
    owner_wallet: AccountId,
    total_amount: u64,
    rental_start: i64,
    rental_end: i64,
    booking_id: String,
    now: i64,
) -> (r: Result<(RentalTransaction, RentalTransactionCreated), ErrorCode>)
    ensures
        r is Ok <==> total_amount > 0 && rental_end > rental_start && byte_len(booking_id@)
            <= MAX_BOOKING_ID_BYTES,
        match r {
            Ok((txn, ev)) => {
                &&& txn.wf()
                &&& txn.product_id == product_id
                &&& txn.renter == renter
                &&& txn.owner_wallet == owner_wallet
                &&& txn.total_amount == total_amount
                &&& txn.rental_start == rental_start
                &&& txn.rental_end == rental_end
                &&& txn.booking_id == booking_id
                &&& txn.status == TransactionStatus::Created
                &&& txn.created_at == now
                &&& txn.paid_at is None
                &&& txn.completed_at is None
                &&& txn.resolution_reason is None
                &&& txn.escrow_balance == 0
                &&& ev.product_id == product_id
                &&& ev.renter == renter
                &&& ev.owner_wallet == owner_wallet
                &&& ev.total_amount == total_amount
                &&& ev.booking_id == booking_id
            },
            Err(e) => {
                &&& (e == ErrorCode::InvalidAmount <==> total_amount == 0)
                &&& (e == ErrorCode::InvalidRentalPeriod <==> total_amount > 0 && rental_end
                    <= rental_start)
                &&& (e == ErrorCode::BookingIdTooLong <==> total_amount > 0 && rental_end
                    > rental_start && byte_len(booking_id@) > MAX_BOOKING_ID_BYTES)
            },
        },
{
    if total_amount == 0 {
        return Err(ErrorCode::InvalidAmount);
    }
    if rental_end <= rental_start {
        return Err(ErrorCode::InvalidRentalPeriod);
    }
    if booking_id.as_str().len() > MAX_BOOKING_ID_BYTES {
        return Err(ErrorCode::BookingIdTooLong);
    }
    let ev = RentalTransactionCreated {
        product_id,
        renter,
        owner_wallet,
        total_amount,
        booking_id: booking_id.clone(),
    };
    let txn = RentalTransaction {
        product_id,
        renter,
        owner_wallet,
        total_amount,
        rental_start,
        rental_end,
        booking_id,
        status: TransactionStatus::Created,
        created_at: now,
        paid_at: None,
        completed_at: None,
        resolution_reason: None,
        escrow_balance: 0,
    };
    Ok((txn, ev))
}

} // verus!
