//! Fund-split arithmetic: floor division for the rounded buckets, the final
//! bucket as the exact remainder, so every split reconciles to the total.

use kairoria_rental::state::{AccountId, GlobalState, TransactionStatus};
use kairoria_rental::transaction::{create_rental_transaction, RentalTransaction};

const RENTER: AccountId = AccountId(1);
const OWNER: AccountId = AccountId(2);
const ADMIN: AccountId = AccountId(9);

fn paid(total: u64) -> RentalTransaction {
    let (mut txn, _ev) = create_rental_transaction(
        7,
        RENTER,
        OWNER,
        total,
        1_000,
        2_000,
        String::from("bk"),
        100,
    )
    .unwrap();
    txn.pay_rental(total, RENTER, 200).unwrap();
    txn
}

fn cfg_with_rate(rate: u16) -> GlobalState {
    GlobalState {
        admin: ADMIN,
        platform_fee_rate: rate,
    }
}

#[test]
fn completion_fee_is_floored_and_reconciles() {
    let cases: [(u64, u16, u64); 6] = [
        (1_000_000, 1_000, 100_000),
        (9_999, 1_000, 999),
        (1, 1_000, 0),
        (3, 3_333, 0),
        (10_001, 9_999, 9_999),
        (u64::MAX, 10_000, u64::MAX),
    ];
    for (total, rate, expected_fee) in cases {
        let mut txn = paid(total);
        let ev = txn.complete_rental(&cfg_with_rate(rate), RENTER, 300).unwrap();
        assert_eq!(ev.platform_fee, expected_fee);
        assert_eq!(ev.owner_amount, total - expected_fee);
        assert_eq!(ev.owner_amount + ev.platform_fee, total);
        assert_eq!(txn.escrow_balance, 0);
    }
}

#[test]
fn completion_zero_rate_gives_owner_everything() {
    let mut txn = paid(12_345);
    let ev = txn.complete_rental(&cfg_with_rate(0), RENTER, 300).unwrap();
    assert_eq!(ev.platform_fee, 0);
    assert_eq!(ev.owner_amount, 12_345);
}

#[test]
fn resolution_remainder_absorbs_rounding_loss() {
    let cases: [(u64, u16, u16); 5] = [
        (10_001, 3_333, 3_333),
        (1_000_000, 2_500, 6_000),
        (1, 5_000, 4_999),
        (u64::MAX, 9_999, 1),
        (999, 0, 0),
    ];
    for (total, owner_bps, renter_bps) in cases {
        let mut txn = paid(total);
        let ev = txn
            .admin_intervene(
                &cfg_with_rate(1_000),
                ADMIN,
                owner_bps,
                renter_bps,
                String::from("split"),
                300,
            )
            .unwrap();
        let expected_owner = ((total as u128) * (owner_bps as u128) / 10_000) as u64;
        let expected_renter = ((total as u128) * (renter_bps as u128) / 10_000) as u64;
        assert_eq!(ev.owner_amount, expected_owner);
        assert_eq!(ev.renter_refund, expected_renter);
        assert_eq!(ev.platform_fee, total - expected_owner - expected_renter);
        assert_eq!(ev.owner_amount + ev.renter_refund + ev.platform_fee, total);
        assert_eq!(txn.status, TransactionStatus::Resolved);
        assert_eq!(txn.escrow_balance, 0);
    }
}

#[test]
fn resolution_whole_to_one_party_is_exact() {
    let mut txn = paid(777);
    let ev = txn
        .admin_intervene(
            &cfg_with_rate(1_000),
            ADMIN,
            0,
            10_000,
            String::from("refund all"),
            300,
        )
        .unwrap();
    assert_eq!(ev.owner_amount, 0);
    assert_eq!(ev.renter_refund, 777);
    assert_eq!(ev.platform_fee, 0);
}

#[test]
fn renter_cancellation_fee_is_exact_complement() {
    let start: i64 = 1_000_000;
    let (mut txn, _ev) = create_rental_transaction(
        7,
        RENTER,
        OWNER,
        u64::MAX,
        start,
        start + 1,
        String::from("bk"),
        100,
    )
    .unwrap();
    txn.pay_rental(u64::MAX, RENTER, 200).unwrap();
    let ev = txn.cancel_as_renter_paid(RENTER, start - 1).unwrap();
    let expected_refund = ((u64::MAX as u128) * 5_000 / 10_000) as u64;
    assert_eq!(ev.refund_amount, expected_refund);
    assert_eq!(ev.cancellation_fee, u64::MAX - expected_refund);
    assert_eq!(ev.refund_amount + ev.cancellation_fee, u64::MAX);
}
