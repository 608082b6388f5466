//! The lock operation: fee arithmetic, guards, and per-user records.

use lock_release::Address;
use lock_release::ContractError;
use lock_release::LockAndReleaseContract;
use lock_release::LockOutcome;
use lock_release::MAX_LOCK_AMOUNT;

const OWNER: Address = Address { id: 1 };
const ADMIN: Address = Address { id: 2 };
const USER: Address = Address { id: 3 };
const FROM_TOKEN: Address = Address { id: 10 };
const SRC_TOKEN: Address = Address { id: 11 };

fn configured() -> LockAndReleaseContract {
    let mut c = LockAndReleaseContract::new();
    c.initialize(OWNER, OWNER).unwrap();
    c.set_admin(OWNER, ADMIN).unwrap();
    c
}

fn lock_amount(
    c: &mut LockAndReleaseContract,
    user: Address,
    amount: i128,
) -> Result<LockOutcome, ContractError> {
    c.lock(
        user,
        user,
        FROM_TOKEN,
        String::from("wUSDC"),
        SRC_TOKEN,
        amount,
        vec![7u8, 7u8],
        String::from("dest-recipient"),
    )
}

#[test]
fn thousand_units_pay_thirty_fee() {
    let mut c = configured();
    c.set_revenue_address(OWNER, Address { id: 4 }).unwrap();
    let out = lock_amount(&mut c, USER, 1000).unwrap();
    assert_eq!(out.deposit, 1000);
    assert_eq!(out.fee, 30);
    assert_eq!(out.swapped_amount, 970);
    assert_eq!(out.fee_recipient, ADMIN);
    assert_eq!(out.flush, None);
    assert_eq!(c.accumulated_revenue, 30);
}

#[test]
fn ten_units_pay_no_fee() {
    let mut c = configured();
    let out = lock_amount(&mut c, USER, 10).unwrap();
    // floor(10 * 3 / 100) = 0: nothing to forward, the deposit bridges whole.
    assert_eq!(out.fee, 0);
    assert_eq!(out.swapped_amount, 10);
    assert_eq!(out.flush, None);
}

#[test]
fn one_unit_succeeds_zero_fails() {
    let mut c = configured();
    let out = lock_amount(&mut c, USER, 1).unwrap();
    assert_eq!(out.fee, 0);
    assert_eq!(out.swapped_amount, 1);
    assert_eq!(lock_amount(&mut c, USER, 0), Err(ContractError::InvalidAmount));
    assert_eq!(lock_amount(&mut c, USER, -5), Err(ContractError::InvalidAmount));
}

#[test]
fn largest_deposit_splits_exactly() {
    let mut c = configured();
    let out = lock_amount(&mut c, USER, MAX_LOCK_AMOUNT).unwrap();
    let expected_fee: i128 = MAX_LOCK_AMOUNT * 3 / 100;
    assert_eq!(out.fee, expected_fee);
    assert_eq!(out.swapped_amount, MAX_LOCK_AMOUNT - expected_fee);
    assert!(out.swapped_amount >= 1);
}

#[test]
fn lock_requires_admin() {
    let mut c = LockAndReleaseContract::new();
    c.initialize(OWNER, OWNER).unwrap();
    assert_eq!(
        lock_amount(&mut c, USER, 1000),
        Err(ContractError::MissingConfiguration)
    );
    // Even on a wholly unconfigured instance.
    let mut fresh = LockAndReleaseContract::new();
    assert_eq!(
        lock_amount(&mut fresh, USER, 1000),
        Err(ContractError::MissingConfiguration)
    );
}

#[test]
fn lock_requires_depositor_caller() {
    let mut c = configured();
    let r = c.lock(
        ADMIN,
        USER,
        FROM_TOKEN,
        String::from("wUSDC"),
        SRC_TOKEN,
        1000,
        vec![7u8],
        String::from("dest-recipient"),
    );
    assert_eq!(r, Err(ContractError::AuthorizationFailure));
}

#[test]
fn second_lock_overwrites_record() {
    let mut c = configured();
    let other = Address { id: 5 };
    lock_amount(&mut c, USER, 1000).unwrap();
    lock_amount(&mut c, other, 400).unwrap();
    lock_amount(&mut c, USER, 2000).unwrap();
    let rec = c.get_lock_record(USER).unwrap();
    // Only the latest lock by the user is retrievable.
    assert_eq!(rec.in_amount, 2000);
    assert_eq!(rec.swapped_amount, 1940);
    assert_eq!(rec.user_address, USER);
    assert_eq!(rec.dest_token, String::from("wUSDC"));
    assert_eq!(rec.from_token, FROM_TOKEN);
    assert_eq!(rec.src_token, SRC_TOKEN);
    assert_eq!(rec.recipient_address, String::from("dest-recipient"));
    assert_eq!(rec.dest_chain, vec![7u8, 7u8]);
    // The other user's record is untouched.
    let other_rec = c.get_lock_record(other).unwrap();
    assert_eq!(other_rec.in_amount, 400);
    assert_eq!(other_rec.swapped_amount, 388);
}

#[test]
fn unknown_user_has_no_record() {
    let mut c = configured();
    lock_amount(&mut c, USER, 1000).unwrap();
    assert!(c.get_lock_record(Address { id: 77 }).is_none());
}

#[test]
fn failed_lock_writes_no_record() {
    let mut c = configured();
    assert_eq!(lock_amount(&mut c, USER, 0), Err(ContractError::InvalidAmount));
    assert!(c.get_lock_record(USER).is_none());
}
