//! One-time configuration: initialize, set_admin, set_revenue_address.

use lock_release::Address;
use lock_release::ConfigSlot;
use lock_release::ContractError;
use lock_release::LockAndReleaseContract;

fn owner() -> Address {
    Address { id: 1 }
}

fn admin() -> Address {
    Address { id: 2 }
}

fn revenue() -> Address {
    Address { id: 3 }
}

#[test]
fn initialize_succeeds_once() {
    let mut c = LockAndReleaseContract::new();
    assert_eq!(c.initialize(owner(), owner()), Ok(()));
    assert_eq!(c.owner, ConfigSlot::Assigned(owner()));
    // A second call always fails, whoever makes it, even the owner.
    assert_eq!(
        c.initialize(owner(), owner()),
        Err(ContractError::AlreadyInitialized)
    );
    assert_eq!(
        c.initialize(Address { id: 9 }, Address { id: 9 }),
        Err(ContractError::AlreadyInitialized)
    );
    assert_eq!(c.owner, ConfigSlot::Assigned(owner()));
}

#[test]
fn initialize_rejects_foreign_caller() {
    let mut c = LockAndReleaseContract::new();
    assert_eq!(
        c.initialize(Address { id: 9 }, owner()),
        Err(ContractError::AuthorizationFailure)
    );
    // The refusal is not a consumption of the one shot: the owner can still
    // initialize afterwards.
    assert_eq!(c.initialize(owner(), owner()), Ok(()));
}

#[test]
fn set_admin_at_most_once() {
    let mut c = LockAndReleaseContract::new();
    assert_eq!(c.initialize(owner(), owner()), Ok(()));
    assert_eq!(c.set_admin(owner(), admin()), Ok(()));
    assert_eq!(c.admin, ConfigSlot::Assigned(admin()));
    // Replays fail regardless of caller.
    assert_eq!(
        c.set_admin(owner(), Address { id: 9 }),
        Err(ContractError::AlreadyConfigured)
    );
    assert_eq!(
        c.set_admin(Address { id: 9 }, Address { id: 9 }),
        Err(ContractError::AlreadyConfigured)
    );
    assert_eq!(c.admin, ConfigSlot::Assigned(admin()));
}

#[test]
fn set_admin_rejects_non_owner() {
    let mut c = LockAndReleaseContract::new();
    assert_eq!(c.initialize(owner(), owner()), Ok(()));
    assert_eq!(
        c.set_admin(admin(), admin()),
        Err(ContractError::AuthorizationFailure)
    );
    assert_eq!(c.admin, ConfigSlot::Vacant);
}

#[test]
fn set_revenue_address_at_most_once() {
    let mut c = LockAndReleaseContract::new();
    assert_eq!(c.initialize(owner(), owner()), Ok(()));
    assert_eq!(c.set_revenue_address(owner(), revenue()), Ok(()));
    assert_eq!(c.revenue, ConfigSlot::Assigned(revenue()));
    assert_eq!(c.accumulated_revenue, 0);
    assert_eq!(
        c.set_revenue_address(owner(), Address { id: 9 }),
        Err(ContractError::AlreadyConfigured)
    );
    assert_eq!(
        c.set_revenue_address(Address { id: 9 }, Address { id: 9 }),
        Err(ContractError::AlreadyConfigured)
    );
    assert_eq!(c.revenue, ConfigSlot::Assigned(revenue()));
}

#[test]
fn set_revenue_address_rejects_non_owner() {
    let mut c = LockAndReleaseContract::new();
    assert_eq!(c.initialize(owner(), owner()), Ok(()));
    assert_eq!(
        c.set_revenue_address(revenue(), revenue()),
        Err(ContractError::AuthorizationFailure)
    );
    assert_eq!(c.revenue, ConfigSlot::Vacant);
}

#[test]
fn admin_and_revenue_are_independent_axes() {
    // The two one-shot slots can be set in either order.
    let mut c = LockAndReleaseContract::new();
    assert_eq!(c.initialize(owner(), owner()), Ok(()));
    assert_eq!(c.set_revenue_address(owner(), revenue()), Ok(()));
    assert_eq!(c.set_admin(owner(), admin()), Ok(()));
    assert_eq!(c.admin, ConfigSlot::Assigned(admin()));
    assert_eq!(c.revenue, ConfigSlot::Assigned(revenue()));
}
