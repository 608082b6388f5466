//! The lock-and-release bridge contract state machine.
//!
//! Each public operation is one atomic entry point of the contract. The host
//! ledger authenticates the caller and passes the authenticated identity in;
//! the operation either refuses with a [`ContractError`] — in which case the
//! state is unchanged and the host discards the transaction — or succeeds,
//! mutating the state and returning the token-transfer orders the host must
//! perform within the same transaction.

use vstd::prelude::*;

use crate::model::Address;
use crate::model::ConfigSlot;
use crate::model::ContractError;
use crate::model::FLUSH_THRESHOLD;
use crate::model::MAX_LOCK_AMOUNT;
use crate::model::lemma_fee_bounds;
use crate::model::spec_fee;
use crate::model::spec_swapped;
use crate::records::LockData;
use crate::records::find_record;
use crate::records::records_of;
use crate::records::store_record;
use crate::records::unique_users;

verus! {

/// An accumulated-revenue payout the host must perform: a transfer of
/// `amount` from the contract's custody balance to `recipient`.
#[derive(Clone, Copy, PartialEq, Eq, Structural, Debug)]
pub struct FlushOrder {
    /// The configured revenue address.
    pub recipient: Address,
    /// The whole accumulated amount at the moment the threshold was crossed.
    pub amount: i128,
}

/// Everything a successful lock obliges the host to do, beyond the state
/// change already recorded: move the deposit (`LockOutcome::deposit`) of the
/// source token from the user into the contract's custody, forward the fee
/// to `fee_recipient`, and, when a flush came due, pay out the accumulated
/// revenue.
#[derive(Clone, Copy, PartialEq, Eq, Debug)]
pub struct LockOutcome {
    /// The deposit to pull from the user into the contract's custody.
    pub deposit: i128,
    /// The fee retained from the deposit; forward it to `fee_recipient`
    /// when positive.
    pub fee: i128,
    /// The post-fee amount owed on the destination side.
    pub swapped_amount: i128,
    /// The admin address the fee is forwarded to.
    pub fee_recipient: Address,
    /// The accumulated-revenue payout that came due, if any.
    pub flush: Option<FlushOrder>,
}

/// An authorized fund movement the host must perform to complete a release:
/// a transfer of `amount` of `token` from `from` (the admin) to `to`.
#[derive(Clone, Copy, PartialEq, Eq, Structural, Debug)]
pub struct ReleaseOrder {
    /// The destination token contract.
    pub token: Address,
    /// The admin, whose balance the release is paid from.
    pub from: Address,
    /// The recipient of the release.
    pub to: Address,
    /// The amount released.
    pub amount: i128,
}

/// The contract's entire persistent state: the three one-shot configuration
/// slots, the pending revenue accumulator, and one lock record per user.
#[derive(Clone, Debug, PartialEq, Eq)]
pub struct LockAndReleaseContract {
    /// Set exactly once by `initialize`; authorizes the other two slots.
    pub owner: ConfigSlot,
    /// Set exactly once by `set_admin`; required before any lock.
    pub admin: ConfigSlot,
    /// Set at most once by `set_revenue_address`.
    pub revenue: ConfigSlot,
    /// Fee share pending flush; zero until a revenue address is configured.
    pub accumulated_revenue: i128,
    /// One entry per depositor, overwritten on each new lock by that user.
    pub lock_records: Vec<LockData>,
}

impl LockAndReleaseContract {
    /// The state's internal invariant: the accumulator is non-negative and
    /// strictly below the flush threshold, stays zero while no revenue
    /// address is configured, and no user owns two lock records.
    pub open spec fn wf(self) -> bool {
        &&& 0 <= self.accumulated_revenue < FLUSH_THRESHOLD
        &&& self.revenue is Vacant ==> self.accumulated_revenue == 0
        &&& unique_users(self.lock_records@)
    }

    /// The lock-record store viewed as a map from user address to that
    /// user's current record.
    pub open spec fn records(self) -> Map<Address, LockData> {
        records_of(self.lock_records@)
    }

    /// A fresh, entirely unconfigured contract instance.
    pub fn new() -> (s: Self)
        ensures
            s.wf(),
            s.owner is Vacant,
            s.admin is Vacant,
            s.revenue is Vacant,
            s.accumulated_revenue == 0,
            s.records() == Map::<Address, LockData>::empty(),
    {
        LockAndReleaseContract {
            owner: ConfigSlot::Vacant,
            admin: ConfigSlot::Vacant,
            revenue: ConfigSlot::Vacant,
            accumulated_revenue: 0,
            lock_records: Vec::new(),
        }
    }

    /// One-time initialization: records `owner` as the contract owner.
    /// Fails on every call after the first, whoever calls; on the first
    /// call, only the owner-to-be may perform it.
    pub fn initialize(&mut self, caller: Address, owner: Address) -> (result: Result<
        (),
        ContractError,
    >)
        requires
            old(self).wf(),
        ensures
            final(self).wf(),
            (result matches Err(ContractError::AlreadyInitialized)) <==> old(
                self,
            ).owner is Assigned,
            (result matches Err(ContractError::AuthorizationFailure)) <==> (old(
                self,
            ).owner is Vacant && caller != owner),
            result is Ok <==> (old(self).owner is Vacant && caller == owner),
            result is Err ==> *final(self) == *old(self),
            result is Ok ==> final(self).owner == ConfigSlot::Assigned(owner),
            final(self).admin == old(self).admin,
            final(self).revenue == old(self).revenue,
            final(self).accumulated_revenue == old(self).accumulated_revenue,
            final(self).lock_records == old(self).lock_records,
    {
        if let ConfigSlot::Assigned(_) = self.owner {
            return Err(ContractError::AlreadyInitialized);
        }
        if caller != owner {
            return Err(ContractError::AuthorizationFailure);
        }
        self.owner = ConfigSlot::Assigned(owner);
        Ok(())
    }

    /// One-time admin assignment, authorized by the stored owner. Fails on
    /// every call after the first, whoever calls. On success the host emits
    /// the admin-set event.
    pub fn set_admin(&mut self, caller: Address, admin: Address) -> (result: Result<
        (),
        ContractError,
    >)
        requires
            old(self).wf(),
            old(self).owner is Assigned,
        ensures
            final(self).wf(),
            (result matches Err(ContractError::AlreadyConfigured)) <==> old(
                self,
            ).admin is Assigned,
            (result matches Err(ContractError::AuthorizationFailure)) <==> (old(
                self,
            ).admin is Vacant && caller != old(self).owner.addr()),
            result is Ok <==> (old(self).admin is Vacant && caller == old(self).owner.addr()),
            result is Err ==> *final(self) == *old(self),
            result is Ok ==> final(self).admin == ConfigSlot::Assigned(admin),
            final(self).owner == old(self).owner,
            final(self).revenue == old(self).revenue,
            final(self).accumulated_revenue == old(self).accumulated_revenue,
            final(self).lock_records == old(self).lock_records,
    {
        if let ConfigSlot::Assigned(_) = self.admin {
            return Err(ContractError::AlreadyConfigured);
        }
        let owner = match self.owner {
            ConfigSlot::Assigned(a) => a,
            ConfigSlot::Vacant => {
                return Err(ContractError::MissingConfiguration);
            },
        };
        if caller != owner {
            return Err(ContractError::AuthorizationFailure);
        }
        self.admin = ConfigSlot::Assigned(admin);
        Ok(())
    }

    /// One-time revenue-address assignment, authorized by the stored owner;
    /// starts the revenue accumulator at zero. Fails on every call after the
    /// first, whoever calls. On success the host emits the
    /// revenue-address-set event.
    pub fn set_revenue_address(&mut self, caller: Address, revenue_address: Address) -> (result:
        Result<(), ContractError>)
        requires
            old(self).wf(),
            old(self).owner is Assigned,
        ensures
            final(self).wf(),
            (result matches Err(ContractError::AlreadyConfigured)) <==> old(
                self,
            ).revenue is Assigned,
            (result matches Err(ContractError::AuthorizationFailure)) <==> (old(
                self,
            ).revenue is Vacant && caller != old(self).owner.addr()),
            result is Ok <==> (old(self).revenue is Vacant && caller == old(self).owner.addr()),
            result is Err ==> *final(self) == *old(self),
            result is Ok ==> final(self).revenue == ConfigSlot::Assigned(revenue_address),
            result is Ok ==> final(self).accumulated_revenue == 0,
            final(self).owner == old(self).owner,
            final(self).admin == old(self).admin,
            final(self).lock_records == old(self).lock_records,
    {
        if let ConfigSlot::Assigned(_) = self.revenue {
            return Err(ContractError::AlreadyConfigured);
        }
        let owner = match self.owner {
            ConfigSlot::Assigned(a) => a,
            ConfigSlot::Vacant => {
                return Err(ContractError::MissingConfiguration);
            },
        };
        if caller != owner {
            return Err(ContractError::AuthorizationFailure);
        }
        self.revenue = ConfigSlot::Assigned(revenue_address);
        self.accumulated_revenue = 0;
        Ok(())
    }

    /// Accepts a user's deposit: validates the amount, splits off the
    /// three-percent fee, runs the revenue accumulator, and overwrites the
    /// user's lock record. The caller must be the depositor, and an admin
    /// must be configured. On success the host performs the transfers of the
    /// returned [`LockOutcome`] and emits the lock event.
    pub fn lock(
        &mut self,
        caller: Address,
        user_address: Address,
        from_token: Address,
        dest_token: String,
        src_token: Address,
        in_amount: i128,
        dest_chain: Vec<u8>,
        recipient_address: String,
    ) -> (result: Result<LockOutcome, ContractError>)
        requires
            old(self).wf(),
            in_amount <= MAX_LOCK_AMOUNT,
        ensures
            final(self).wf(),
            (result matches Err(ContractError::AuthorizationFailure)) <==> caller != user_address,
            (result matches Err(ContractError::MissingConfiguration)) <==> (caller == user_address
                && old(self).admin is Vacant),
            (result matches Err(ContractError::InvalidAmount)) <==> (caller == user_address && old(
                self,
            ).admin is Assigned && (in_amount < 1 || spec_swapped(in_amount as int) < 1)),
            result is Ok <==> (caller == user_address && old(self).admin is Assigned && in_amount
                >= 1 && spec_swapped(in_amount as int) >= 1),
            result is Err ==> *final(self) == *old(self),
            final(self).owner == old(self).owner,
            final(self).admin == old(self).admin,
            final(self).revenue == old(self).revenue,
            result matches Ok(outcome) ==> {
                &&& outcome.deposit == in_amount
                &&& outcome.fee == spec_fee(in_amount as int)
                &&& outcome.swapped_amount == spec_swapped(in_amount as int)
                &&& outcome.fee_recipient == old(self).admin.addr()
                &&& final(self).records() == old(self).records().insert(
                    user_address,
                    (LockData {
                        user_address,
                        dest_token,
                        from_token,
                        src_token,
                        in_amount,
                        swapped_amount: spec_swapped(in_amount as int) as i128,
                        recipient_address,
                        dest_chain,
                    }),
                )
                &&& old(self).revenue is Vacant ==> (final(self).accumulated_revenue == old(
                    self,
                ).accumulated_revenue && outcome.flush is None)
                &&& (old(self).revenue matches ConfigSlot::Assigned(revenue_addr) ==> {
                    let total = old(self).accumulated_revenue + spec_fee(in_amount as int);
                    &&& final(self).accumulated_revenue == crate::revenue::acc_step(
                        old(self).accumulated_revenue as int,
                        spec_fee(in_amount as int),
                    )
                    &&& total >= FLUSH_THRESHOLD ==> (final(self).accumulated_revenue == 0
                        && outcome.flush == Some(
                        (FlushOrder { recipient: revenue_addr, amount: total as i128 }),
                    ))
                    &&& total < FLUSH_THRESHOLD ==> (final(self).accumulated_revenue == total
                        && outcome.flush is None)
                })
            },
    {
        if caller != user_address {
            return Err(ContractError::AuthorizationFailure);
        }
        let admin_addr = match self.admin {
            ConfigSlot::Assigned(a) => a,
            ConfigSlot::Vacant => {
                return Err(ContractError::MissingConfiguration);
            },
        };
        if in_amount < 1 {
            return Err(ContractError::InvalidAmount);
        }
        proof {
            lemma_fee_bounds(in_amount as int);
        }
        let wide: u128 = (in_amount as u128) * 3;
        let fee: i128 = (wide / 100) as i128;
        let swapped_amount: i128 = in_amount - fee;
        if swapped_amount < 1 {
            return Err(ContractError::InvalidAmount);
        }
        let flush: Option<FlushOrder> = match self.revenue {
            ConfigSlot::Assigned(revenue_addr) => {
                let total: i128 = self.accumulated_revenue + fee;
                if total >= FLUSH_THRESHOLD {
                    self.accumulated_revenue = 0;
                    Some(FlushOrder { recipient: revenue_addr, amount: total })
                } else {
                    self.accumulated_revenue = total;
                    None
                }
            },
            ConfigSlot::Vacant => None,
        };
        store_record(
            &mut self.lock_records,
            LockData {
                user_address,
                dest_token,
                from_token,
                src_token,
                in_amount,
                swapped_amount,
                recipient_address,
                dest_chain,
            },
        );
        Ok(LockOutcome { deposit: in_amount, fee, swapped_amount, fee_recipient: admin_addr, flush })
    }

    /// Admin-authorized withdrawal: orders a transfer of `amount` of
    /// `destination_token` from the admin's balance to `user`.
    /// `admin_balance` is the admin's balance of that token as the host's
    /// token contract reports it at call time. Writes no state.
    pub fn release(
        &self,
        caller: Address,
        amount: i128,
        user: Address,
        destination_token: Address,
        admin_balance: i128,
    ) -> (result: Result<ReleaseOrder, ContractError>)
        requires
            self.admin is Assigned,
        ensures
            (result matches Err(ContractError::AuthorizationFailure)) <==> caller
                != self.admin.addr(),
            (result matches Err(ContractError::InsufficientBalance)) <==> (caller
                == self.admin.addr() && admin_balance < amount),
            result is Ok <==> (caller == self.admin.addr() && admin_balance >= amount),
            result matches Ok(order) ==> order == (ReleaseOrder {
                token: destination_token,
                from: self.admin.addr(),
                to: user,
                amount,
            }),
    {
        let admin_addr = match self.admin {
            ConfigSlot::Assigned(a) => a,
            ConfigSlot::Vacant => {
                return Err(ContractError::MissingConfiguration);
            },
        };
        if caller != admin_addr {
            return Err(ContractError::AuthorizationFailure);
        }
        if admin_balance < amount {
            return Err(ContractError::InsufficientBalance);
        }
        Ok(ReleaseOrder { token: destination_token, from: admin_addr, to: user, amount })
    }

    /// The audit-trail record of `user`'s most recent lock, if any.
    pub fn get_lock_record(&self, user: Address) -> (found: Option<&LockData>)
        requires
            self.wf(),
        ensures
            (found is Some) <==> self.records().contains_key(user),
            found matches Some(rec) ==> *rec == self.records()[user],
    {
        find_record(&self.lock_records, user)
    }
}

} // verus!
