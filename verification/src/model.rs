//! Identities, configuration slots, errors, and the fee formula.

use vstd::prelude::*;

verus! {

/// An account identity on the hosting ledger, reduced to the opaque numeric
/// handle that the contract compares and stores. The host is responsible for
/// mapping its native address representation onto these handles.
#[derive(Clone, Copy, PartialEq, Eq, Structural, Debug)]
pub struct Address {
    pub id: u64,
}

/// One configuration axis of the contract: either still vacant, or assigned
/// exactly once. Modelling each axis this way makes the illegal state "value
/// present but flag unset" unrepresentable.
#[derive(Clone, Copy, PartialEq, Eq, Structural, Debug)]
pub enum ConfigSlot {
    Vacant,
    Assigned(Address),
}

impl ConfigSlot {
    /// The assigned address; meaningful only when the slot is assigned.
    pub open spec fn addr(self) -> Address {
        self->Assigned_0
    }
}

/// Every way an operation can refuse to act. Each failure aborts the whole
/// invocation; the host discards all partial effects.
#[derive(Clone, Copy, PartialEq, Eq, Structural, Debug)]
pub enum ContractError {
    /// A second `initialize` on an already-initialized instance.
    AlreadyInitialized,
    /// A replay of a one-shot configuration call (`set_admin`,
    /// `set_revenue_address`).
    AlreadyConfigured,
    /// `lock` attempted before an admin was configured, or a configuration
    /// call attempted before `initialize`.
    MissingConfiguration,
    /// A deposit below the minimum, or one whose fee leaves a non-positive
    /// residual.
    InvalidAmount,
    /// A release larger than the admin's available balance.
    InsufficientBalance,
    /// The authenticated caller is not the principal the operation requires.
    AuthorizationFailure,
}

/// Once the revenue accumulator reaches this many token units, the whole
/// accumulated amount is flushed to the revenue address (100 units of a
/// six-decimal token).
pub const FLUSH_THRESHOLD: i128 = 100_000_000;

/// The largest deposit the fee formula can take without its intermediate
/// product overflowing an `i128`: the floor of `i128::MAX / 3`.
pub const MAX_LOCK_AMOUNT: i128 = 56_713_727_820_156_410_577_229_101_238_628_035_242;

/// The fee retained from a deposit: three percent, rounded down.
pub open spec fn spec_fee(in_amount: int) -> int {
    in_amount * 3 / 100
}

/// What the depositor is owed on the destination side: the deposit less its
/// fee.
pub open spec fn spec_swapped(in_amount: int) -> int {
    in_amount - spec_fee(in_amount)
}

/// For every positive deposit the fee is non-negative and strictly smaller
/// than the deposit, so the post-fee amount is always at least one unit.
pub proof fn lemma_fee_bounds(in_amount: int)
    requires
        1 <= in_amount,
    ensures
        0 <= spec_fee(in_amount) < in_amount,
        1 <= spec_swapped(in_amount) <= in_amount,
{
    vstd::arithmetic::div_mod::lemma_fundamental_div_mod(in_amount * 3, 100);
    vstd::arithmetic::div_mod::lemma_mod_bound(in_amount * 3, 100);
}

} // verus!
