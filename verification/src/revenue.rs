//! The revenue accumulator, modelled over the whole history of locks.
//!
//! Each lock whose instance has a revenue address configured adds its fee to
//! a pending accumulator; the moment the pending total reaches
//! [`FLUSH_THRESHOLD`], the whole total is flushed to the revenue address
//! and the accumulator restarts at zero. The functions here replay that rule
//! over an arbitrary sequence of fees, and the lemmas state what the replay
//! guarantees: the pending amount and the flush payouts always account for
//! every fee taken, and, whenever no flush overshoots the threshold, the
//! pending amount and the number of flushes are exactly the remainder and
//! the quotient of the fee total by the threshold.

use vstd::arithmetic::div_mod::lemma_fundamental_div_mod;
use vstd::arithmetic::div_mod::lemma_fundamental_div_mod_converse;
use vstd::prelude::*;

use crate::model::FLUSH_THRESHOLD;

verus! {

/// One lock's effect on the pending accumulator: the fee joins the pending
/// amount, and a total at or above the threshold is flushed in full.
pub open spec fn acc_step(acc: int, fee: int) -> int {
    if acc + fee >= FLUSH_THRESHOLD {
        0
    } else {
        acc + fee
    }
}

/// The pending accumulator after the fees of `fees`, in order, starting
/// from zero.
pub open spec fn acc_after(fees: Seq<int>) -> int
    decreases fees.len(),
{
    if fees.len() == 0 {
        0
    } else {
        acc_step(acc_after(fees.drop_last()), fees.last())
    }
}

/// The flush payouts the fees of `fees` trigger, in order; each is the
/// whole pending total at the moment it was flushed.
pub open spec fn flushes_of(fees: Seq<int>) -> Seq<int>
    decreases fees.len(),
{
    if fees.len() == 0 {
        Seq::empty()
    } else {
        let pending = acc_after(fees.drop_last());
        if pending + fees.last() >= FLUSH_THRESHOLD {
            flushes_of(fees.drop_last()).push(pending + fees.last())
        } else {
            flushes_of(fees.drop_last())
        }
    }
}

/// The sum of a sequence of amounts.
pub open spec fn sum(s: Seq<int>) -> int
    decreases s.len(),
{
    if s.len() == 0 {
        0
    } else {
        sum(s.drop_last()) + s.last()
    }
}

/// Every amount of `s` is non-negative.
pub open spec fn all_nonneg(s: Seq<int>) -> bool {
    forall|i: int| 0 <= i < s.len() ==> s[i] >= 0
}

/// Every flush the fees of `fees` trigger lands exactly on the threshold,
/// never above it.
pub open spec fn exact_flushes(fees: Seq<int>) -> bool
    decreases fees.len(),
{
    if fees.len() == 0 {
        true
    } else {
        &&& exact_flushes(fees.drop_last())
        &&& acc_after(fees.drop_last()) + fees.last() >= FLUSH_THRESHOLD ==> acc_after(
            fees.drop_last(),
        ) + fees.last() == FLUSH_THRESHOLD
    }
}

/// Law of conservation: after any sequence of non-negative fees, the
/// pending amount is non-negative and strictly below the threshold, every
/// flush payout is at least the threshold, and the pending amount plus the
/// flushed payouts account for every fee taken.
pub proof fn lemma_accumulator_conservation(fees: Seq<int>)
    requires
        all_nonneg(fees),
    ensures
        0 <= acc_after(fees) < FLUSH_THRESHOLD,
        acc_after(fees) + sum(flushes_of(fees)) == sum(fees),
        forall|i: int|
            0 <= i < flushes_of(fees).len() ==> flushes_of(fees)[i] >= FLUSH_THRESHOLD,
    decreases fees.len(),
{
    if fees.len() > 0 {
        let head = fees.drop_last();
        assert(all_nonneg(head)) by {
            assert(forall|i: int| 0 <= i < head.len() ==> head[i] == fees[i]);
        }
        lemma_accumulator_conservation(head);
        let pending = acc_after(head);
        let fee = fees.last();
        if pending + fee >= FLUSH_THRESHOLD {
            let pushed = flushes_of(head).push(pending + fee);
            assert(pushed.drop_last() =~= flushes_of(head));
            assert(sum(pushed) == sum(flushes_of(head)) + (pending + fee));
        }
    }
}

/// Law of exact division: as long as every flush lands exactly on the
/// threshold, the pending amount after fees summing to `S` is `S` modulo
/// the threshold, exactly `S` divided by the threshold flushes have been
/// paid out, and each paid exactly the threshold.
pub proof fn lemma_accumulator_exact(fees: Seq<int>)
    requires
        all_nonneg(fees),
        exact_flushes(fees),
    ensures
        acc_after(fees) == sum(fees) % (FLUSH_THRESHOLD as int),
        flushes_of(fees).len() == sum(fees) / (FLUSH_THRESHOLD as int),
        forall|i: int|
            0 <= i < flushes_of(fees).len() ==> flushes_of(fees)[i] == FLUSH_THRESHOLD,
    decreases fees.len(),
{
    let threshold = FLUSH_THRESHOLD as int;
    if fees.len() == 0 {
        assert(sum(fees) == 0);
        lemma_fundamental_div_mod_converse(0, threshold, 0, 0);
    } else {
        let head = fees.drop_last();
        assert(all_nonneg(head)) by {
            assert(forall|i: int| 0 <= i < head.len() ==> head[i] == fees[i]);
        }
        lemma_accumulator_exact(head);
        lemma_accumulator_conservation(head);
        let before = sum(head);
        let quotient = before / threshold;
        let pending = acc_after(head);
        lemma_fundamental_div_mod(before, threshold);
        let fee = fees.last();
        if pending + fee >= FLUSH_THRESHOLD {
            assert(pending + fee == threshold);
            assert(sum(fees) == (quotient + 1) * threshold + 0) by {
                assert((quotient + 1) * threshold == quotient * threshold + threshold);
            }
            lemma_fundamental_div_mod_converse(sum(fees), threshold, quotient + 1, 0);
            let pushed = flushes_of(head).push(pending + fee);
            assert(flushes_of(fees) == pushed);
        } else {
            assert(sum(fees) == quotient * threshold + (pending + fee));
            lemma_fundamental_div_mod_converse(sum(fees), threshold, quotient, pending + fee);
        }
    }
}

} // verus!
