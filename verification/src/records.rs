//! Per-user lock records and their mathematical view.
//!
//! The contract keeps one lock record per depositor, overwritten (not
//! appended) on each new lock by that user. The store is held as a vector
//! whose entries carry pairwise-distinct user addresses, and is viewed in
//! contracts as a finite map from user address to record.

use vstd::prelude::*;

use crate::model::Address;

verus! {

/// The audit-trail record of one user's most recent lock. Written by the
/// lock operation, read by no other operation.
#[derive(Clone, Debug, PartialEq, Eq)]
pub struct LockData {
    /// The depositor.
    pub user_address: Address,
    /// Identifier of the token to be delivered on the destination ledger.
    pub dest_token: String,
    /// The source-ledger token contract the deposit was made in.
    pub from_token: Address,
    /// Secondary source-token reference carried through for the relayer.
    pub src_token: Address,
    /// The amount deposited.
    pub in_amount: i128,
    /// The amount owed on the destination side: the deposit less its fee.
    pub swapped_amount: i128,
    /// The recipient in the destination ledger's own representation.
    pub recipient_address: String,
    /// Identifier of the destination chain.
    pub dest_chain: Vec<u8>,
}

/// The entries of `s` name pairwise-distinct users.
pub open spec fn unique_users(s: Seq<LockData>) -> bool {
    forall|i: int, j: int|
        0 <= i < j < s.len() ==> s[i].user_address != s[j].user_address
}

/// The store viewed as a map from user address to that user's record; a
/// later entry for the same user wins.
pub open spec fn records_of(s: Seq<LockData>) -> Map<Address, LockData>
    decreases s.len(),
{
    if s.len() == 0 {
        Map::empty()
    } else {
        records_of(s.drop_last()).insert(s.last().user_address, s.last())
    }
}

/// Appending a record for a fresh user inserts it into the map view.
pub proof fn lemma_records_of_push(s: Seq<LockData>, r: LockData)
    ensures
        records_of(s.push(r)) == records_of(s).insert(r.user_address, r),
{
    assert(s.push(r).drop_last() =~= s);
    assert(s.push(r).last() == r);
}

/// Overwriting the entry that already carries a user's address updates that
/// user's binding in the map view and no other.
pub proof fn lemma_records_of_update(s: Seq<LockData>, i: int, r: LockData)
    requires
        unique_users(s),
        0 <= i < s.len(),
        s[i].user_address == r.user_address,
    ensures
        records_of(s.update(i, r)) == records_of(s).insert(r.user_address, r),
    decreases s.len(),
{
    let t = s.update(i, r);
    if i == s.len() - 1 {
        assert(t.drop_last() =~= s.drop_last());
        assert(t.last() == r);
        assert(records_of(t) =~= records_of(s).insert(r.user_address, r));
    } else {
        assert(t.drop_last() =~= s.drop_last().update(i, r));
        assert(t.last() == s.last());
        assert(unique_users(s.drop_last())) by {
            assert(forall|k: int, l: int|
                0 <= k < l < s.drop_last().len() ==> s.drop_last()[k] == s[k]
                    && s.drop_last()[l] == s[l]);
        }
        lemma_records_of_update(s.drop_last(), i, r);
        assert(s[i].user_address != s.last().user_address);
        assert(records_of(t) =~= records_of(s).insert(r.user_address, r));
    }
}

/// Every stored entry is visible, unshadowed, in the map view.
pub proof fn lemma_records_of_contains(s: Seq<LockData>, i: int)
    requires
        unique_users(s),
        0 <= i < s.len(),
    ensures
        records_of(s).contains_key(s[i].user_address),
        records_of(s)[s[i].user_address] == s[i],
    decreases s.len(),
{
    if i < s.len() - 1 {
        assert(unique_users(s.drop_last())) by {
            assert(forall|k: int, l: int|
                0 <= k < l < s.drop_last().len() ==> s.drop_last()[k] == s[k]
                    && s.drop_last()[l] == s[l]);
        }
        assert(s.drop_last()[i] == s[i]);
        lemma_records_of_contains(s.drop_last(), i);
        assert(s[i].user_address != s.last().user_address);
    }
}

/// A user no entry names is absent from the map view.
pub proof fn lemma_records_of_absent(s: Seq<LockData>, a: Address)
    requires
        forall|i: int| 0 <= i < s.len() ==> s[i].user_address != a,
    ensures
        !records_of(s).contains_key(a),
    decreases s.len(),
{
    if s.len() > 0 {
        assert(forall|i: int|
            0 <= i < s.drop_last().len() ==> s.drop_last()[i] == s[i]);
        lemma_records_of_absent(s.drop_last(), a);
    }
}

/// Writes `record` as its user's one entry: overwrites the entry already
/// carrying that user's address, or appends when there is none.
pub fn store_record(records: &mut Vec<LockData>, record: LockData)
    requires
        unique_users(old(records)@),
    ensures
        unique_users(final(records)@),
        records_of(final(records)@)
            == records_of(old(records)@).insert(record.user_address, record),
{
    let n = records.len();
    let mut i: usize = 0;
    while i < n
        invariant
            n == records@.len(),
            i <= n,
            unique_users(records@),
            records@ == old(records)@,
            forall|k: int| 0 <= k < i ==> records@[k].user_address != record.user_address,
        decreases n - i,
    {
        if records[i].user_address == record.user_address {
            proof {
                lemma_records_of_update(records@, i as int, record);
            }
            let ghost before = records@;
            records.remove(i);
            records.insert(i, record);
            proof {
                assert(records@ =~= before.update(i as int, record));
                assert(unique_users(records@)) by {
                    assert(forall|k: int|
                        0 <= k < records@.len() && k != i
                            ==> records@[k] == before[k]);
                }
            }
            return;
        }
        i += 1;
    }
    proof {
        lemma_records_of_push(records@, record);
        lemma_records_of_absent(records@, record.user_address);
    }
    let ghost before = records@;
    let ghost user = record.user_address;
    records.push(record);
    proof {
        assert(unique_users(records@)) by {
            assert(forall|k: int|
                0 <= k < before.len() ==> records@[k] == before[k]);
            assert(forall|k: int|
                0 <= k < before.len() ==> records@[k].user_address != user);
        }
    }
}

/// Finds the entry carrying `user`'s address, if any.
pub fn find_record(records: &Vec<LockData>, user: Address) -> (found: Option<&LockData>)
    requires
        unique_users(records@),
    ensures
        (found is Some) <==> records_of(records@).contains_key(user),
        found matches Some(rec) ==> *rec == records_of(records@)[user],
{
    let n = records.len();
    let mut i: usize = 0;
    while i < n
        invariant
            n == records@.len(),
            i <= n,
            unique_users(records@),
            forall|k: int| 0 <= k < i ==> records@[k].user_address != user,
        decreases n - i,
    {
        if records[i].user_address == user {
            proof {
                lemma_records_of_contains(records@, i as int);
            }
            return Some(&records[i]);
        }
        i += 1;
    }
    proof {
        lemma_records_of_absent(records@, user);
    }
    None
}

} // verus!
