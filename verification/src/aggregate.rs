use vstd::multiset::Multiset;
use vstd::prelude::*;

use crate::user::{spec_qualifies, User};

verus! {

/// The contribution of one user to the qualifying sum: its balance when it
/// qualifies, nothing otherwise.
pub open spec fn contribution(user: User, minimum_balance: u64) -> int {
    if spec_qualifies(user, minimum_balance) {
        user.balance as int
    } else {
        0int
    }
}

/// The one logical query of the workload: the sum of `balance` over every
/// user that is active and whose balance meets or exceeds `minimum_balance`.
/// Every user is counted exactly once, in order.
pub open spec fn sum_qualifying(users: Seq<User>, minimum_balance: u64) -> int
    decreases users.len(),
{
    if users.len() == 0 {
        0
    } else {
        sum_qualifying(users.drop_last(), minimum_balance) + contribution(
            users.last(),
            minimum_balance,
        )
    }
}

/// The sum of every balance, qualifying or not.
pub open spec fn sum_balances(users: Seq<User>) -> int
    decreases users.len(),
{
    if users.len() == 0 {
        0
    } else {
        sum_balances(users.drop_last()) + users.last().balance as int
    }
}

/// The qualifying sum of `n` users is at least 0 and at most `n * u64::MAX`,
/// so a `u128` accumulator never overflows.
pub proof fn lemma_sum_qualifying_bound(users: Seq<User>, minimum_balance: u64)
    ensures
        0 <= sum_qualifying(users, minimum_balance) <= users.len() * u64::MAX,
    decreases users.len(),
{
    if users.len() > 0 {
        lemma_sum_qualifying_bound(users.drop_last(), minimum_balance);
        assert((users.len() - 1) * u64::MAX + u64::MAX == users.len() * u64::MAX)
            by (nonlinear_arith);
    }
}

/// Appending a qualifying user raises the sum by exactly its balance.
pub proof fn lemma_sum_push_qualifying(users: Seq<User>, user: User, minimum_balance: u64)
    requires
        spec_qualifies(user, minimum_balance),
    ensures
        sum_qualifying(users.push(user), minimum_balance) == sum_qualifying(
            users,
            minimum_balance,
        ) + user.balance,
{
    assert(users.push(user).drop_last() =~= users);
}

/// Appending a non-qualifying user — in particular an inactive one, however
/// large its balance, or one whose balance lies below the threshold — leaves
/// the sum unchanged: it contributes zero.
pub proof fn lemma_sum_push_not_qualifying(users: Seq<User>, user: User, minimum_balance: u64)
    requires
        !spec_qualifies(user, minimum_balance),
    ensures
        sum_qualifying(users.push(user), minimum_balance) == sum_qualifying(
            users,
            minimum_balance,
        ),
{
    assert(users.push(user).drop_last() =~= users);
}

/// An empty dataset yields a checksum of zero, at every threshold.
pub proof fn lemma_empty_dataset_zero(minimum_balance: u64)
    ensures
        sum_qualifying(Seq::<User>::empty(), minimum_balance) == 0,
{
}

/// One step of a front-to-back traversal: extending the prefix by the user
/// at position `i` adds exactly that user's contribution.
pub proof fn lemma_sum_take_step(users: Seq<User>, i: int, minimum_balance: u64)
    requires
        0 <= i < users.len(),
    ensures
        sum_qualifying(users.take(i + 1), minimum_balance) == sum_qualifying(
            users.take(i),
            minimum_balance,
        ) + contribution(users[i], minimum_balance),
{
    assert(users.take(i + 1).drop_last() =~= users.take(i));
    assert(users.take(i + 1).last() == users[i]);
}

/// Threshold boundary: a user whose balance equals the threshold exactly is
/// included (the comparison is inclusive); one whose balance lies anywhere
/// below the threshold is excluded.
pub proof fn lemma_threshold_boundary(user: User, minimum_balance: u64)
    ensures
        user.active && user.balance == minimum_balance ==> spec_qualifies(user, minimum_balance),
        user.balance < minimum_balance ==> !spec_qualifies(user, minimum_balance),
{
}

/// Completeness: when every user qualifies, the aggregation returns the exact
/// sum of all balances — no user is skipped or counted twice.
pub proof fn lemma_sum_all_qualifying(users: Seq<User>, minimum_balance: u64)
    requires
        forall|i: int| 0 <= i < users.len() ==> spec_qualifies(#[trigger] users[i], minimum_balance),
    ensures
        sum_qualifying(users, minimum_balance) == sum_balances(users),
    decreases users.len(),
{
    if users.len() > 0 {
        assert(users.last() == users[users.len() - 1]);
        lemma_sum_all_qualifying(users.drop_last(), minimum_balance);
    }
}

/// The qualifying sum of an unordered collection of users.
pub open spec fn msum_qualifying(m: Multiset<User>, minimum_balance: u64) -> int
    decreases m.len(),
        via msum_qualifying_decreases
{
    if m.len() == 0 {
        0
    } else {
        let u = m.choose();
        contribution(u, minimum_balance) + msum_qualifying(m.remove(u), minimum_balance)
    }
}

#[via_fn]
proof fn msum_qualifying_decreases(m: Multiset<User>, minimum_balance: u64) {
    broadcast use vstd::multiset::group_multiset_axioms;

}

/// Removing one occurrence of a contained user takes exactly its contribution
/// out of the unordered qualifying sum, whichever occurrence leaves.
pub proof fn lemma_msum_remove(m: Multiset<User>, user: User, minimum_balance: u64)
    requires
        m.count(user) > 0,
    ensures
        msum_qualifying(m, minimum_balance) == contribution(user, minimum_balance)
            + msum_qualifying(m.remove(user), minimum_balance),
    decreases m.len(),
{
    broadcast use vstd::multiset::group_multiset_axioms;

    let c = m.choose();
    if c == user {
    } else {
        lemma_msum_remove(m.remove(c), user, minimum_balance);
        lemma_msum_remove(m.remove(user), c, minimum_balance);
        assert(m.remove(c).remove(user) =~= m.remove(user).remove(c));
    }
}

/// The ordered qualifying sum equals the unordered one: the aggregation
/// depends only on which users are in the collection, not on their order.
pub proof fn lemma_sum_qualifying_is_msum(users: Seq<User>, minimum_balance: u64)
    ensures
        sum_qualifying(users, minimum_balance) == msum_qualifying(
            users.to_multiset(),
            minimum_balance,
        ),
    decreases users.len(),
{
    broadcast use vstd::multiset::group_multiset_axioms;
    broadcast use vstd::seq_lib::group_to_multiset_ensures;

    if users.len() == 0 {
        assert(users.to_multiset() =~= Multiset::<User>::empty());
    } else {
        let prefix = users.drop_last();
        let last = users.last();
        lemma_sum_qualifying_is_msum(prefix, minimum_balance);
        assert(prefix.push(last) =~= users);
        assert(users.to_multiset() =~= prefix.to_multiset().insert(last));
        lemma_msum_remove(prefix.to_multiset().insert(last), last, minimum_balance);
        assert(prefix.to_multiset().insert(last).remove(last) =~= prefix.to_multiset());
    }
}

/// Cross-variant equivalence: two strategies that hold the same multiset of
/// users — however differently laid out or ordered — report exactly the same
/// aggregation checksum for the same threshold.
pub proof fn lemma_cross_variant_equivalence(
    users1: Seq<User>,
    users2: Seq<User>,
    minimum_balance: u64,
)
    requires
        users1.to_multiset() == users2.to_multiset(),
    ensures
        sum_qualifying(users1, minimum_balance) == sum_qualifying(users2, minimum_balance),
{
    lemma_sum_qualifying_is_msum(users1, minimum_balance);
    lemma_sum_qualifying_is_msum(users2, minimum_balance);
}

} // verus!
