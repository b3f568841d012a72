use vstd::prelude::*;

use crate::aggregate::{lemma_sum_qualifying_bound, lemma_sum_take_step, sum_qualifying};
use crate::strategy::Strategy;
use crate::user::User;

verus! {

/// The columnar (flat, data-oriented) layout: each field of the user
/// collection lives in its own contiguous array, indexed by position.
pub struct UsersView {
    pub ids: Vec<usize>,
    pub balances: Vec<u64>,
    pub active: Vec<bool>,
    pub count: usize,
}

impl UsersView {
    /// The columns are consistent: one entry per user in each.
    pub open spec fn spec_wf(&self) -> bool {
        &&& self.ids@.len() == self.count
        &&& self.balances@.len() == self.count
        &&& self.active@.len() == self.count
    }

    /// The logical content, reassembled from the columns.
    pub open spec fn spec_users(&self) -> Seq<User> {
        Seq::new(
            self.count as nat,
            |i: int|
                User {
                    id: self.ids@[i],
                    balance: self.balances@[i],
                    active: self.active@[i],
                },
        )
    }

    /// Adapt a dataset into the columnar representation.
    pub fn build(users: &Vec<User>) -> (r: UsersView)
        ensures
            r.spec_wf(),
            r.spec_users() == users@,
    {
        let mut ids: Vec<usize> = Vec::new();
        let mut balances: Vec<u64> = Vec::new();
        let mut active: Vec<bool> = Vec::new();
        let mut i: usize = 0;
        while i < users.len()
            invariant
                i <= users.len(),
                ids@.len() == i,
                balances@.len() == i,
                active@.len() == i,
                forall|j: int|
                    0 <= j < i ==> ids@[j] == (#[trigger] users@[j]).id && balances@[j]
                        == users@[j].balance && active@[j] == users@[j].active,
            decreases users.len() - i,
        {
            ids.push(users[i].id);
            balances.push(users[i].balance);
            active.push(users[i].active);
            i = i + 1;
        }
        let r = UsersView { ids, balances, active, count: i };
        proof {
            assert(r.spec_users() =~= users@);
        }
        r
    }
}

/// The aggregation over the columnar layout: a single indexed pass, with a
/// branchless select of each balance.  Never inlined, so the harness's timed
/// invocations keep an observable effect the optimizer cannot discard.
#[inline(never)]
pub fn sum_active_balances(users_view: &UsersView, minimum_balance: u64) -> (checksum: u128)
    requires
        users_view.spec_wf(),
    ensures
        checksum == sum_qualifying(users_view.spec_users(), minimum_balance),
{
    let users = Ghost(users_view.spec_users());
    let mut checksum: u128 = 0;
    let mut i: usize = 0;
    while i < users_view.count
        invariant
            users_view.spec_wf(),
            users == Ghost(users_view.spec_users()),
            i <= users_view.count,
            checksum == sum_qualifying(users@.take(i as int), minimum_balance),
        decreases users_view.count - i,
    {
        let balance_value = users_view.balances[i];
        let take_value: u64 = if users_view.active[i] && balance_value >= minimum_balance {
            1
        } else {
            0
        };
        proof {
            lemma_sum_take_step(users@, i as int, minimum_balance);
            lemma_sum_qualifying_bound(users@.take(i + 1), minimum_balance);
            assert((i + 1) * (u64::MAX as int) < u128::MAX) by (nonlinear_arith)
                requires
                    0 <= i < usize::MAX,
            ;
            assert(take_value == 0 || take_value == 1);
            assert((balance_value as u128) * (take_value as u128) == (
            if take_value == 1 {
                balance_value as u128
            } else {
                0u128
            })) by (nonlinear_arith)
                requires
                    take_value == 0 || take_value == 1,
            ;
            assert(checksum + (balance_value as u128) * (take_value as u128) == sum_qualifying(
                users@.take(i + 1),
                minimum_balance,
            ));
        }
        checksum = checksum + (balance_value as u128) * (take_value as u128);
        i = i + 1;
    }
    proof {
        assert(users@.take(users_view.count as int) =~= users@);
    }
    checksum
}

impl Strategy for UsersView {
    open spec fn users(&self) -> Seq<User> {
        self.spec_users()
    }

    open spec fn wf(&self) -> bool {
        self.spec_wf()
    }

    fn count(&self) -> (n: usize) {
        self.count
    }

    fn sum_active_balances(&self, minimum_balance: u64) -> (checksum: u128) {
        sum_active_balances(self, minimum_balance)
    }
}

} // verus!
