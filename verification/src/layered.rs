use vstd::prelude::*;

use crate::aggregate::{lemma_sum_qualifying_bound, lemma_sum_take_step, sum_qualifying};
use crate::repository::UserRepository;
use crate::strategy::Strategy;
use crate::user::{spec_qualifies, User};

verus! {

/// The domain-rule capability: the business predicate, abstracted from the
/// data layout.  Every implementation must decide qualification exactly as
/// the shared rule `spec_qualifies` does.
pub trait DomainRule {
    /// Does `user` qualify for the sum at this threshold?
    fn qualifies(&self, user: &User, minimum_balance: u64) -> (r: bool)
        ensures
            r == spec_qualifies(*user, minimum_balance),
    ;
}

/// The concrete domain rule: active, and balance at or above the threshold.
pub struct BalanceRule;

impl DomainRule for BalanceRule {
    fn qualifies(&self, user: &User, minimum_balance: u64) -> (r: bool) {
        user.active && user.balance >= minimum_balance
    }
}

/// The layered variant: users behind a pure data-access capability, the
/// business predicate behind a separate domain-rule capability.  Each user
/// crosses two dispatch boundaries per query: data access, then rule
/// evaluation.
pub struct UserService<R: UserRepository, D: DomainRule> {
    pub repository: R,
    pub rule: D,
}

impl<R: UserRepository, D: DomainRule> UserService<R, D> {
    /// Assemble the service from its two capabilities.
    pub fn new(repository: R, rule: D) -> (r: UserService<R, D>)
        ensures
            r.repository == repository,
            r.rule == rule,
    {
        UserService { repository, rule }
    }

    /// The business rule, delegated to the domain-rule capability.
    pub fn qualifies_for_sum(&self, user: &User, minimum_balance: u64) -> (r: bool)
        ensures
            r == spec_qualifies(*user, minimum_balance),
    {
        self.rule.qualifies(user, minimum_balance)
    }

    /// The aggregation in the service layer: full traversal through the
    /// data-access capability, filtered by the delegated predicate.  Never
    /// inlined, so the harness's timed invocations keep an observable effect
    /// the optimizer cannot discard.
    #[inline(never)]
    pub fn service_sum_active_balances(&self, minimum_balance: u64) -> (checksum: u128)
        requires
            self.repository.wf(),
        ensures
            checksum == sum_qualifying(self.repository.users(), minimum_balance),
    {
        let users = Ghost(self.repository.users());
        let count = self.repository.count();
        let mut checksum: u128 = 0;
        let mut i: usize = 0;
        while i < count
            invariant
                self.repository.wf(),
                users == Ghost(self.repository.users()),
                count == users@.len(),
                i <= count,
                checksum == sum_qualifying(users@.take(i as int), minimum_balance),
            decreases count - i,
        {
            proof {
                lemma_sum_take_step(users@, i as int, minimum_balance);
                lemma_sum_qualifying_bound(users@.take(i + 1), minimum_balance);
                assert((i + 1) * (u64::MAX as int) < u128::MAX) by (nonlinear_arith)
                    requires
                        0 <= i < usize::MAX,
                ;
            }
            let user = self.repository.user_at(i);
            if self.rule.qualifies(&user, minimum_balance) {
                checksum = checksum + user.balance as u128;
            }
            i = i + 1;
        }
        proof {
            assert(users@.take(count as int) =~= users@);
        }
        checksum
    }

    /// Every user that qualifies at this threshold, in id order.
    pub fn get_high_value_users(&self, minimum_balance: u64) -> (r: Vec<User>)
        requires
            self.repository.wf(),
        ensures
            r@ == self.repository.users().filter(
                |user: User| spec_qualifies(user, minimum_balance),
            ),
    {
        let users = Ghost(self.repository.users());
        let pred = Ghost(|user: User| spec_qualifies(user, minimum_balance));
        let count = self.repository.count();
        let mut out: Vec<User> = Vec::new();
        let mut i: usize = 0;
        while i < count
            invariant
                self.repository.wf(),
                users == Ghost(self.repository.users()),
                pred == Ghost(|user: User| spec_qualifies(user, minimum_balance)),
                count == users@.len(),
                i <= count,
                out@ == users@.take(i as int).filter(pred@),
            decreases count - i,
        {
            let user = self.repository.user_at(i);
            proof {
                reveal_with_fuel(Seq::filter, 2);
                assert(users@.take(i + 1).drop_last() =~= users@.take(i as int));
                assert(users@.take(i + 1).last() == users@[i as int]);
                assert(users@.take(i + 1).filter(pred@) == (if pred@(users@[i as int]) {
                    users@.take(i as int).filter(pred@).push(users@[i as int])
                } else {
                    users@.take(i as int).filter(pred@)
                }));
            }
            if self.rule.qualifies(&user, minimum_balance) {
                out.push(user);
            }
            i = i + 1;
        }
        proof {
            assert(users@.take(count as int) =~= users@);
        }
        out
    }
}

impl<R: UserRepository, D: DomainRule> Strategy for UserService<R, D> {
    open spec fn users(&self) -> Seq<User> {
        self.repository.users()
    }

    open spec fn wf(&self) -> bool {
        self.repository.wf()
    }

    fn count(&self) -> (n: usize) {
        self.repository.count()
    }

    fn sum_active_balances(&self, minimum_balance: u64) -> (checksum: u128) {
        self.service_sum_active_balances(minimum_balance)
    }
}

} // verus!
