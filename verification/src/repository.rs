use vstd::prelude::*;

use crate::aggregate::{lemma_sum_qualifying_bound, lemma_sum_take_step, sum_qualifying};
use crate::strategy::Strategy;
use crate::user::{qualifies, spec_qualifies, User};

verus! {

/// The data-access capability: whole-collection traversal plus point lookup
/// by id.  Lookup assumes dense, zero-based ids (the well-formedness below),
/// a documented precondition of the indexed variants; an id outside the held
/// range is "no user", not an error.
pub trait UserRepository {
    /// The logical content: the users held, in id order.
    spec fn users(&self) -> Seq<User>;

    /// Ids are dense and zero-based: the id equals the position.
    spec fn wf(&self) -> bool;

    /// Number of users held.
    fn count(&self) -> (n: usize)
        ensures
            n == self.users().len(),
    ;

    /// Point lookup by id: the user with that id, or `None` when the id lies
    /// outside the held range.
    fn find_by_id(&self, id: usize) -> (r: Option<User>)
        requires
            self.wf(),
        ensures
            id < self.users().len() ==> r == Some(self.users()[id as int]),
            id >= self.users().len() ==> r is None,
    ;

    /// The user at a position, for whole-collection traversal.
    fn user_at(&self, i: usize) -> (r: User)
        requires
            self.wf(),
            i < self.users().len(),
        ensures
            r == self.users()[i as int],
    ;
}

/// The owned-record collection with linear scans: one array of whole users;
/// point lookup walks the array until the id matches.
pub struct VectorUserRepository {
    users: Vec<User>,
}

impl VectorUserRepository {
    pub closed spec fn spec_users(&self) -> Seq<User> {
        self.users@
    }

    pub open spec fn spec_wf(&self) -> bool {
        forall|i: int| 0 <= i < self.spec_users().len() ==> (#[trigger] self.spec_users()[i]).id == i
    }

    /// Wrap an owned collection of users.
    pub fn new(users: Vec<User>) -> (r: VectorUserRepository)
        ensures
            r.spec_users() == users@,
    {
        VectorUserRepository { users }
    }

    /// Every user held, in order.
    pub fn get_all(&self) -> (r: &Vec<User>)
        ensures
            r@ == self.spec_users(),
    {
        &self.users
    }
}

impl UserRepository for VectorUserRepository {
    open spec fn users(&self) -> Seq<User> {
        self.spec_users()
    }

    open spec fn wf(&self) -> bool {
        self.spec_wf()
    }

    fn count(&self) -> (n: usize) {
        self.users.len()
    }

    fn find_by_id(&self, id: usize) -> (r: Option<User>) {
        let mut j: usize = 0;
        while j < self.users.len()
            invariant
                self.spec_wf(),
                j <= self.users@.len(),
                forall|k: int| 0 <= k < j ==> (#[trigger] self.users@[k]).id != id,
            decreases self.users@.len() - j,
        {
            if self.users[j].id == id {
                return Some(self.users[j]);
            }
            j = j + 1;
        }
        None
    }

    fn user_at(&self, i: usize) -> (r: User) {
        self.users[i]
    }
}

/// The index-addressable collection: users are held behind an id-keyed
/// store whose dense ids make point lookup one array index.  Storage is
/// columnar internally; lookup reassembles the user.
pub struct InMemoryUserRepository {
    ids: Vec<usize>,
    balances: Vec<u64>,
    active: Vec<bool>,
}

impl InMemoryUserRepository {
    pub closed spec fn spec_users(&self) -> Seq<User> {
        Seq::new(
            self.ids@.len(),
            |i: int|
                User {
                    id: self.ids@[i],
                    balance: self.balances@[i],
                    active: self.active@[i],
                },
        )
    }

    pub closed spec fn spec_cols_wf(&self) -> bool {
        self.balances@.len() == self.ids@.len() && self.active@.len() == self.ids@.len()
    }

    pub open spec fn spec_wf(&self) -> bool {
        &&& self.spec_cols_wf()
        &&& forall|i: int|
            0 <= i < self.spec_users().len() ==> (#[trigger] self.spec_users()[i]).id == i
    }

    /// Adapt an owned collection of users into the indexed store.
    pub fn new(users: Vec<User>) -> (r: InMemoryUserRepository)
        ensures
            r.spec_cols_wf(),
            r.spec_users() == users@,
    {
        let mut ids: Vec<usize> = Vec::new();
        let mut balances: Vec<u64> = Vec::new();
        let mut active: Vec<bool> = Vec::new();
        let mut i: usize = 0;
        while i < users.len()
            invariant
                i <= users.len(),
                ids@.len() == i,
                balances@.len() == i,
                active@.len() == i,
                forall|j: int|
                    0 <= j < i ==> ids@[j] == (#[trigger] users@[j]).id && balances@[j]
                        == users@[j].balance && active@[j] == users@[j].active,
            decreases users.len() - i,
        {
            ids.push(users[i].id);
            balances.push(users[i].balance);
            active.push(users[i].active);
            i = i + 1;
        }
        let r = InMemoryUserRepository { ids, balances, active };
        proof {
            assert(r.spec_users() =~= users@);
        }
        r
    }

    /// Every user held, reassembled into owned records, in order.
    pub fn get_all(&self) -> (r: Vec<User>)
        requires
            self.spec_cols_wf(),
        ensures
            r@ == self.spec_users(),
    {
        let mut out: Vec<User> = Vec::new();
        let mut i: usize = 0;
        while i < self.ids.len()
            invariant
                self.spec_cols_wf(),
                i <= self.ids@.len(),
                out@.len() == i,
                forall|j: int| 0 <= j < i ==> #[trigger] out@[j] == self.spec_users()[j],
            decreases self.ids@.len() - i,
        {
            out.push(User { id: self.ids[i], balance: self.balances[i], active: self.active[i] });
            i = i + 1;
        }
        proof {
            assert(out@ =~= self.spec_users());
        }
        out
    }

    /// Direct-index lookup: the user with the given id, or `None` when the
    /// id lies outside the held range.
    pub fn get_user(&self, id: usize) -> (r: Option<User>)
        requires
            self.spec_cols_wf(),
        ensures
            id < self.spec_users().len() ==> r == Some(self.spec_users()[id as int]),
            id >= self.spec_users().len() ==> r is None,
    {
        if id < self.ids.len() {
            Some(User { id: self.ids[id], balance: self.balances[id], active: self.active[id] })
        } else {
            None
        }
    }

    /// Add `delta` to the balance of the user with the given id, saturating
    /// at the largest representable balance; an id outside the held range
    /// changes nothing.
    pub fn update_balance(&mut self, id: usize, delta: u64)
        requires
            old(self).spec_cols_wf(),
        ensures
            final(self).spec_cols_wf(),
            id < old(self).spec_users().len() ==> final(self).spec_users() == old(
                self,
            ).spec_users().update(
                id as int,
                User {
                    id: old(self).spec_users()[id as int].id,
                    balance: old(self).spec_users()[id as int].balance.saturating_add(delta),
                    active: old(self).spec_users()[id as int].active,
                },
            ),
            id >= old(self).spec_users().len() ==> final(self).spec_users() == old(
                self,
            ).spec_users(),
            old(self).spec_wf() ==> final(self).spec_wf(),
    {
        if id < self.balances.len() {
            let updated = self.balances[id].saturating_add(delta);
            self.balances[id] = updated;
            proof {
                assert(self.spec_users() =~= old(self).spec_users().update(
                    id as int,
                    User {
                        id: old(self).spec_users()[id as int].id,
                        balance: old(self).spec_users()[id as int].balance.saturating_add(delta),
                        active: old(self).spec_users()[id as int].active,
                    },
                ));
                if old(self).spec_wf() {
                    assert forall|i: int| 0 <= i < self.spec_users().len() implies (
                    #[trigger] self.spec_users()[i]).id == i by {
                        assert(old(self).spec_users()[i].id == i);
                    }
                }
            }
        }
    }
}

impl UserRepository for InMemoryUserRepository {
    open spec fn users(&self) -> Seq<User> {
        self.spec_users()
    }

    open spec fn wf(&self) -> bool {
        self.spec_wf()
    }

    fn count(&self) -> (n: usize) {
        self.ids.len()
    }

    fn find_by_id(&self, id: usize) -> (r: Option<User>) {
        self.get_user(id)
    }

    fn user_at(&self, i: usize) -> (r: User) {
        User { id: self.ids[i], balance: self.balances[i], active: self.active[i] }
    }
}

/// The aggregation driven through the data-access capability: an id-counting
/// loop that fetches each user by point lookup, then applies the filter and
/// accumulates.  The lookup cost is the implementation's — a linear scan per
/// id for `VectorUserRepository`, one index for `InMemoryUserRepository`.
/// Never inlined, so the harness's timed invocations keep an observable
/// effect the optimizer cannot discard.
#[inline(never)]
pub fn sum_active_balances<R: UserRepository>(repository: &R, minimum_balance: u64) -> (checksum:
    u128)
    requires
        repository.wf(),
    ensures
        checksum == sum_qualifying(repository.users(), minimum_balance),
{
    let users = Ghost(repository.users());
    let count = repository.count();
    let mut checksum: u128 = 0;
    let mut i: usize = 0;
    while i < count
        invariant
            repository.wf(),
            users == Ghost(repository.users()),
            count == users@.len(),
            i <= count,
            checksum == sum_qualifying(users@.take(i as int), minimum_balance),
        decreases count - i,
    {
        proof {
            lemma_sum_take_step(users@, i as int, minimum_balance);
            lemma_sum_qualifying_bound(users@.take(i + 1), minimum_balance);
            assert((i + 1) * (u64::MAX as int) < u128::MAX) by (nonlinear_arith)
                requires
                    0 <= i < usize::MAX,
            ;
        }
        if let Some(user) = repository.find_by_id(i) {
            if qualifies(&user, minimum_balance) {
                checksum = checksum + user.balance as u128;
            }
        }
        i = i + 1;
    }
    proof {
        assert(users@.take(count as int) =~= users@);
    }
    checksum
}

impl Strategy for VectorUserRepository {
    open spec fn users(&self) -> Seq<User> {
        self.spec_users()
    }

    open spec fn wf(&self) -> bool {
        self.spec_wf()
    }

    fn count(&self) -> (n: usize) {
        self.users.len()
    }

    fn sum_active_balances(&self, minimum_balance: u64) -> (checksum: u128) {
        sum_active_balances(self, minimum_balance)
    }
}

impl Strategy for InMemoryUserRepository {
    open spec fn users(&self) -> Seq<User> {
        self.spec_users()
    }

    open spec fn wf(&self) -> bool {
        self.spec_wf()
    }

    fn count(&self) -> (n: usize) {
        self.ids.len()
    }

    fn sum_active_balances(&self, minimum_balance: u64) -> (checksum: u128) {
        sum_active_balances(self, minimum_balance)
    }
}

} // verus!
