use vstd::prelude::*;

use crate::prng::{spec_draw, spec_next_state, spec_state_after, SplitMix64};
use crate::user::{User, BALANCE_LIMIT};

verus! {

/// Active flags are drawn with probability `ACTIVE_PERCENT` out of 100.
pub const ACTIVE_PERCENT: u64 = 60;

// Each user consumes two draws, in id order: first the balance, then the
// active flag.  This draw order is part of the generation contract: two runs
// with the same seed and count must produce the same dataset.

/// The balance of the user with id `i`, for a given seed.
pub open spec fn spec_balance(seed: u64, i: nat) -> u64 {
    spec_draw(seed, 2 * i) % BALANCE_LIMIT
}

/// The active flag of the user with id `i`, for a given seed.
pub open spec fn spec_active(seed: u64, i: nat) -> bool {
    spec_draw(seed, 2 * i + 1) % 100 < ACTIVE_PERCENT
}

/// The user with id `i`, for a given seed.
pub open spec fn spec_user(seed: u64, i: nat) -> User {
    User { id: i as usize, balance: spec_balance(seed, i), active: spec_active(seed, i) }
}

/// The whole generated dataset: a function of `count` and `seed` alone.
pub open spec fn spec_dataset(count: nat, seed: u64) -> Seq<User> {
    Seq::new(count, |i: int| spec_user(seed, i as nat))
}

/// A dataset is well formed when ids are dense and zero-based (the id equals
/// the position) and every balance lies below `BALANCE_LIMIT`.
pub open spec fn dataset_wf(users: Seq<User>) -> bool {
    forall|i: int|
        0 <= i < users.len() ==> (#[trigger] users[i]).id == i && users[i].balance < BALANCE_LIMIT
}

/// Determinism: the generated dataset is a function of `count` and `seed`
/// alone, so any two datasets produced from the same count and seed are
/// identical — same ids, same balances, same active flags, in the same
/// order.  `generate` pins its result to `spec_dataset`, which makes this
/// hold of any two of its calls.
pub proof fn lemma_generate_deterministic(users1: Seq<User>, users2: Seq<User>, count: nat, seed: u64)
    requires
        users1 == spec_dataset(count, seed),
        users2 == spec_dataset(count, seed),
    ensures
        users1 == users2,
{
}

/// The ordered collection of generated users.
pub struct Dataset {
    users: Vec<User>,
}

impl Dataset {
    pub closed spec fn view(&self) -> Seq<User> {
        self.users@
    }

    /// Number of users held.
    pub fn len(&self) -> (n: usize)
        ensures
            n == self@.len(),
    {
        self.users.len()
    }

    /// A copy of the users, in id order, for a strategy to adapt into its
    /// own representation.
    pub fn to_users(&self) -> (r: Vec<User>)
        ensures
            r@ == self@,
    {
        let mut out: Vec<User> = Vec::new();
        let mut i: usize = 0;
        while i < self.users.len()
            invariant
                i <= self.users.len(),
                out@ == self.users@.take(i as int),
            decreases self.users.len() - i,
        {
            out.push(self.users[i]);
            proof {
                assert(self.users@.take(i + 1) =~= self.users@.take(i as int).push(
                    self.users@[i as int],
                ));
            }
            i = i + 1;
        }
        proof {
            assert(self.users@.take(self.users@.len() as int) =~= self.users@);
        }
        out
    }
}

/// Produce exactly `count` users deterministically from `seed`.
///
/// The result is pinned to `spec_dataset(count, seed)`, a function of the
/// arguments alone, so two calls with the same arguments yield identical
/// datasets (same ids, balances and active flags, in the same order).
/// `count == 0` is valid and yields an empty dataset.
pub fn generate(count: usize, seed: u64) -> (r: Dataset)
    ensures
        r@ == spec_dataset(count as nat, seed),
        r@.len() == count,
        dataset_wf(r@),
{
    let mut users: Vec<User> = Vec::new();
    let mut rng = SplitMix64::new(seed);
    let mut i: usize = 0;
    while i < count
        invariant
            i <= count,
            rng.state == spec_state_after(seed, 2 * i as nat),
            users@ == spec_dataset(count as nat, seed).take(i as int),
        decreases count - i,
    {
        proof {
            assert(spec_state_after(seed, 2 * i as nat + 1) == spec_next_state(
                spec_state_after(seed, 2 * i as nat),
            ));
            assert(spec_state_after(seed, 2 * i as nat + 2) == spec_next_state(
                spec_state_after(seed, 2 * i as nat + 1),
            ));
        }
        let balance_raw = rng.next_u64();
        let active_raw = rng.next_u64();
        assert(balance_raw == spec_draw(seed, 2 * i as nat));
        assert(active_raw == spec_draw(seed, 2 * i as nat + 1));
        let user = User {
            id: i,
            balance: balance_raw % BALANCE_LIMIT,
            active: active_raw % 100 < ACTIVE_PERCENT,
        };
        users.push(user);
        proof {
            assert(user == spec_user(seed, i as nat));
            assert(spec_dataset(count as nat, seed).take(i + 1) =~= spec_dataset(
                count as nat,
                seed,
            ).take(i as int).push(spec_user(seed, i as nat)));
        }
        i = i + 1;
    }
    proof {
        assert(spec_dataset(count as nat, seed).take(count as int) =~= spec_dataset(
            count as nat,
            seed,
        ));
        assert forall|j: int| 0 <= j < count implies (#[trigger] spec_dataset(
            count as nat,
            seed,
        )[j]).id == j && spec_dataset(count as nat, seed)[j].balance < BALANCE_LIMIT by {
            assert(spec_dataset(count as nat, seed)[j] == spec_user(seed, j as nat));
        }
    }
    Dataset { users }
}

} // verus!
