use vstd::prelude::*;

use crate::aggregate::sum_qualifying;
use crate::user::User;

verus! {

/// The capability set every data-layout variant satisfies.  A variant may
/// store its users however it likes; what it must expose is its logical
/// content (`users`), its size, and the one aggregation query of the
/// workload, pinned to the shared specification `sum_qualifying`.
///
/// Because every implementation proves its checksum equal to
/// `sum_qualifying` over its own `users`, any two variants holding the same
/// users report the same checksum.
pub trait Strategy {
    /// The logical content: the users held, in id order.
    spec fn users(&self) -> Seq<User>;

    /// The representation invariant a freshly built variant establishes.
    spec fn wf(&self) -> bool;

    /// Number of users held.
    fn count(&self) -> (n: usize)
        ensures
            n == self.users().len(),
    ;

    /// The aggregation query: the sum of the balances of active users whose
    /// balance meets or exceeds `minimum_balance`.  Never mutates the
    /// variant; visits every user exactly once.
    fn sum_active_balances(&self, minimum_balance: u64) -> (checksum: u128)
        requires
            self.wf(),
        ensures
            checksum == sum_qualifying(self.users(), minimum_balance),
    ;
}

} // verus!
