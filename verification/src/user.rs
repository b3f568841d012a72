use vstd::prelude::*;

verus! {

/// Balances are held in thousandths of a currency unit.
pub const BALANCE_SCALE: u64 = 1000;

/// Generated balances lie in `[0, BALANCE_LIMIT)`, i.e. below 1000 units.
pub const BALANCE_LIMIT: u64 = 1000000;

/// One synthetic user: a dense id, a fixed-point balance and an active flag.
#[derive(Clone, Copy, PartialEq, Eq, Structural, Debug)]
pub struct User {
    pub id: usize,
    pub balance: u64,
    pub active: bool,
}

/// The business rule of the workload: a user contributes to the sum exactly
/// when it is active and its balance meets or exceeds the threshold
/// (inclusive comparison).
pub open spec fn spec_qualifies(user: User, minimum_balance: u64) -> bool {
    user.active && user.balance >= minimum_balance
}

/// Executable form of the qualification rule.
pub fn qualifies(user: &User, minimum_balance: u64) -> (r: bool)
    ensures
        r == spec_qualifies(*user, minimum_balance),
{
    user.active && user.balance >= minimum_balance
}

} // verus!
