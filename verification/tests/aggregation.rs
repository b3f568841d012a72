use balance_bench::columnar::{self, UsersView};
use balance_bench::dataset::generate;
use balance_bench::layered::{BalanceRule, UserService};
use balance_bench::repository::{self, InMemoryUserRepository, UserRepository, VectorUserRepository};
use balance_bench::strategy::Strategy;
use balance_bench::user::{qualifies, User};

fn user(id: usize, balance: u64, active: bool) -> User {
    User { id, balance, active }
}

#[test]
fn qualifies_is_inclusive_at_the_threshold() {
    assert!(qualifies(&user(0, 250000, true), 250000));
    assert!(!qualifies(&user(0, 249999, true), 250000));
    assert!(!qualifies(&user(0, 250000, false), 250000));
}

#[test]
fn threshold_boundary() {
    // One user exactly at the threshold, one a single unit below.
    let users = vec![user(0, 500000, true), user(1, 499999, true)];
    let view = UsersView::build(&users);
    assert_eq!(columnar::sum_active_balances(&view, 500000), 500000);
}

#[test]
fn inactive_users_contribute_zero() {
    // The inactive user's balance is far above the threshold.
    let users = vec![user(0, 999999, false), user(1, 300000, true)];
    let view = UsersView::build(&users);
    assert_eq!(columnar::sum_active_balances(&view, 100000), 300000);
}

#[test]
fn completeness_every_user_counted_once() {
    // Every user is active and above the threshold, so the checksum must be
    // the exact sum of all balances.
    let users: Vec<User> = (0..100).map(|i| user(i, 1000 + i as u64, true)).collect();
    let exact: u128 = users.iter().map(|u| u.balance as u128).sum();
    let view = UsersView::build(&users);
    let repo = VectorUserRepository::new(users.clone());
    let indexed = InMemoryUserRepository::new(users.clone());
    let service = UserService::new(VectorUserRepository::new(users), BalanceRule);
    assert_eq!(columnar::sum_active_balances(&view, 0), exact);
    assert_eq!(repository::sum_active_balances(&repo, 0), exact);
    assert_eq!(repository::sum_active_balances(&indexed, 0), exact);
    assert_eq!(service.service_sum_active_balances(0), exact);
}

#[test]
fn cross_variant_equivalence() {
    let users = generate(500, 5).to_users();
    let threshold: u64 = 300000;
    let view = UsersView::build(&users);
    let repo = VectorUserRepository::new(users.clone());
    let indexed = InMemoryUserRepository::new(users.clone());
    let service = UserService::new(InMemoryUserRepository::new(users), BalanceRule);
    let reference = view.sum_active_balances(threshold);
    assert_eq!(repo.sum_active_balances(threshold), reference);
    assert_eq!(indexed.sum_active_balances(threshold), reference);
    assert_eq!(service.sum_active_balances(threshold), reference);
}

#[test]
fn example_scenario() {
    // Seed 17, 10000 users, threshold 250 units: the golden regression
    // value, identical for every variant.
    let users = generate(10000, 17).to_users();
    let threshold: u64 = 250000;
    let golden: u128 = 2832121124;
    let view = UsersView::build(&users);
    let repo = VectorUserRepository::new(users.clone());
    let indexed = InMemoryUserRepository::new(users.clone());
    let service = UserService::new(InMemoryUserRepository::new(users), BalanceRule);
    assert_eq!(view.sum_active_balances(threshold), golden);
    assert_eq!(repo.sum_active_balances(threshold), golden);
    assert_eq!(indexed.sum_active_balances(threshold), golden);
    assert_eq!(service.sum_active_balances(threshold), golden);
}

#[test]
fn empty_dataset_yields_zero_for_every_variant() {
    let users = generate(0, 17).to_users();
    let view = UsersView::build(&users);
    let repo = VectorUserRepository::new(users.clone());
    let indexed = InMemoryUserRepository::new(users.clone());
    let service = UserService::new(VectorUserRepository::new(users), BalanceRule);
    assert_eq!(view.sum_active_balances(250000), 0);
    assert_eq!(repo.sum_active_balances(250000), 0);
    assert_eq!(indexed.sum_active_balances(250000), 0);
    assert_eq!(service.sum_active_balances(250000), 0);
}

#[test]
fn find_by_id_hit_and_miss() {
    let users = vec![user(0, 10, true), user(1, 20, false), user(2, 30, true)];
    let repo = VectorUserRepository::new(users.clone());
    let indexed = InMemoryUserRepository::new(users);
    assert_eq!(repo.find_by_id(1), Some(user(1, 20, false)));
    assert_eq!(repo.find_by_id(3), None);
    assert_eq!(indexed.get_user(2), Some(user(2, 30, true)));
    assert_eq!(indexed.get_user(3), None);
}

#[test]
fn get_all_returns_the_content() {
    let users = vec![user(0, 10, true), user(1, 20, false)];
    let repo = VectorUserRepository::new(users.clone());
    let indexed = InMemoryUserRepository::new(users.clone());
    assert_eq!(repo.get_all().clone(), users);
    assert_eq!(indexed.get_all(), users);
}

#[test]
fn update_balance_adds_and_saturates() {
    let users = vec![user(0, 10, true), user(1, u64::MAX - 5, true)];
    let mut indexed = InMemoryUserRepository::new(users);
    indexed.update_balance(0, 7);
    indexed.update_balance(1, 100);
    indexed.update_balance(9, 1);
    assert_eq!(indexed.get_user(0), Some(user(0, 17, true)));
    assert_eq!(indexed.get_user(1), Some(user(1, u64::MAX, true)));
}

#[test]
fn high_value_users_are_the_qualifying_ones() {
    let users = vec![
        user(0, 400000, true),
        user(1, 100000, true),
        user(2, 900000, false),
        user(3, 500000, true),
    ];
    let service = UserService::new(VectorUserRepository::new(users), BalanceRule);
    assert!(service.qualifies_for_sum(&user(0, 400000, true), 250000));
    let high = service.get_high_value_users(250000);
    assert_eq!(high, vec![user(0, 400000, true), user(3, 500000, true)]);
}
