use balance_bench::dataset::generate;
use balance_bench::user::{User, BALANCE_LIMIT};

#[test]
fn generate_is_deterministic() {
    let a = generate(100, 7);
    let b = generate(100, 7);
    assert_eq!(a.len(), 100);
    assert_eq!(b.len(), 100);
    assert_eq!(a.to_users(), b.to_users());
}

#[test]
fn generate_differs_across_seeds() {
    let a = generate(100, 7);
    let b = generate(100, 8);
    assert_ne!(a.to_users(), b.to_users());
}

#[test]
fn empty_dataset_is_valid() {
    let d = generate(0, 99);
    assert_eq!(d.len(), 0);
    assert_eq!(d.to_users(), Vec::<User>::new());
}

#[test]
fn ids_are_dense_and_balances_in_range() {
    let users = generate(50, 123).to_users();
    for (i, user) in users.iter().enumerate() {
        assert_eq!(user.id, i);
        assert!(user.balance < BALANCE_LIMIT);
    }
}

#[test]
fn known_values_for_seed_42() {
    let users = generate(5, 42).to_users();
    let expected = vec![
        User { id: 0, balance: 275413, active: false },
        User { id: 1, balance: 763858, active: false },
        User { id: 2, balance: 963250, active: false },
        User { id: 3, balance: 624925, active: true },
        User { id: 4, balance: 482005, active: false },
    ];
    assert_eq!(users, expected);
}

#[test]
fn active_rate_is_near_sixty_percent() {
    let users = generate(10000, 17).to_users();
    let active = users.iter().filter(|u| u.active).count();
    assert_eq!(active, 6005);
}
