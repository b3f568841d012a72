use balance_bench::columnar::UsersView;
use balance_bench::dataset::generate;
use balance_bench::harness::{derive_stats, measure_execution_time, run, ConfigError};
use balance_bench::strategy::Strategy;

#[test]
fn run_rejects_zero_iterations() {
    let view = UsersView::build(&generate(10, 1).to_users());
    assert_eq!(
        run(&view, 250000, 2, 0).map(|o| o.checksum),
        Err(ConfigError::ZeroIterations)
    );
}

#[test]
fn run_retains_the_warmup_checksum() {
    let users = generate(100, 3).to_users();
    let view = UsersView::build(&users);
    let expected = view.sum_active_balances(250000);
    let outcome = run(&view, 250000, 2, 4).unwrap();
    assert_eq!(outcome.checksum, expected);
}

#[test]
fn run_without_warmup_retains_nothing() {
    let view = UsersView::build(&generate(100, 3).to_users());
    let outcome = run(&view, 250000, 0, 4).unwrap();
    assert_eq!(outcome.checksum, 0);
}

#[test]
fn measure_returns_an_elapsed_time() {
    let view = UsersView::build(&generate(100, 3).to_users());
    // A clock reading: only its representation bound is promised.
    let total_nanos = measure_execution_time(&view, 250000, 3);
    assert!(total_nanos <= u64::MAX as u128 * 1_000_000_000 + 999_999_999);
}

#[test]
fn derive_stats_exact_values() {
    let stats = derive_stats(1000, 10, 5).unwrap();
    assert_eq!(stats.average_nanos, 100);
    assert_eq!(stats.nanos_per_element_milli, 20000);
    assert_eq!(stats.elements_per_second, 50000000);
}

#[test]
fn derive_stats_rejects_zero_iterations() {
    assert_eq!(
        derive_stats(1000, 0, 5).map(|s| s.average_nanos),
        Err(ConfigError::ZeroIterations)
    );
}

#[test]
fn derive_stats_rejects_zero_elements() {
    assert_eq!(
        derive_stats(1000, 10, 0).map(|s| s.average_nanos),
        Err(ConfigError::ZeroElements)
    );
}

#[test]
fn derive_stats_with_zero_elapsed_time() {
    let stats = derive_stats(0, 10, 5).unwrap();
    assert_eq!(stats.average_nanos, 0);
    assert_eq!(stats.nanos_per_element_milli, 0);
    assert_eq!(stats.elements_per_second, 0);
}
