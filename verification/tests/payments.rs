use faucet::auth::AuthUser;
use faucet::payments::{PaymentTracker, PaymentsByIp, CACHE_DURATION};
use faucet::{MAX_SEND_AMOUNT, MAX_WINDOW_AMOUNT};

const HOUR: u128 = 3_600_000_000_000;

fn user(name: &str) -> AuthUser {
    AuthUser { username: name.to_string() }
}

#[test]
fn caps_are_one_and_ten_million() {
    assert_eq!(MAX_SEND_AMOUNT, 1_000_000);
    assert_eq!(MAX_WINDOW_AMOUNT, 10 * MAX_SEND_AMOUNT);
    assert_eq!(CACHE_DURATION, 24 * HOUR);
}

#[test]
fn record_then_total_returns_amount() {
    let mut ledger = PaymentsByIp::new();
    ledger.add_payment_at("1.2.3.4", None, None, 50_000, 0);
    assert_eq!(ledger.get_total_payments_at("1.2.3.4", 0), 50_000);
}

#[test]
fn record_then_total_on_the_running_clock() {
    let mut ledger = PaymentsByIp::new();
    ledger.add_payment("1.2.3.4", None, None, 50_000);
    assert_eq!(ledger.get_total_payments("1.2.3.4"), 50_000);
    assert!(!ledger.verify_payments("1.2.3.4", None, None));
}

#[test]
fn total_is_sum_of_payments_within_a_day() {
    let mut ledger = PaymentsByIp::new();
    ledger.add_payment_at("k", None, None, 10, 0);
    ledger.add_payment_at("k", None, None, 20, 5 * HOUR);
    ledger.add_payment_at("k", None, None, 30, 23 * HOUR);
    assert_eq!(ledger.get_total_payments_at("k", 23 * HOUR + 1), 60);
}

#[test]
fn payments_a_day_apart_do_not_all_count() {
    let mut ledger = PaymentsByIp::new();
    ledger.add_payment_at("k", None, None, 10, 0);
    ledger.add_payment_at("k", None, None, 20, 23 * HOUR);
    ledger.add_payment_at("k", None, None, 30, 46 * HOUR);
    assert_eq!(ledger.get_total_payments_at("k", 46 * HOUR), 50);
}

#[test]
fn eviction_is_exact_at_the_boundary() {
    let mut ledger = PaymentsByIp::new();
    ledger.add_payment_at("k", None, None, 700, 1_000);
    assert_eq!(ledger.get_total_payments_at("k", 1_000 + CACHE_DURATION - 1), 700);
    assert_eq!(ledger.get_total_payments_at("k", 1_000 + CACHE_DURATION), 700);
    assert_eq!(ledger.get_total_payments_at("k", 1_000 + CACHE_DURATION + 1), 0);
    assert_eq!(ledger.get_total_payments_at("k", 1_000), 0);
}

#[test]
fn only_the_aged_payment_is_dropped() {
    let mut ledger = PaymentsByIp::new();
    ledger.add_payment_at("k", None, None, 100, 0);
    ledger.add_payment_at("k", None, None, 200, HOUR);
    assert_eq!(ledger.get_total_payments_at("k", CACHE_DURATION), 300);
    assert_eq!(ledger.get_total_payments_at("k", CACHE_DURATION + 1), 200);
    assert_eq!(ledger.get_total_payments_at("k", CACHE_DURATION + HOUR), 200);
    assert_eq!(ledger.get_total_payments_at("k", CACHE_DURATION + HOUR + 1), 0);
}

#[test]
fn a_clock_reading_before_the_payment_counts_it() {
    let mut ledger = PaymentsByIp::new();
    ledger.add_payment_at("k", None, None, 5, 10 * HOUR);
    assert_eq!(ledger.get_total_payments_at("k", 0), 5);
}

#[test]
fn unknown_key_is_zero_and_makes_no_tracker() {
    let mut ledger = PaymentsByIp::new();
    assert!(!ledger.is_known("9.9.9.9"));
    assert_eq!(ledger.get_total_payments_at("9.9.9.9", 0), 0);
    assert!(!ledger.is_known("9.9.9.9"));
    assert!(!ledger.verify_payments_at("9.9.9.9", Some("addr"), Some(&user("bob")), 0));
    assert!(!ledger.is_known("9.9.9.9"));
    assert!(!ledger.is_known("addr"));
    assert!(!ledger.is_known("github:bob"));
}

#[test]
fn one_payment_reaches_three_keys_independently() {
    let mut ledger = PaymentsByIp::new();
    ledger.add_payment_at("ip-a", None, None, 7, 0);
    ledger.add_payment_at("ip-b", Some("addr"), Some(&user("alice")), 1_000, 1);
    assert!(ledger.is_known("ip-b"));
    assert!(ledger.is_known("addr"));
    assert!(ledger.is_known("github:alice"));
    assert!(!ledger.is_known("alice"));
    assert_eq!(ledger.get_total_payments_at("ip-b", 1), 1_000);
    assert_eq!(ledger.get_total_payments_at("addr", 1), 1_000);
    assert_eq!(ledger.get_total_payments_at("github:alice", 1), 1_000);
    assert_eq!(ledger.get_total_payments_at("ip-a", 1), 7);
    assert_eq!(ledger.get_total_payments_at("other", 1), 0);
}

#[test]
fn a_key_given_twice_is_written_twice() {
    let mut ledger = PaymentsByIp::new();
    ledger.add_payment_at("same", Some("same"), None, 40, 0);
    assert_eq!(ledger.get_total_payments_at("same", 0), 80);
}

#[test]
fn admission_passes_below_the_caps() {
    let mut ledger = PaymentsByIp::new();
    ledger.add_payment_at("1.2.3.4", Some("addr"), Some(&user("alice")), 999_999, 0);
    assert!(!ledger.verify_payments_at("1.2.3.4", Some("addr"), Some(&user("alice")), 0));
}

#[test]
fn admission_near_the_window_cap() {
    let mut ledger = PaymentsByIp::new();
    let mut now = 0;
    for _ in 0..9 {
        ledger.add_payment_at("1.2.3.4", None, None, 1_000_000, now);
        now += 1;
    }
    ledger.add_payment_at("1.2.3.4", None, None, 500_000, now);
    assert_eq!(ledger.get_total_payments_at("1.2.3.4", now), 9_500_000);
    assert!(!ledger.verify_payments_at("1.2.3.4", None, None, now));
    ledger.add_payment_at("1.2.3.4", None, None, 600_000, now);
    assert_eq!(ledger.get_total_payments_at("1.2.3.4", now), 10_100_000);
    assert!(ledger.verify_payments_at("1.2.3.4", None, None, now));
}

#[test]
fn admission_rejects_at_exactly_the_window_cap() {
    let mut ledger = PaymentsByIp::new();
    ledger.add_payment_at("1.2.3.4", None, None, 9_999_999, 0);
    assert!(!ledger.verify_payments_at("1.2.3.4", None, None, 0));
    ledger.add_payment_at("1.2.3.4", None, None, 1, 0);
    assert!(ledger.verify_payments_at("1.2.3.4", None, None, 0));
}

#[test]
fn admission_sums_the_three_keys() {
    let mut ledger = PaymentsByIp::new();
    ledger.add_payment_at("ip", None, None, 5_000_000, 0);
    ledger.add_payment_at("other-ip", None, Some(&user("alice")), 4_500_000, 0);
    ledger.add_payment_at("third-ip", Some("addr"), None, 500_000, 0);
    assert!(!ledger.verify_payments_at("ip", None, None, 0));
    assert!(!ledger.verify_payments_at("ip", None, Some(&user("alice")), 0));
    assert!(ledger.verify_payments_at("ip", Some("addr"), Some(&user("alice")), 0));
}

#[test]
fn destination_alone_at_the_single_cap_is_rejected() {
    let mut ledger = PaymentsByIp::new();
    ledger.add_payment_at("old-ip", Some("addr"), None, 1_000_000, 0);
    assert!(ledger.verify_payments_at("fresh-ip", Some("addr"), Some(&user("fresh")), 1));
    assert!(!ledger.verify_payments_at("fresh-ip", Some("other-addr"), Some(&user("fresh")), 1));
    assert!(!ledger.verify_payments_at("fresh-ip", None, Some(&user("fresh")), 1));
    assert!(!ledger.verify_payments_at("addr", None, None, 1));
}

#[test]
fn destination_below_the_single_cap_passes() {
    let mut ledger = PaymentsByIp::new();
    ledger.add_payment_at("old-ip", Some("addr"), None, 999_999, 0);
    assert!(!ledger.verify_payments_at("fresh-ip", Some("addr"), None, 1));
}

#[test]
fn admission_forgets_after_a_day() {
    let mut ledger = PaymentsByIp::new();
    ledger.add_payment_at("ip", Some("addr"), None, 1_000_000, 0);
    assert!(ledger.verify_payments_at("ip", Some("addr"), None, CACHE_DURATION - 1));
    assert!(ledger.verify_payments_at("ip", Some("addr"), None, CACHE_DURATION));
    assert!(!ledger.verify_payments_at("ip", Some("addr"), None, CACHE_DURATION + 1));
}

#[test]
fn a_total_beyond_u64_is_reported_as_the_largest() {
    let mut ledger = PaymentsByIp::new();
    ledger.add_payment_at("k", None, None, u64::MAX, 0);
    ledger.add_payment_at("k", None, None, u64::MAX, 0);
    assert_eq!(ledger.get_total_payments_at("k", 0), u64::MAX);
    assert!(ledger.verify_payments_at("k", Some("k"), None, 0));
}

#[test]
fn tracker_sums_and_evicts() {
    let mut tracker = PaymentTracker::new();
    assert_eq!(tracker.sum_payments_at(0), 0);
    tracker.add_payment_at(0, 1);
    tracker.add_payment_at(10, 2);
    tracker.add_payment_at(10, 4);
    assert_eq!(tracker.sum_payments_at(10), 7);
    assert_eq!(tracker.sum_payments_at(CACHE_DURATION), 7);
    assert_eq!(tracker.sum_payments_at(CACHE_DURATION + 1), 6);
    tracker.clean_old_payments_at(CACHE_DURATION + 10);
    assert_eq!(tracker.sum_payments_at(CACHE_DURATION + 10), 6);
    tracker.clean_old_payments_at(CACHE_DURATION + 11);
    assert_eq!(tracker.sum_payments_at(CACHE_DURATION + 11), 0);
    tracker.add_payment_at(3, 9);
    assert_eq!(tracker.sum_payments_at(3), 9);
}

#[test]
fn tracker_on_the_running_clock() {
    let mut tracker = PaymentTracker::new();
    tracker.add_payment(11);
    tracker.add_payment(22);
    tracker.clean_old_payments();
    assert_eq!(tracker.sum_payments(), 33);
}

#[test]
fn newest_time_is_kept() {
    let mut ledger = PaymentsByIp::new();
    assert_eq!(ledger.latest_time(), 0);
    ledger.add_payment_at("a", None, None, 1, 77);
    ledger.add_payment_at("b", None, None, 1, 99);
    assert_eq!(ledger.latest_time(), 99);
    ledger.get_total_payments_at("a", 100 + CACHE_DURATION);
    assert_eq!(ledger.latest_time(), 99);
    let mut tracker = PaymentTracker::new();
    assert_eq!(tracker.latest_time(), 0);
    tracker.add_payment_at(5, 1);
    assert_eq!(tracker.latest_time(), 5);
    tracker.add_payment(1);
    assert!(tracker.latest_time() >= 5);
}

#[test]
fn the_running_clock_never_reads_before_the_newest_payment() {
    let mut tracker = PaymentTracker::new();
    tracker.add_payment_at(0, 1);
    tracker.add_payment_at(u128::MAX - CACHE_DURATION - 1, 2);
    tracker.add_payment_at(u128::MAX, 4);
    tracker.clean_old_payments();
    assert_eq!(tracker.sum_payments_at(u128::MAX), 4);

    let mut tracker = PaymentTracker::new();
    tracker.add_payment_at(0, 1);
    tracker.add_payment_at(u128::MAX, 4);
    assert_eq!(tracker.sum_payments(), 4);

    let mut ledger = PaymentsByIp::new();
    ledger.add_payment_at("old", Some("addr"), None, 1_000_000, 0);
    ledger.add_payment_at("new", None, None, 1, u128::MAX);
    assert_eq!(ledger.get_total_payments("old"), 0);
    assert!(!ledger.verify_payments("ip", Some("addr"), None));
    assert_eq!(ledger.get_total_payments("new"), 1);
}
