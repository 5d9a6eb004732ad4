use rusty::config::Component;
use rusty::fault::{delay_at, fails_on_roll};

#[test]
fn never_fails_at_zero() {
    let c = Component::from_config(Some("0"), None, None);
    for _ in 0..1000 {
        assert!(!c.should_error());
    }
}

#[test]
fn always_fails_at_hundred() {
    let c = Component::from_config(Some("100"), None, None);
    for _ in 0..1000 {
        assert!(c.should_error());
    }
}

#[test]
fn failure_rate_converges() {
    let c = Component::from_config(Some("30"), None, None);
    let trials = 20000;
    let mut failures = 0;
    for _ in 0..trials {
        if c.should_error() {
            failures += 1;
        }
    }
    let rate = failures as f64 / trials as f64;
    assert!((rate - 0.30).abs() < 0.03, "rate {}", rate);
}

#[test]
fn rolls_decide_failure() {
    assert!(!fails_on_roll(0, 1));
    assert!(!fails_on_roll(0, 100));
    assert!(fails_on_roll(30, 1));
    assert!(fails_on_roll(30, 30));
    assert!(!fails_on_roll(30, 31));
    assert!(fails_on_roll(100, 100));
    let failing = (1..=100u32).filter(|r| fails_on_roll(42, *r)).count();
    assert_eq!(failing, 42);
}

#[test]
fn no_buckets_no_delay() {
    let c = Component::from_config(None, Some(""), None);
    for _ in 0..100 {
        assert_eq!(c.choose_delay(), 0);
    }
    assert_eq!(delay_at(&Vec::new(), 0), 0);
}

#[test]
fn delay_is_one_of_the_buckets() {
    let c = Component::from_config(None, Some("5,50,500"), None);
    let mut seen = [false; 3];
    for _ in 0..1000 {
        let d = c.choose_delay();
        let pos = c.delay_buckets.iter().position(|b| *b == d);
        assert!(pos.is_some());
        seen[pos.unwrap()] = true;
    }
    assert!(seen.iter().all(|s| *s));
    assert_eq!(delay_at(&vec![5, 50, 500], 2), 500);
}
