//! Spacing of outbound requests through the shared throttle.

use calibre_bot::throttle::ThrottleGate;

#[test]
fn first_request_goes_out_at_once() {
    let mut g = ThrottleGate::new(500);
    assert_eq!(g.required_delay(1000), 0);
    assert_eq!(g.acquire(1000), 1000);
}

#[test]
fn close_arrivals_are_pushed_apart() {
    let mut g = ThrottleGate::new(500);
    let s1 = g.acquire(1000);
    let s2 = g.acquire(1200);
    let s3 = g.acquire(1900);
    let s4 = g.acquire(2100);
    assert_eq!((s1, s2, s3, s4), (1000, 1500, 2000, 2500));
    for (a, b) in [(s1, s2), (s2, s3), (s3, s4)] {
        assert!(b - a >= 500);
    }
}

#[test]
fn a_late_arrival_is_not_delayed() {
    let mut g = ThrottleGate::new(500);
    let s1 = g.acquire(1000);
    let s2 = g.acquire(5000);
    assert_eq!((s1, s2), (1000, 5000));
}

#[test]
fn delay_is_the_remaining_interval() {
    let mut g = ThrottleGate::new(500);
    g.record_request(2000);
    assert_eq!(g.required_delay(2000), 500);
    assert_eq!(g.required_delay(2100), 400);
    assert_eq!(g.required_delay(2499), 1);
    assert_eq!(g.required_delay(2500), 0);
    assert_eq!(g.required_delay(9000), 0);
}

#[test]
fn many_cycles_keep_the_minimum_gap() {
    let mut g = ThrottleGate::new(500);
    let arrivals = [0u64, 1, 2, 400, 450, 2600, 2601, 2602, 9000, 9001];
    let mut starts = Vec::new();
    for now in arrivals {
        let now = if let Some(l) = g.last_request_ms { now.max(l) } else { now };
        starts.push(g.acquire(now));
    }
    for w in starts.windows(2) {
        assert!(w[1] - w[0] >= 500);
    }
}
