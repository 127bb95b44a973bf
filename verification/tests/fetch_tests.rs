//! The rate-limiting fetch gate on concrete clocks.

use pixivdwn::fetch::{update_delay_settings, FetchGate};

#[test]
fn first_call_waits_nothing() {
    let gate = FetchGate::new();
    assert_eq!(gate.wait_ms(1_000), 0);
}

#[test]
fn three_calls_with_base_100_and_no_jitter_span_200ms() {
    // base delay 100 ms, jitter 0: the schedule is deterministic
    let settings = update_delay_settings(100, 0);
    let gate = FetchGate::new();

    // call one goes out immediately at t=1000 and completes at t=1010
    let t1: u64 = 1_000;
    assert_eq!(gate.wait_ms(t1), 0);
    let gate = gate.completed(1_010, &settings);

    // call two arrives right away and must wait out the full delay
    assert_eq!(gate.wait_ms(1_010), 100);
    let t2 = 1_010 + gate.wait_ms(1_010);
    assert_eq!(t2, 1_110);
    let gate = gate.completed(t2, &settings);

    // call three likewise
    let t3 = t2 + gate.wait_ms(t2);
    assert_eq!(t3, 1_210);

    // two inter-call gaps: at least 200 ms elapsed in total
    assert!(t3 - t1 >= 200);
}

#[test]
fn elapsed_deadline_means_no_wait() {
    let settings = update_delay_settings(100, 0);
    let gate = FetchGate::new().completed(500, &settings);
    // a request arriving after the deadline passes straight through
    assert_eq!(gate.wait_ms(700), 0);
    // one arriving halfway waits the remainder
    assert_eq!(gate.wait_ms(550), 50);
}

#[test]
fn jitter_stays_within_the_variance() {
    // the scheduled delay always lands in [base - var, base + var]
    let settings = update_delay_settings(2_500, 500);
    for _ in 0..50 {
        let gate = FetchGate::new().completed(10_000, &settings);
        let d = match gate.not_before_ms {
            Some(d) => d,
            None => panic!("a completion always schedules a deadline"),
        };
        assert!((12_000..=13_000).contains(&d));
    }
}
