use faderflow::comms::watchdog::Observation::{Alive, Cancelled, Silent};
use faderflow::comms::watchdog::{
    Observation, Verdict, Watchdog, WATCHDOG_FAIL_THRESHOLD, WATCHDOG_INTERVAL_MS,
};

fn run(seen: &[Observation]) -> Vec<Verdict> {
    let mut watchdog = Watchdog::new();
    seen.iter().map(|s| watchdog.tick(*s)).collect()
}

#[test]
fn constants_of_the_watchdog() {
    assert_eq!(WATCHDOG_INTERVAL_MS, 500);
    assert_eq!(WATCHDOG_FAIL_THRESHOLD, 3);
}

#[test]
fn three_failures_in_a_row_report_the_loss_once() {
    let verdicts = run(&[Alive, Silent, Silent, Silent, Silent, Alive, Silent]);
    assert_eq!(
        verdicts,
        vec![
            Verdict::Continue,
            Verdict::Continue,
            Verdict::Continue,
            Verdict::DeviceLost,
            Verdict::Stopped,
            Verdict::Stopped,
            Verdict::Stopped,
        ]
    );
    let losses = verdicts.iter().filter(|v| **v == Verdict::DeviceLost).count();
    assert_eq!(losses, 1);
}

#[test]
fn the_loss_comes_between_one_and_two_seconds_after_the_first_failure() {
    let seen = [Alive, Alive, Silent, Silent, Silent];
    let verdicts = run(&seen);
    let first_failure = seen.iter().position(|s| *s == Silent).unwrap() as u64;
    let loss = verdicts.iter().position(|v| *v == Verdict::DeviceLost).unwrap() as u64;
    let delay_ms = (loss - first_failure) * WATCHDOG_INTERVAL_MS;
    assert_eq!(delay_ms, 1000);
    assert!((1000..=2000).contains(&delay_ms));
}

#[test]
fn a_success_in_between_resets_the_count() {
    let verdicts = run(&[Silent, Silent, Alive, Silent, Silent, Alive, Silent, Silent]);
    assert!(verdicts.iter().all(|v| *v == Verdict::Continue));

    let mut watchdog = Watchdog::new();
    watchdog.tick(Silent);
    watchdog.tick(Silent);
    assert_eq!(watchdog.fails, 2);
    watchdog.tick(Alive);
    assert_eq!(watchdog.fails, 0);
    assert!(!watchdog.finished);
}

#[test]
fn fewer_than_three_failures_never_report() {
    assert_eq!(run(&[Silent]), vec![Verdict::Continue]);
    assert_eq!(run(&[Silent, Silent]), vec![Verdict::Continue, Verdict::Continue]);
}

#[test]
fn a_cancelled_watchdog_ends_silently() {
    let verdicts = run(&[Silent, Silent, Cancelled, Silent, Silent, Silent]);
    assert_eq!(
        verdicts,
        vec![
            Verdict::Continue,
            Verdict::Continue,
            Verdict::Stopped,
            Verdict::Stopped,
            Verdict::Stopped,
            Verdict::Stopped,
        ]
    );
}
