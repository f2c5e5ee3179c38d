use kiwi_sensors::poll::{poll_step, PollStep};

#[test]
fn poll_budget_is_spent_exactly() {
    assert_eq!(poll_step(100, true), PollStep::Ready);
    assert_eq!(poll_step(100, false), PollStep::Retry(99));
    assert_eq!(poll_step(2, false), PollStep::Retry(1));
    assert_eq!(poll_step(1, false), PollStep::TimedOut);
    assert_eq!(poll_step(1, true), PollStep::Ready);
    let mut left = 5;
    let mut reads = 0;
    loop {
        reads += 1;
        match poll_step(left, false) {
            PollStep::Retry(n) => left = n,
            other => {
                assert_eq!(other, PollStep::TimedOut);
                break;
            }
        }
    }
    assert_eq!(reads, 5);
}
