use labworks::delay::{poll_delay, DelayState, DelayStep};

#[test]
fn delay_starts_its_timer_once_and_then_completes() {
    let s = DelayState::new();
    let (step, s) = poll_delay(s);
    assert_eq!(step, DelayStep::StartTimer);
    assert!(s.started && !s.completed);
    let (step, s) = poll_delay(s);
    assert_eq!(step, DelayStep::Wait);
    let fired = DelayState { completed: true, ..s };
    let (step, after) = poll_delay(fired);
    assert_eq!(step, DelayStep::Ready);
    assert_eq!(after, fired);
}

#[test]
fn delay_run_of_polls() {
    let mut s = DelayState::new();
    let mut steps = Vec::new();
    for fired in [true, false, false, true, false] {
        if fired && s.started {
            s.completed = true;
        }
        let (step, next) = poll_delay(s);
        steps.push(step);
        s = next;
    }
    assert_eq!(
        steps,
        vec![DelayStep::StartTimer, DelayStep::Wait, DelayStep::Wait, DelayStep::Ready, DelayStep::Ready]
    );
}

#[test]
fn timer_sleeps_until_the_deadline() {
    assert_eq!(labworks::delay::timer_sleep(500, 120), 380);
    assert_eq!(labworks::delay::timer_sleep(500, 500), 0);
    assert_eq!(labworks::delay::timer_sleep(500, 900), 0);
}
