use vstd::prelude::*;

verus! {

/// What a polled delay does next.
#[derive(Debug, Clone, Copy, PartialEq, Eq)]
pub enum DelayStep {
    /// The deadline has passed: the future is ready.
    Ready,
    /// Keep the waker and start the timer that wakes it at the deadline.
    StartTimer,
    /// Keep the waker; the timer is already running.
    Wait,
}

/// What a delay remembers between polls.
#[derive(Debug, Clone, Copy, PartialEq, Eq)]
pub struct DelayState {
    /// The timer has fired.
    pub completed: bool,
    /// The timer has been started.
    pub started: bool,
}

impl DelayState {
    /// The state of a delay that has not been polled yet.
    pub fn new() -> (s: Self)
        ensures
            !s.completed && !s.started,
    {
        DelayState { completed: false, started: false }
    }
}

/// One poll of a delay: the step it takes and the state after it.
pub open spec fn poll_step(state: DelayState) -> (DelayStep, DelayState) {
    if state.completed {
        (DelayStep::Ready, state)
    } else if !state.started {
        (DelayStep::StartTimer, DelayState { completed: false, started: true })
    } else {
        (DelayStep::Wait, state)
    }
}

/// The state after the timer fires, if it is running.
pub open spec fn timer_fires(state: DelayState, fired: bool) -> DelayState {
    if fired && state.started {
        DelayState { completed: true, started: state.started }
    } else {
        state
    }
}

/// The steps of a run of polls from `state`; before the poll numbered `i`, the timer has
/// fired (again) when `fired[i]` holds.
pub open spec fn poll_run(state: DelayState, fired: Seq<bool>) -> Seq<DelayStep>
    decreases fired.len(),
{
    if fired.len() == 0 {
        seq![]
    } else {
        let (step, next) = poll_step(timer_fires(state, fired[0]));
        seq![step] + poll_run(next, fired.drop_first())
    }
}

proof fn lemma_running_delay(state: DelayState, fired: Seq<bool>)
    requires
        state.started,
    ensures
        poll_run(state, fired).len() == fired.len(),
        forall|i: int|
            0 <= i < fired.len() ==> #[trigger] poll_run(state, fired)[i] != DelayStep::StartTimer,
        forall|i: int|
            0 <= i < fired.len() ==> (#[trigger] poll_run(state, fired)[i] == DelayStep::Ready <==> (
            state.completed || exists|j: int| 0 <= j <= i && #[trigger] fired[j])),
    decreases fired.len(),
{
    if fired.len() > 0 {
        let s1 = timer_fires(state, fired[0]);
        let (step, next) = poll_step(s1);
        let rest = fired.drop_first();
        lemma_running_delay(next, rest);
        let run = poll_run(state, fired);
        assert(run == seq![step] + poll_run(next, rest));
        assert forall|i: int| 0 <= i < fired.len() implies (#[trigger] run[i] == DelayStep::Ready <==> (
        state.completed || exists|j: int| 0 <= j <= i && #[trigger] fired[j])) by {
            if i == 0 {
                if fired[0] {
                    assert(exists|j: int| 0 <= j <= i && #[trigger] fired[j]);
                }
            } else {
                assert(run[i] == poll_run(next, rest)[i - 1]);
                if exists|j: int| 0 <= j <= i - 1 && #[trigger] rest[j] {
                    let j = choose|j: int| 0 <= j <= i - 1 && #[trigger] rest[j];
                    assert(fired[j + 1]);
                }
                if exists|j: int| 0 <= j <= i && #[trigger] fired[j] {
                    let j = choose|j: int| 0 <= j <= i && #[trigger] fired[j];
                    if j > 0 {
                        assert(rest[j - 1]);
                    }
                }
            }
        }
        assert forall|i: int| 0 <= i < fired.len() implies #[trigger] run[i]
            != DelayStep::StartTimer by {
            if i > 0 {
                assert(run[i] == poll_run(next, rest)[i - 1]);
            }
        }
    }
}

/// Over any run of polls of a new delay, the first poll starts the timer and is pending,
/// no later poll starts it again, and a poll is ready exactly when the timer has fired
/// since the first poll; once ready, the delay stays ready.
pub proof fn lemma_delay_polls(fired: Seq<bool>)
    requires
        fired.len() > 0,
    ensures
        poll_run(DelayState { completed: false, started: false }, fired).len() == fired.len(),
        poll_run(DelayState { completed: false, started: false }, fired)[0]
            == DelayStep::StartTimer,
        forall|i: int|
            1 <= i < fired.len() ==> #[trigger] poll_run(
                DelayState { completed: false, started: false },
                fired,
            )[i] != DelayStep::StartTimer,
        forall|i: int|
            1 <= i < fired.len() ==> (#[trigger] poll_run(
                DelayState { completed: false, started: false },
                fired,
            )[i] == DelayStep::Ready <==> exists|j: int| 1 <= j <= i && #[trigger] fired[j]),
{
    let s0 = DelayState { completed: false, started: false };
    let s1 = DelayState { completed: false, started: true };
    let rest = fired.drop_first();
    lemma_running_delay(s1, rest);
    let run = poll_run(s0, fired);
    assert(run == seq![DelayStep::StartTimer] + poll_run(s1, rest));
    assert forall|i: int| 1 <= i < fired.len() implies #[trigger] run[i]
        != DelayStep::StartTimer by {
        assert(run[i] == poll_run(s1, rest)[i - 1]);
    }
    assert forall|i: int| 1 <= i < fired.len() implies (#[trigger] run[i] == DelayStep::Ready
        <==> exists|j: int| 1 <= j <= i && #[trigger] fired[j]) by {
        assert(run[i] == poll_run(s1, rest)[i - 1]);
        if exists|j: int| 0 <= j <= i - 1 && #[trigger] rest[j] {
            let j = choose|j: int| 0 <= j <= i - 1 && #[trigger] rest[j];
            assert(fired[j + 1]);
        }
        if exists|j: int| 1 <= j <= i && #[trigger] fired[j] {
            let j = choose|j: int| 1 <= j <= i && #[trigger] fired[j];
            assert(rest[j - 1]);
        }
    }
}

/// Over a run of polls at clock readings `times` that never go back, where the timer fires
/// only once the clock has reached `deadline` (it sleeps until then), a poll is ready only
/// at or after the deadline; the first poll never is.
pub proof fn lemma_delay_ready_after_deadline(fired: Seq<bool>, times: Seq<int>, deadline: int)
    requires
        fired.len() > 0,
        times.len() == fired.len(),
        forall|i: int| 0 <= i < fired.len() && #[trigger] fired[i] ==> times[i] >= deadline,
        forall|i: int, j: int| 0 <= i <= j < times.len() ==> times[i] <= times[j],
    ensures
        poll_run(DelayState { completed: false, started: false }, fired)[0] != DelayStep::Ready,
        forall|i: int|
            0 <= i < fired.len() && #[trigger] poll_run(
                DelayState { completed: false, started: false },
                fired,
            )[i] == DelayStep::Ready ==> times[i] >= deadline,
{
    lemma_delay_polls(fired);
    let run = poll_run(DelayState { completed: false, started: false }, fired);
    assert forall|i: int| 0 <= i < fired.len() && #[trigger] run[i] == DelayStep::Ready implies times[i]
        >= deadline by {
        if i >= 1 {
            let j = choose|j: int| 1 <= j <= i && #[trigger] fired[j];
            assert(times[j] >= deadline);
            assert(times[j] <= times[i]);
        }
    }
}

/// How long the timer sleeps, in nanoseconds, when started at `now` for a delay that ends
/// at `deadline` (both counted on one clock): until the deadline, or not at all once it
/// has passed. It wakes at or after the deadline.
pub fn timer_sleep(deadline: u64, now: u64) -> (r: u64)
    ensures
        now + r >= deadline,
        deadline > now ==> r == deadline - now,
        deadline <= now ==> r == 0,
{
    if deadline > now {
        deadline - now
    } else {
        0
    }
}

/// Decides one poll of a delay and the state after it: ready once the timer has fired;
/// otherwise the waker is kept, and the timer is started on the first such poll only.
pub fn poll_delay(state: DelayState) -> (r: (DelayStep, DelayState))
    ensures
        state.completed ==> r.0 == DelayStep::Ready && r.1 == state,
        !state.completed && !state.started ==> r.0 == DelayStep::StartTimer && r.1 == (
        DelayState { completed: false, started: true }),
        !state.completed && state.started ==> r.0 == DelayStep::Wait && r.1 == state,
        r == poll_step(state),
{
    if state.completed {
        (DelayStep::Ready, state)
    } else if !state.started {
        (DelayStep::StartTimer, DelayState { completed: false, started: true })
    } else {
        (DelayStep::Wait, state)
    }
}

} // verus!
