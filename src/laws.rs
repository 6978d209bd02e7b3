use vstd::prelude::*;

use crate::watchdog::{
    event_spec, remaining_spec, seconds_up, tick_spec, Action, Event, WatchdogState,
};

verus! {

/// A problem seen while idle starts a countdown that ends exactly one
/// countdown length later, and further problem ticks before that deadline
/// leave that countdown as it is: it starts once.
pub proof fn lemma_problem_starts_countdown_once(now: u64, later: u64, duration: u64)
    requires
        now + duration <= u64::MAX,
        now <= later < now + duration,
    ensures
        tick_spec(WatchdogState::Idle, true, now, duration) == (
            WatchdogState::CountingDown { started_at: now, deadline: (now + duration) as u64 },
            Action::Continue,
        ),
        tick_spec(
            WatchdogState::CountingDown { started_at: now, deadline: (now + duration) as u64 },
            true,
            later,
            duration,
        ) == (
            WatchdogState::CountingDown { started_at: now, deadline: (now + duration) as u64 },
            Action::Continue,
        ),
{
}

/// Cancelling a running countdown makes the watchdog idle, and the next
/// problem tick starts a fresh countdown of the full length, with nothing
/// kept of the time that had run before.
pub proof fn lemma_cancel_then_fresh_countdown(
    started_at: u64,
    deadline: u64,
    now: u64,
    duration: u64,
)
    requires
        now + duration <= u64::MAX,
    ensures
        event_spec(WatchdogState::CountingDown { started_at, deadline }, Event::Cancel) == (
            WatchdogState::Idle,
            Action::Continue,
        ),
        tick_spec(
            event_spec(WatchdogState::CountingDown { started_at, deadline }, Event::Cancel).0,
            true,
            now,
            duration,
        ) == (
            WatchdogState::CountingDown { started_at: now, deadline: (now + duration) as u64 },
            Action::Continue,
        ),
        remaining_spec(
            tick_spec(WatchdogState::Idle, true, now, duration).0,
            duration,
            now,
        ) == seconds_up(duration as int),
{
}

/// While a countdown runs, the seconds left never grow as time goes on, are
/// never negative, and are exactly zero at and after the deadline.
pub proof fn lemma_remaining_non_increasing(
    started_at: u64,
    deadline: u64,
    duration: u64,
    earlier: u64,
    later: u64,
)
    requires
        earlier <= later,
    ensures
        remaining_spec(WatchdogState::CountingDown { started_at, deadline }, duration, later)
            <= remaining_spec(
            WatchdogState::CountingDown { started_at, deadline },
            duration,
            earlier,
        ),
        remaining_spec(WatchdogState::CountingDown { started_at, deadline }, duration, later)
            >= 0,
        later >= deadline ==> remaining_spec(
            WatchdogState::CountingDown { started_at, deadline },
            duration,
            later,
        ) == 0,
{
    if later < deadline {
        let a = deadline - later;
        let b = deadline - earlier;
        assert((a + 999) / 1000 <= (b + 999) / 1000) by (nonlinear_arith)
            requires
                0 < a <= b,
        ;
    }
}

/// Once the corrective action was requested the watchdog stays put: no tick
/// and no event changes its state or asks for the action again.
pub proof fn lemma_triggered_is_final(problem: bool, now: u64, duration: u64, event: Event)
    ensures
        tick_spec(WatchdogState::Triggered, problem, now, duration) == (
            WatchdogState::Triggered,
            Action::Continue,
        ),
        event_spec(WatchdogState::Triggered, event) == (
            WatchdogState::Triggered,
            Action::Continue,
        ),
{
}

} // verus!
