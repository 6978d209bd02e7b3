use vstd::prelude::*;

use crate::memory::{problem_spec, sample_outcome, MemoryInfo, SampleError};

verus! {

/// Milliseconds in one second.
pub const MS_PER_SECOND: u64 = 1000;

/// Shortest time between two memory samples, in milliseconds.
pub const SAMPLE_INTERVAL_MS: u64 = 1000;

/// Countdown length used when none is chosen, in milliseconds.
pub const DEFAULT_COUNTDOWN_MS: u64 = 10000;

/// Where the watchdog stands. Times are milliseconds on a monotonic clock.
#[derive(Debug, Clone, Copy, PartialEq, Eq, Structural)]
pub enum WatchdogState {
    /// No countdown is running.
    Idle,
    /// Memory is degraded and the corrective action fires at `deadline`.
    CountingDown { started_at: u64, deadline: u64 },
    /// The corrective action was requested; nothing happens any more.
    Triggered,
}

/// What the user asked for.
#[derive(Debug, Clone, Copy, PartialEq, Eq, Structural)]
pub enum Event {
    /// Stop a running countdown without acting.
    Cancel,
    /// Act now instead of waiting for the countdown to run out.
    ConfirmNow,
    /// Close the monitor while nothing is pending.
    CloseNoFix,
}

/// What the driver has to do after a step of the watchdog.
#[derive(Debug, Clone, Copy, PartialEq, Eq, Structural)]
pub enum Action {
    /// Nothing: keep ticking.
    Continue,
    /// Launch the corrective restart, then shut the monitor down.
    FixAndShutdown,
    /// Shut the monitor down without any corrective action.
    Shutdown,
}

/// The state and action that one tick at time `now` gives, with `problem`
/// whether the latest reading shows degraded memory.
pub open spec fn tick_spec(state: WatchdogState, problem: bool, now: u64, duration: u64) -> (
    WatchdogState,
    Action,
) {
    match state {
        WatchdogState::Idle => if problem {
            (
                WatchdogState::CountingDown { started_at: now, deadline: (now + duration) as u64 },
                Action::Continue,
            )
        } else {
            (WatchdogState::Idle, Action::Continue)
        },
        WatchdogState::CountingDown { deadline, .. } => if !problem {
            (WatchdogState::Idle, Action::Continue)
        } else if now >= deadline {
            (WatchdogState::Triggered, Action::FixAndShutdown)
        } else {
            (state, Action::Continue)
        },
        WatchdogState::Triggered => (WatchdogState::Triggered, Action::Continue),
    }
}

/// The state and action that a user event gives.
pub open spec fn event_spec(state: WatchdogState, event: Event) -> (WatchdogState, Action) {
    match event {
        Event::Cancel => if state is CountingDown {
            (WatchdogState::Idle, Action::Continue)
        } else {
            (state, Action::Continue)
        },
        Event::ConfirmNow => if state is CountingDown {
            (WatchdogState::Triggered, Action::FixAndShutdown)
        } else {
            (state, Action::Continue)
        },
        Event::CloseNoFix => if state is Idle {
            (state, Action::Shutdown)
        } else {
            (state, Action::Continue)
        },
    }
}

/// `ms` milliseconds in whole seconds, rounded up.
pub open spec fn seconds_up(ms: int) -> int {
    (ms + 999) / 1000
}

/// Seconds left before the corrective action: the whole countdown while idle,
/// the time to the deadline rounded up while counting down, none once the
/// deadline has passed or the action was requested.
pub open spec fn remaining_spec(state: WatchdogState, duration: u64, now: u64) -> int {
    match state {
        WatchdogState::Idle => seconds_up(duration as int),
        WatchdogState::CountingDown { deadline, .. } => if now >= deadline {
            0
        } else {
            seconds_up(deadline - now)
        },
        WatchdogState::Triggered => 0,
    }
}

/// Milliseconds of the countdown that have run, never more than the whole
/// countdown: none while idle, all of it once the action was requested.
pub open spec fn elapsed_spec(state: WatchdogState, duration: u64, now: u64) -> int {
    match state {
        WatchdogState::Idle => 0,
        WatchdogState::CountingDown { started_at, .. } => if now <= started_at {
            0
        } else if now - started_at >= duration {
            duration as int
        } else {
            now - started_at
        },
        WatchdogState::Triggered => duration as int,
    }
}

/// Whether a new memory sample is due at `now`, given when the last one was
/// taken.
pub open spec fn sample_due_spec(last_update: Option<u64>, now: u64) -> bool {
    match last_update {
        None => true,
        Some(t) => now >= t + SAMPLE_INTERVAL_MS,
    }
}

/// The memory watchdog: the latest memory reading, its sampling schedule and
/// the countdown state machine.
#[derive(Debug, Clone, Copy, PartialEq, Eq, Structural)]
pub struct App {
    /// Latest reading; the empty reading until a sample succeeds.
    pub memory_info: MemoryInfo,
    /// When the last sample was attempted, if ever.
    pub last_update: Option<u64>,
    /// Where the countdown stands.
    pub state: WatchdogState,
    /// Length of a countdown in milliseconds, fixed at construction.
    pub countdown_duration: u64,
    /// Why the last sample failed, if it did.
    pub error_message: Option<SampleError>,
}

impl App {
    /// A running countdown ends exactly one countdown length after it began.
    pub open spec fn wf(&self) -> bool {
        self.state matches WatchdogState::CountingDown { started_at, deadline }
            ==> deadline == started_at + self.countdown_duration
    }

    /// Whether the latest reading shows degraded memory.
    pub open spec fn problem(&self) -> bool {
        problem_spec(self.memory_info.installed_bytes, self.memory_info.visible_bytes)
    }

    /// An idle watchdog with no reading yet and a countdown of
    /// `countdown_duration` milliseconds.
    pub fn new(countdown_duration: u64) -> (r: App)
        ensures
            r.wf(),
            r.state == WatchdogState::Idle,
            r.countdown_duration == countdown_duration,
            r.memory_info == MemoryInfo::new_spec(),
            r.last_update is None,
            r.error_message is None,
    {
        App {
            memory_info: MemoryInfo::new(),
            last_update: None,
            state: WatchdogState::Idle,
            countdown_duration,
            error_message: None,
        }
    }

    /// Whether a new memory sample is due at `now`: none was taken yet, or
    /// the last one is at least one sampling interval old.
    pub fn sample_due(&self, now: u64) -> (r: bool)
        ensures
            r == sample_due_spec(self.last_update, now),
    {
        match self.last_update {
            None => true,
            Some(t) => now >= t && now - t >= SAMPLE_INTERVAL_MS,
        }
    }

    /// Records the memory sample taken at `now` from the two counter queries.
    ///
    /// A failed query drops the previous reading and is kept as the error to
    /// show; a successful sample clears that error.
    pub fn update_memory_info(
        &mut self,
        now: u64,
        visible: Result<u64, SampleError>,
        installed: Result<u64, SampleError>,
    )
        requires
            old(self).wf(),
        ensures
            final(self).wf(),
            final(self).last_update == Some(now),
            final(self).state == old(self).state,
            final(self).countdown_duration == old(self).countdown_duration,
            match sample_outcome(visible, installed) {
                Ok(m) => final(self).memory_info == m && final(self).error_message is None,
                Err(e) => final(self).memory_info == MemoryInfo::new_spec()
                    && final(self).error_message == Some(e),
            },
    {
        match self.memory_info.update(visible, installed) {
            Ok(()) => {
                self.error_message = None;
            },
            Err(e) => {
                self.error_message = Some(e);
            },
        }
        self.last_update = Some(now);
    }

    /// Moves to `Triggered` and says whether the corrective action is owed
    /// now: it is, unless it was already requested.
    pub fn execute_fix_action(&mut self) -> (r: bool)
        requires
            old(self).wf(),
        ensures
            final(self).wf(),
            final(self).state == WatchdogState::Triggered,
            r == !(old(self).state is Triggered),
            final(self).memory_info == old(self).memory_info,
            final(self).last_update == old(self).last_update,
            final(self).countdown_duration == old(self).countdown_duration,
            final(self).error_message == old(self).error_message,
    {
        let owed = match self.state {
            WatchdogState::Triggered => false,
            _ => true,
        };
        self.state = WatchdogState::Triggered;
        owed
    }

    /// Advances the countdown at time `now` on the latest reading: a problem
    /// starts a countdown, its end while the problem lasts requests the
    /// corrective action, and a reading without a problem calls it off.
    pub fn tick(&mut self, now: u64) -> (r: Action)
        requires
            old(self).wf(),
            now + old(self).countdown_duration <= u64::MAX,
        ensures
            final(self).wf(),
            (final(self).state, r) == tick_spec(
                old(self).state,
                old(self).problem(),
                now,
                old(self).countdown_duration,
            ),
            final(self).memory_info == old(self).memory_info,
            final(self).last_update == old(self).last_update,
            final(self).countdown_duration == old(self).countdown_duration,
            final(self).error_message == old(self).error_message,
    {
        let problem = self.memory_info.has_problem();
        match self.state {
            WatchdogState::Idle => {
                if problem {
                    self.state = WatchdogState::CountingDown {
                        started_at: now,
                        deadline: now + self.countdown_duration,
                    };
                }
                Action::Continue
            },
            WatchdogState::CountingDown { deadline, .. } => {
                if !problem {
                    self.state = WatchdogState::Idle;
                    Action::Continue
                } else if now >= deadline {
                    if self.execute_fix_action() {
                        Action::FixAndShutdown
                    } else {
                        Action::Continue
                    }
                } else {
                    Action::Continue
                }
            },
            WatchdogState::Triggered => Action::Continue,
        }
    }

    /// Applies a user event: `Cancel` and `ConfirmNow` act on a running
    /// countdown only, `CloseNoFix` only while idle.
    pub fn handle_event(&mut self, event: Event) -> (r: Action)
        requires
            old(self).wf(),
        ensures
            final(self).wf(),
            (final(self).state, r) == event_spec(old(self).state, event),
            final(self).memory_info == old(self).memory_info,
            final(self).last_update == old(self).last_update,
            final(self).countdown_duration == old(self).countdown_duration,
            final(self).error_message == old(self).error_message,
    {
        match event {
            Event::Cancel => {
                if let WatchdogState::CountingDown { .. } = self.state {
                    self.state = WatchdogState::Idle;
                }
                Action::Continue
            },
            Event::ConfirmNow => {
                if let WatchdogState::CountingDown { .. } = self.state {
                    if self.execute_fix_action() {
                        return Action::FixAndShutdown;
                    }
                }
                Action::Continue
            },
            Event::CloseNoFix => {
                if let WatchdogState::Idle = self.state {
                    Action::Shutdown
                } else {
                    Action::Continue
                }
            },
        }
    }

    /// Whole seconds left before the corrective action at time `now`,
    /// rounded up; zero at and after the deadline.
    pub fn get_countdown_remaining(&self, now: u64) -> (r: u64)
        ensures
            r == remaining_spec(self.state, self.countdown_duration, now),
    {
        match self.state {
            WatchdogState::Idle => ceil_seconds(self.countdown_duration),
            WatchdogState::CountingDown { deadline, .. } => {
                if now >= deadline {
                    0
                } else {
                    ceil_seconds(deadline - now)
                }
            },
            WatchdogState::Triggered => 0,
        }
    }

    /// Milliseconds of the countdown that have run at time `now`, clamped to
    /// the countdown length, so that their share of it lies between none and
    /// all.
    pub fn countdown_elapsed(&self, now: u64) -> (r: u64)
        ensures
            r == elapsed_spec(self.state, self.countdown_duration, now),
            r <= self.countdown_duration,
    {
        match self.state {
            WatchdogState::Idle => 0,
            WatchdogState::CountingDown { started_at, .. } => {
                if now <= started_at {
                    0
                } else if now - started_at >= self.countdown_duration {
                    self.countdown_duration
                } else {
                    now - started_at
                }
            },
            WatchdogState::Triggered => self.countdown_duration,
        }
    }
}

/// `ms` milliseconds in whole seconds, rounded up.
fn ceil_seconds(ms: u64) -> (r: u64)
    ensures
        r == seconds_up(ms as int),
{
    let whole = ms / MS_PER_SECOND;
    if ms % MS_PER_SECOND == 0 {
        whole
    } else {
        whole + 1
    }
}

impl Default for App {
    /// An idle watchdog with the default countdown length.
    fn default() -> (r: App)
        ensures
            r.wf(),
            r.state == WatchdogState::Idle,
            r.countdown_duration == DEFAULT_COUNTDOWN_MS,
            r.memory_info == MemoryInfo::new_spec(),
            r.last_update is None,
            r.error_message is None,
    {
        App::new(DEFAULT_COUNTDOWN_MS)
    }
}

} // verus!
