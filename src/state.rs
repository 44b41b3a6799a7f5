use vstd::prelude::*;

verus! {

/// Session data read by rendering and changed only by completed commands and
/// by the external tick.
#[derive(Debug, Clone, Copy, PartialEq, Eq, Structural)]
pub enum AppState {
    Init,
    Initialized {
        /// How long the last completed sleep took, in seconds.
        duration: Option<u64>,
        counter_sleep: u64,
        counter_tick: u64,
    },
}

/// A counter after one increment; it stays put at its largest value.
pub open spec fn bumped(n: u64) -> u64 {
    if n < u64::MAX {
        (n + 1) as u64
    } else {
        n
    }
}

/// The number of completed sleeps, once initialized.
pub open spec fn sleeps(s: AppState) -> Option<u64> {
    match s {
        AppState::Init => None,
        AppState::Initialized { counter_sleep, .. } => Some(counter_sleep),
    }
}

/// The number of ticks, once initialized.
pub open spec fn ticks(s: AppState) -> Option<u64> {
    match s {
        AppState::Init => None,
        AppState::Initialized { counter_tick, .. } => Some(counter_tick),
    }
}

/// How long the last completed sleep took, once initialized and one completed.
pub open spec fn last_duration(s: AppState) -> Option<u64> {
    match s {
        AppState::Init => None,
        AppState::Initialized { duration, .. } => duration,
    }
}

/// The state right after start-up: nothing measured, no sleep, no tick.
pub open spec fn fresh_state() -> AppState {
    AppState::Initialized { duration: None, counter_sleep: 0, counter_tick: 0 }
}

/// The state after a sleep completed that took `measured` seconds.
pub open spec fn after_sleep(s: AppState, measured: u64) -> AppState {
    match s {
        AppState::Init => s,
        AppState::Initialized { counter_sleep, counter_tick, .. } => AppState::Initialized {
            duration: Some(measured),
            counter_sleep: bumped(counter_sleep),
            counter_tick,
        },
    }
}

/// The state after one tick.
pub open spec fn after_tick(s: AppState) -> AppState {
    match s {
        AppState::Init => s,
        AppState::Initialized { duration, counter_sleep, counter_tick } => AppState::Initialized {
            duration,
            counter_sleep,
            counter_tick: bumped(counter_tick),
        },
    }
}

pub(crate) fn bump(n: u64) -> (r: u64)
    ensures
        r == bumped(n),
{
    if n < u64::MAX {
        n + 1
    } else {
        n
    }
}

impl Default for AppState {
    fn default() -> (r: AppState)
        ensures
            r == AppState::Init,
    {
        AppState::Init
    }
}

impl AppState {
    /// The state right after start-up.
    pub fn initialized() -> (r: AppState)
        ensures
            r == fresh_state(),
    {
        AppState::Initialized { duration: None, counter_sleep: 0, counter_tick: 0 }
    }

    pub fn is_initialized(&self) -> (r: bool)
        ensures
            r == (*self is Initialized),
    {
        match self {
            AppState::Init => false,
            AppState::Initialized { .. } => true,
        }
    }

    /// Records a completed sleep that took `measured` seconds.
    pub fn incr_sleep(&mut self, measured: u64)
        ensures
            *final(self) == after_sleep(*old(self), measured),
    {
        if let AppState::Initialized { duration, counter_sleep, .. } = self {
            *counter_sleep = bump(*counter_sleep);
            *duration = Some(measured);
        }
    }

    pub fn incr_tick(&mut self)
        ensures
            *final(self) == after_tick(*old(self)),
    {
        if let AppState::Initialized { counter_tick, .. } = self {
            *counter_tick = bump(*counter_tick);
        }
    }

    /// The number of completed sleeps, once initialized.
    pub fn count_sleep(&self) -> (r: Option<u64>)
        ensures
            r == sleeps(*self),
    {
        match self {
            AppState::Init => None,
            AppState::Initialized { counter_sleep, .. } => Some(*counter_sleep),
        }
    }

    /// The number of ticks, once initialized.
    pub fn count_tick(&self) -> (r: Option<u64>)
        ensures
            r == ticks(*self),
    {
        match self {
            AppState::Init => None,
            AppState::Initialized { counter_tick, .. } => Some(*counter_tick),
        }
    }

    /// How long the last completed sleep took, in seconds, once one completed.
    pub fn duration(&self) -> (r: Option<u64>)
        ensures
            r == last_duration(*self),
    {
        match self {
            AppState::Init => None,
            AppState::Initialized { duration, .. } => *duration,
        }
    }
}

} // verus!
