use vstd::prelude::*;

use crate::actions::{Action, Actions, all_actions, lemma_all_actions_conflict_free, lookup};
use crate::io::{Completion, IoEvent};
use crate::key::Key;
use crate::state::{AppState, after_sleep, after_tick, bump, bumped, fresh_state, last_duration, sleeps, ticks};
use crate::worker::{Worker, WorkerView, shutdown_step, submit_step};

verus! {

/// The sleep delay a dispatcher starts with, in seconds.
pub const DEFAULT_DELAY_SECS: u64 = 1;

/// What the input loop does after a key or a submission.
#[derive(Debug, Clone, Copy, PartialEq, Eq, Structural)]
pub enum DispatchOutcome {
    /// No action of the context claims the key, or the dispatcher has stopped.
    Ignored,
    /// The session ends.
    Exit,
    /// Handled in place, with no command.
    Handled,
    /// The command was handed to the worker.
    Submit(IoEvent),
    /// A command is already in flight, or the worker cannot take one; the
    /// input is dropped.
    Busy,
}

/// The dispatcher as a mathematical value.
pub struct AppView {
    pub actions: Seq<Action>,
    pub loading: bool,
    pub state: AppState,
    pub stopped: bool,
    /// The configured sleep delay, in seconds.
    pub delay: u64,
}

/// The actions of the start-up context.
pub open spec fn startup_actions() -> Seq<Action> {
    seq![Action::Quit]
}

/// A dispatcher view with the loading flag set to `loading`.
pub open spec fn with_loading(v: AppView, loading: bool) -> AppView {
    AppView { loading, ..v }
}

/// The delay one second shorter, never below zero.
pub open spec fn shortened(d: u64) -> u64 {
    if d > 0 {
        (d - 1) as u64
    } else {
        0
    }
}

/// Admitting `cmd`: refused while stopped, `Busy` while a command is in flight.
pub open spec fn dispatch_step(v: AppView, cmd: IoEvent) -> (AppView, DispatchOutcome) {
    if v.stopped {
        (v, DispatchOutcome::Ignored)
    } else if v.loading {
        (v, DispatchOutcome::Busy)
    } else {
        (with_loading(v, true), DispatchOutcome::Submit(cmd))
    }
}

/// Handling one key, before anything is handed to the worker.
pub open spec fn key_step(v: AppView, key: Key) -> (AppView, DispatchOutcome) {
    if v.stopped {
        (v, DispatchOutcome::Ignored)
    } else {
        match lookup(v.actions, key) {
            None => (v, DispatchOutcome::Ignored),
            Some(Action::Quit) => (AppView { stopped: true, ..v }, DispatchOutcome::Exit),
            Some(Action::Sleep) => dispatch_step(v, IoEvent::Sleep(v.delay)),
            Some(Action::IncrementDelay) => (
                AppView { delay: bumped(v.delay), ..v },
                DispatchOutcome::Handled,
            ),
            Some(Action::DecrementDelay) => (
                AppView { delay: shortened(v.delay), ..v },
                DispatchOutcome::Handled,
            ),
        }
    }
}

/// Handing the outcome of a step to the worker: a command it refuses turns
/// into `Busy` and nothing in flight; `Exit` shuts the worker down.
pub open spec fn forward_step(v: AppView, w: WorkerView, out: DispatchOutcome) -> (
    AppView,
    WorkerView,
    DispatchOutcome,
) {
    match out {
        DispatchOutcome::Exit => (v, shutdown_step(w), out),
        DispatchOutcome::Submit(cmd) => {
            let (w1, ok) = submit_step(w, cmd);
            if ok {
                (v, w1, out)
            } else {
                (with_loading(v, false), w, DispatchOutcome::Busy)
            }
        },
        _ => (v, w, out),
    }
}

/// Handling one key, together with the worker's intake.
pub open spec fn handle_step(v: AppView, w: WorkerView, key: Key) -> (
    AppView,
    WorkerView,
    DispatchOutcome,
) {
    forward_step(key_step(v, key).0, w, key_step(v, key).1)
}

/// Submitting `cmd` directly, together with the worker's intake.
pub open spec fn submit_cmd_step(v: AppView, w: WorkerView, cmd: IoEvent) -> (
    AppView,
    WorkerView,
    DispatchOutcome,
) {
    forward_step(dispatch_step(v, cmd).0, w, dispatch_step(v, cmd).1)
}

/// Applying a completion; the loading flag drops in the same step.
pub open spec fn complete_step(v: AppView, done: Completion) -> AppView {
    match done {
        Completion::Initialized => AppView {
            actions: all_actions(),
            loading: false,
            state: fresh_state(),
            ..v
        },
        Completion::Slept(measured) => AppView {
            loading: false,
            state: after_sleep(v.state, measured),
            ..v
        },
    }
}

/// While a command is in flight, a key bound to `Sleep` is turned away as
/// `Busy`: nothing changes and nothing is queued.
pub proof fn lemma_sleep_busy_while_loading(v: AppView, w: WorkerView, key: Key)
    requires
        v.loading,
        !v.stopped,
        lookup(v.actions, key) == Some(Action::Sleep),
    ensures
        handle_step(v, w, key) == (v, w, DispatchOutcome::Busy),
{
}

/// A sleep turned away as `Busy` is dropped: when the one in flight completes,
/// the counter has risen by one only.
pub proof fn lemma_busy_sleep_dropped(v: AppView, w: WorkerView, key: Key, measured: u64)
    requires
        v.loading,
        !v.stopped,
        lookup(v.actions, key) == Some(Action::Sleep),
        sleeps(v.state) matches Some(n) && n < u64::MAX,
    ensures
        ({
            let (v1, w1, _) = handle_step(v, w, key);
            let v2 = complete_step(v1, Completion::Slept(measured));
            &&& w1 == w
            &&& !v2.loading
            &&& sleeps(v2.state) == Some((sleeps(v.state).unwrap() + 1) as u64)
        }),
{
}

/// A completed sleep adds exactly one to the sleep counter, records the
/// measured time and clears the loading flag, all in the same step.
pub proof fn lemma_sleep_completion(v: AppView, measured: u64)
    requires
        v.loading,
        sleeps(v.state) matches Some(n) && n < u64::MAX,
    ensures
        ({
            let v1 = complete_step(v, Completion::Slept(measured));
            &&& !v1.loading
            &&& v1.actions == v.actions
            &&& v1.stopped == v.stopped
            &&& v1.delay == v.delay
            &&& sleeps(v1.state) == Some((sleeps(v.state).unwrap() + 1) as u64)
            &&& last_duration(v1.state) == Some(measured)
            &&& ticks(v1.state) == ticks(v.state)
        }),
{
}

/// Completions applied in the order A, B, C show their effects in that order:
/// each records its own measured time and adds one to the counter.
pub proof fn lemma_completions_in_order(v: AppView, a: u64, b: u64, c: u64)
    requires
        sleeps(v.state) matches Some(n) && n <= u64::MAX - 3,
    ensures
        ({
            let n = sleeps(v.state).unwrap();
            let v1 = complete_step(v, Completion::Slept(a));
            let v2 = complete_step(v1, Completion::Slept(b));
            let v3 = complete_step(v2, Completion::Slept(c));
            &&& last_duration(v1.state) == Some(a) && sleeps(v1.state) == Some((n + 1) as u64)
            &&& last_duration(v2.state) == Some(b) && sleeps(v2.state) == Some((n + 2) as u64)
            &&& last_duration(v3.state) == Some(c) && sleeps(v3.state) == Some((n + 3) as u64)
        }),
{
}

/// After `Quit`, the dispatcher takes no further key or command, and the
/// worker accepts nothing and holds nothing waiting.
pub proof fn lemma_quit_stops(v: AppView, w: WorkerView, quit: Key, next: Key, cmd: IoEvent)
    requires
        !v.stopped,
        lookup(v.actions, quit) == Some(Action::Quit),
    ensures
        ({
            let (v1, w1, out) = handle_step(v, w, quit);
            &&& out == DispatchOutcome::Exit
            &&& v1.stopped
            &&& !w1.accepting
            &&& w1.queue.len() == 0
            &&& v1.state == v.state
            &&& handle_step(v1, w1, next) == (v1, w1, DispatchOutcome::Ignored)
            &&& submit_cmd_step(v1, w1, cmd) == (v1, w1, DispatchOutcome::Ignored)
            &&& submit_step(w1, cmd) == (w1, false)
        }),
{
}

/// Translates keys into actions and actions into commands; tracks whether a
/// command is in flight.
pub struct App {
    actions: Actions,
    is_loading: bool,
    state: AppState,
    stopped: bool,
    delay: u64,
}

impl View for App {
    type V = AppView;

    closed spec fn view(&self) -> AppView {
        AppView {
            actions: self.actions@,
            loading: self.is_loading,
            state: self.state,
            stopped: self.stopped,
            delay: self.delay,
        }
    }
}

impl App {
    /// A dispatcher before start-up: only `Quit` is bound.
    pub fn new() -> (r: App)
        ensures
            r@ == (AppView {
                actions: startup_actions(),
                loading: false,
                state: AppState::Init,
                stopped: false,
                delay: DEFAULT_DELAY_SECS,
            }),
    {
        let raw = vec![Action::Quit];
        assert(raw@ =~= startup_actions());
        App {
            actions: Actions::new(raw),
            is_loading: false,
            state: AppState::Init,
            stopped: false,
            delay: DEFAULT_DELAY_SECS,
        }
    }

    /// Handles one decoded key; a command it yields is only admitted here.
    pub fn do_action(&mut self, key: Key) -> (r: DispatchOutcome)
        ensures
            (final(self)@, r) == key_step(old(self)@, key),
    {
        if self.stopped {
            return DispatchOutcome::Ignored;
        }
        match self.actions.find(key) {
            None => DispatchOutcome::Ignored,
            Some(Action::Quit) => {
                self.stopped = true;
                DispatchOutcome::Exit
            },
            Some(Action::Sleep) => {
                let d = self.delay;
                self.dispatch(IoEvent::Sleep(d))
            },
            Some(Action::IncrementDelay) => {
                self.delay = bump(self.delay);
                DispatchOutcome::Handled
            },
            Some(Action::DecrementDelay) => {
                if self.delay > 0 {
                    self.delay = self.delay - 1;
                }
                DispatchOutcome::Handled
            },
        }
    }

    /// Admits `cmd` for the worker unless one is already in flight.
    pub fn dispatch(&mut self, cmd: IoEvent) -> (r: DispatchOutcome)
        ensures
            (final(self)@, r) == dispatch_step(old(self)@, cmd),
    {
        if self.stopped {
            DispatchOutcome::Ignored
        } else if self.is_loading {
            DispatchOutcome::Busy
        } else {
            self.is_loading = true;
            DispatchOutcome::Submit(cmd)
        }
    }

    fn forward(&mut self, worker: &mut Worker, out: DispatchOutcome) -> (r: DispatchOutcome)
        ensures
            (final(self)@, final(worker)@, r) == forward_step(old(self)@, old(worker)@, out),
    {
        match out {
            DispatchOutcome::Exit => {
                worker.shutdown();
                out
            },
            DispatchOutcome::Submit(cmd) => {
                if worker.submit(cmd) {
                    out
                } else {
                    self.rejected();
                    DispatchOutcome::Busy
                }
            },
            _ => out,
        }
    }

    /// Handles one key and hands what it yields to the worker without waiting.
    pub fn handle_key(&mut self, worker: &mut Worker, key: Key) -> (r: DispatchOutcome)
        ensures
            (final(self)@, final(worker)@, r) == handle_step(old(self)@, old(worker)@, key),
    {
        let out = self.do_action(key);
        self.forward(worker, out)
    }

    /// Submits `cmd` to the worker without waiting (the start-up sequence).
    pub fn submit(&mut self, worker: &mut Worker, cmd: IoEvent) -> (r: DispatchOutcome)
        ensures
            (final(self)@, final(worker)@, r) == submit_cmd_step(old(self)@, old(worker)@, cmd),
    {
        let out = self.dispatch(cmd);
        self.forward(worker, out)
    }

    /// The worker could not take the command just admitted; nothing is in flight.
    pub fn rejected(&mut self)
        ensures
            final(self)@ == with_loading(old(self)@, false),
    {
        self.is_loading = false;
    }

    /// Applies what the worker reported for a completed command.
    pub fn complete(&mut self, done: Completion)
        ensures
            final(self)@ == complete_step(old(self)@, done),
            forall|m: u64| done == Completion::Slept(m) && old(self)@.state is Initialized
                ==> last_duration(final(self)@.state) == Some(m),
    {
        match done {
            Completion::Initialized => self.initialized(),
            Completion::Slept(measured) => self.state.incr_sleep(measured),
        }
        self.is_loading = false;
    }

    /// A command failed in the worker: nothing changes but the loading flag.
    pub fn failed(&mut self)
        ensures
            final(self)@ == with_loading(old(self)@, false),
    {
        self.is_loading = false;
    }

    /// One tick of the external clock.
    pub fn update_on_tick(&mut self)
        ensures
            final(self)@ == (AppView { state: after_tick(old(self)@.state), ..old(self)@ }),
    {
        self.state.incr_tick();
    }

    fn initialized(&mut self)
        ensures
            final(self)@ == (AppView { actions: all_actions(), state: fresh_state(), ..old(self)@ }),
    {
        proof { lemma_all_actions_conflict_free(); }
        self.actions = Actions::new(Action::iterator());
        self.state = AppState::initialized();
    }

    /// The actions of the current context.
    pub fn actions(&self) -> (r: &Actions)
        ensures
            r@ == self@.actions,
    {
        &self.actions
    }

    pub fn state(&self) -> (r: &AppState)
        ensures
            *r == self@.state,
    {
        &self.state
    }

    pub fn is_loading(&self) -> (r: bool)
        ensures
            r == self@.loading,
    {
        self.is_loading
    }

    /// Whether `Quit` was handled: no further input is accepted.
    pub fn is_stopped(&self) -> (r: bool)
        ensures
            r == self@.stopped,
    {
        self.stopped
    }

    /// The configured sleep delay, in seconds.
    pub fn delay(&self) -> (r: u64)
        ensures
            r == self@.delay,
    {
        self.delay
    }
}

} // verus!
