use dashboard_core::actions::{Action, Actions};
use dashboard_core::app::{App, DispatchOutcome, DEFAULT_DELAY_SECS};
use dashboard_core::io::{Completion, IoEvent};
use dashboard_core::key::Key;
use dashboard_core::state::AppState;
use dashboard_core::worker::Worker;

fn started() -> (App, Worker) {
    let mut app = App::new();
    let mut worker = Worker::new(4);
    assert_eq!(
        app.submit(&mut worker, IoEvent::Initialize),
        DispatchOutcome::Submit(IoEvent::Initialize)
    );
    assert_eq!(worker.take(), Some(IoEvent::Initialize));
    app.complete(Completion::Initialized);
    (app, worker)
}

#[test]
fn new_app_only_binds_quit() {
    let mut app = App::new();
    assert_eq!(app.actions().actions(), &[Action::Quit][..]);
    assert!(!app.state().is_initialized());
    assert_eq!(app.delay(), DEFAULT_DELAY_SECS);
    assert_eq!(app.do_action(Key::Char('s')), DispatchOutcome::Ignored);
    assert!(!app.is_loading());
}

#[test]
fn initialize_enables_all_actions() {
    let (app, _worker) = started();
    assert!(!app.is_loading());
    assert_eq!(app.actions().actions(), &Action::iterator()[..]);
    assert_eq!(*app.state(), AppState::initialized());
    assert_eq!(app.state().duration(), None);
    assert_eq!(app.state().count_sleep(), Some(0));
    assert_eq!(app.state().count_tick(), Some(0));
}

#[test]
fn sleep_while_loading_is_busy() {
    let (mut app, mut worker) = started();
    assert_eq!(
        app.handle_key(&mut worker, Key::Char('s')),
        DispatchOutcome::Submit(IoEvent::Sleep(1))
    );
    assert!(app.is_loading());
    assert_eq!(app.handle_key(&mut worker, Key::Char('s')), DispatchOutcome::Busy);
    assert_eq!(app.state().count_sleep(), Some(0));
    assert_eq!(worker.pending(), 1);
    assert!(app.is_loading());
    assert_eq!(worker.take(), Some(IoEvent::Sleep(1)));
    app.complete(Completion::Slept(1));
    assert_eq!(app.state().count_sleep(), Some(1));
    assert_eq!(worker.take(), None);
}

#[test]
fn sleep_completion_counts_once_records_time_and_clears_loading() {
    let (mut app, mut worker) = started();
    for _ in 0..4 {
        assert_eq!(app.handle_key(&mut worker, Key::Char('+')), DispatchOutcome::Handled);
    }
    assert_eq!(app.delay(), 5);
    assert_eq!(
        app.handle_key(&mut worker, Key::Char('s')),
        DispatchOutcome::Submit(IoEvent::Sleep(5))
    );
    assert!(app.is_loading());
    assert_eq!(app.state().count_sleep(), Some(0));
    app.complete(Completion::Slept(5));
    assert!(!app.is_loading());
    assert_eq!(app.state().count_sleep(), Some(1));
    assert_eq!(app.state().duration(), Some(5));
}

#[test]
fn completions_apply_in_order() {
    let (mut app, _worker) = started();
    app.complete(Completion::Slept(3));
    assert_eq!((app.state().duration(), app.state().count_sleep()), (Some(3), Some(1)));
    app.complete(Completion::Slept(1));
    assert_eq!((app.state().duration(), app.state().count_sleep()), (Some(1), Some(2)));
    app.complete(Completion::Slept(7));
    assert_eq!((app.state().duration(), app.state().count_sleep()), (Some(7), Some(3)));
}

#[test]
fn full_worker_reports_busy() {
    let (mut app, _) = started();
    let mut worker = Worker::new(0);
    assert_eq!(app.handle_key(&mut worker, Key::Char('s')), DispatchOutcome::Busy);
    assert!(!app.is_loading());
    assert_eq!(app.state().count_sleep(), Some(0));
}

#[test]
fn failed_command_clears_loading_only() {
    let (mut app, _) = started();
    app.do_action(Key::Char('s'));
    app.failed();
    assert!(!app.is_loading());
    assert_eq!(app.state().count_sleep(), Some(0));
    app.do_action(Key::Char('s'));
    app.rejected();
    assert!(!app.is_loading());
}

#[test]
fn delay_keys_leave_app_state_alone() {
    let (mut app, mut worker) = started();
    let before = *app.state();
    assert_eq!(app.handle_key(&mut worker, Key::Char('-')), DispatchOutcome::Handled);
    assert_eq!(app.delay(), 0);
    assert_eq!(app.handle_key(&mut worker, Key::Char('-')), DispatchOutcome::Handled);
    assert_eq!(app.delay(), 0);
    app.handle_key(&mut worker, Key::Char('+'));
    app.handle_key(&mut worker, Key::Char('+'));
    assert_eq!(app.delay(), 2);
    assert_eq!(*app.state(), before);
    assert_eq!(
        app.handle_key(&mut worker, Key::Char('s')),
        DispatchOutcome::Submit(IoEvent::Sleep(2))
    );
}

#[test]
fn unbound_key_is_ignored() {
    let (mut app, mut worker) = started();
    assert_eq!(app.handle_key(&mut worker, Key::Alt('w')), DispatchOutcome::Ignored);
    assert_eq!(worker.pending(), 0);
}

#[test]
fn ticks_count_independently() {
    let mut app = App::new();
    app.update_on_tick();
    assert_eq!(app.state().count_tick(), None);
    let (mut app, _) = started();
    app.update_on_tick();
    app.update_on_tick();
    assert_eq!(app.state().count_tick(), Some(2));
    assert_eq!(app.state().count_sleep(), Some(0));
}

#[test]
fn counter_stays_at_largest_value() {
    let mut s = AppState::Initialized { duration: None, counter_sleep: u64::MAX, counter_tick: 0 };
    s.incr_sleep(3);
    assert_eq!(s.count_sleep(), Some(u64::MAX));
    assert_eq!(s.duration(), Some(3));
    let mut d = AppState::default();
    d.incr_sleep(2);
    assert_eq!(d, AppState::Init);
}

#[test]
fn quit_stops_input_and_worker() {
    let (mut app, mut worker) = started();
    assert!(worker.submit(IoEvent::Sleep(9)));
    assert_eq!(app.handle_key(&mut worker, Key::Ctrl('c')), DispatchOutcome::Exit);
    assert!(app.is_stopped());
    assert!(!worker.is_accepting());
    assert_eq!(worker.pending(), 0);
    assert_eq!(app.handle_key(&mut worker, Key::Char('s')), DispatchOutcome::Ignored);
    assert_eq!(app.submit(&mut worker, IoEvent::Sleep(1)), DispatchOutcome::Ignored);
    assert!(!worker.submit(IoEvent::Sleep(1)));
}

#[test]
fn commands_complete_in_submission_order() {
    let mut worker = Worker::new(3);
    assert!(worker.submit(IoEvent::Sleep(5)));
    assert!(worker.submit(IoEvent::Initialize));
    assert!(worker.submit(IoEvent::Sleep(1)));
    assert!(!worker.submit(IoEvent::Sleep(2)));
    assert_eq!(worker.pending(), 3);
    assert_eq!(worker.take(), Some(IoEvent::Sleep(5)));
    assert_eq!(worker.take(), Some(IoEvent::Initialize));
    assert_eq!(worker.take(), Some(IoEvent::Sleep(1)));
    assert_eq!(worker.take(), None);
}

#[test]
fn shutdown_drops_waiting_commands() {
    let mut worker = Worker::new(2);
    assert!(worker.submit(IoEvent::Sleep(5)));
    worker.shutdown();
    assert_eq!(worker.pending(), 0);
    assert_eq!(worker.take(), None);
}

#[test]
fn registry_default_and_clone() {
    let empty = Actions::default();
    assert!(empty.actions().is_empty());
    let r = Actions::build(vec![Action::Sleep, Action::Quit]).unwrap();
    let c = r.clone();
    assert_eq!(c.actions(), r.actions());
}
