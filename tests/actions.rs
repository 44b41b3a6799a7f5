use dashboard_core::actions::{Action, Actions};
use dashboard_core::key::Key;

#[test]
fn should_find_action_by_key() {
    let actions = Actions::build(vec![Action::Quit, Action::Sleep]).unwrap();
    let result = actions.find(Key::Ctrl('c'));
    assert_eq!(result, Some(&Action::Quit));
}

#[test]
fn should_find_action_by_key_not_found() {
    let actions = Actions::build(vec![Action::Quit, Action::Sleep]).unwrap();
    let result = actions.find(Key::Alt('w'));
    assert_eq!(result, None);
}

#[test]
fn should_create_actions_from_vec() {
    let _actions = Actions::build(vec![
        Action::Quit,
        Action::Sleep,
        Action::IncrementDelay,
        Action::DecrementDelay,
    ])
    .unwrap();
}

#[test]
#[should_panic]
fn should_panic_when_create_actions_conflict_key() {
    let _actions = Actions::build(vec![
        Action::Quit,
        Action::DecrementDelay,
        Action::Sleep,
        Action::IncrementDelay,
        Action::IncrementDelay,
        Action::Quit,
        Action::DecrementDelay,
    ])
    .unwrap();
}

#[test]
fn build_keeps_input_order() {
    let raw = vec![Action::DecrementDelay, Action::Quit, Action::Sleep];
    let actions = Actions::build(raw.clone()).unwrap();
    assert_eq!(actions.actions(), &raw[..]);
}

#[test]
fn build_accepts_empty_set() {
    let actions = Actions::build(vec![]).unwrap();
    assert!(actions.actions().is_empty());
    assert_eq!(actions.find(Key::Char('q')), None);
}

#[test]
fn find_quit_and_unbound_key() {
    let actions = Actions::build(vec![Action::Quit, Action::Sleep]).unwrap();
    assert_eq!(actions.find(Key::Ctrl('c')), Some(&Action::Quit));
    assert_eq!(actions.find(Key::Char('q')), Some(&Action::Quit));
    assert_eq!(actions.find(Key::Char('s')), Some(&Action::Sleep));
    assert_eq!(actions.find(Key::Char('w')), None);
}

#[test]
fn find_ignores_actions_outside_context() {
    let actions = Actions::build(vec![Action::Quit]).unwrap();
    assert_eq!(actions.find(Key::Char('s')), None);
    assert_eq!(actions.find(Key::Char('+')), None);
}

#[test]
fn duplicated_actions_fail_with_every_conflict() {
    let err = Actions::build(vec![
        Action::Quit,
        Action::DecrementDelay,
        Action::Sleep,
        Action::IncrementDelay,
        Action::IncrementDelay,
        Action::Quit,
        Action::DecrementDelay,
    ])
    .unwrap_err();
    let mut keys: Vec<Key> = err.conflicts.iter().map(|c| c.key).collect();
    keys.sort_by_key(|k| format!("{:?}", k));
    let mut expected = vec![Key::Ctrl('c'), Key::Char('q'), Key::Char('-'), Key::Char('+')];
    expected.sort_by_key(|k| format!("{:?}", k));
    assert_eq!(keys, expected);
    for c in err.conflicts.iter() {
        assert_eq!(c.actions.len(), 2);
        assert!(c.actions.iter().all(|a| a.keys().contains(&c.key)));
    }
    let quit = err.conflicts.iter().find(|c| c.key == Key::Ctrl('c')).unwrap();
    assert_eq!(quit.actions, vec![Action::Quit, Action::Quit]);
}

#[test]
fn single_shared_key_names_all_sharers() {
    let err = Actions::build(vec![Action::Sleep, Action::Quit, Action::Sleep, Action::Sleep])
        .unwrap_err();
    assert_eq!(err.conflicts.len(), 1);
    assert_eq!(err.conflicts[0].key, Key::Char('s'));
    assert_eq!(err.conflicts[0].actions, vec![Action::Sleep, Action::Sleep, Action::Sleep]);
}

#[test]
fn action_iterator_and_keys() {
    assert_eq!(
        Action::iterator(),
        vec![Action::Quit, Action::Sleep, Action::IncrementDelay, Action::DecrementDelay]
    );
    assert_eq!(Action::Quit.keys(), vec![Key::Ctrl('c'), Key::Char('q')]);
    assert_eq!(Action::Sleep.keys(), vec![Key::Char('s')]);
    assert_eq!(Action::IncrementDelay.keys(), vec![Key::Char('+')]);
    assert_eq!(Action::DecrementDelay.keys(), vec![Key::Char('-')]);
    assert!(Action::Quit.has_key(Key::Char('q')));
    assert!(!Action::Quit.has_key(Key::Char('s')));
}

#[test]
fn action_labels() {
    assert_eq!(Action::Quit.label(), "ACTION: Quit");
    assert_eq!(Action::Sleep.label(), "ACTION: Sleep");
    assert_eq!(Action::IncrementDelay.label(), "ACTION: Increment Delay");
    assert_eq!(Action::DecrementDelay.label(), "ACTION: Decrement Delay");
}
