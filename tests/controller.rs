use multi_transpose::command::{Command, CommandError, Notification};
use multi_transpose::controller::{
    callback, next_transpose_bind_fn, previous_transpose_bind_fn, process_event, Controller,
    Dispatch, InputEvent, Moved, Reaction,
};
use multi_transpose::sound::Sound;
use multi_transpose::transpose::Step;

const PAUSE: u64 = 19;
const UP: u64 = 72;
const DOWN: u64 = 80;
const NEXT: u64 = 77;
const PREV: u64 = 75;
const SCROLL: u64 = 31;

fn bind(c: &mut Controller, name: &str, keycode: u64) {
    let r = process_event(c, Command::Bind { name: name.to_string(), keycode });
    assert_eq!(r, Ok(None));
}

fn configured(presets: Vec<i32>) -> Controller {
    let mut c = Controller::new();
    bind(&mut c, "pause", PAUSE);
    bind(&mut c, "transpose_up", UP);
    bind(&mut c, "transpose_down", DOWN);
    bind(&mut c, "next_transpose", NEXT);
    bind(&mut c, "previous_transpose", PREV);
    bind(&mut c, "scroll_down", SCROLL);
    assert_eq!(process_event(&mut c, Command::Transposes(presets)), Ok(Some(Notification::CurrentIndex(0))));
    assert_eq!(process_event(&mut c, Command::Pause(false)), Ok(Some(Notification::Paused(false))));
    c
}

/// Runs a move's transposition with no pause, giving the keys pressed.
fn run(mv: Moved) -> Vec<u64> {
    let mut plan = mv.plan;
    let mut keys = Vec::new();
    loop {
        match plan.step(false) {
            Step::Press(k) => keys.push(k),
            Step::Finished => break,
        }
    }
    assert_eq!(plan.current(), plan.target());
    keys
}

#[test]
fn new_controller_starts_paused_with_one_preset() {
    let c = Controller::new();
    assert_eq!(c.presets(), &vec![0]);
    assert_eq!(c.selected_index(), 0);
    assert_eq!(c.current_transpose(), 0);
    assert!(c.is_paused());
    assert!(!c.is_muted());
    assert!(!c.is_key_listening());
    assert_eq!(c.scroll_value(), 0);
    assert_eq!(c.last_press(), None);
    assert_eq!(c.bindings().pause, None);
}

#[test]
fn scenario_advance_cooldown_and_back() {
    let mut c = configured(vec![0, 2, 5, -3]);
    let mv = next_transpose_bind_fn(&mut c, 1_000).expect("first move is accepted");
    assert_eq!(mv.index, 1);
    assert_eq!(mv.sound, Sound::Next);
    assert_eq!(c.selected_index(), 1);
    assert_eq!(c.current_transpose(), 2);
    assert_eq!(run(mv), vec![UP, UP]);

    assert!(next_transpose_bind_fn(&mut c, 1_050).is_none());
    assert_eq!(c.selected_index(), 1);
    assert_eq!(c.current_transpose(), 2);
    assert_eq!(c.last_press(), Some(1_000));

    let mv = previous_transpose_bind_fn(&mut c, 1_200).expect("move after the cooldown");
    assert_eq!(mv.index, 0);
    assert_eq!(mv.sound, Sound::Previous);
    assert_eq!(c.selected_index(), 0);
    assert_eq!(c.current_transpose(), 0);
    assert_eq!(run(mv), vec![DOWN, DOWN]);
}

#[test]
fn advance_wraps_around_both_ways() {
    let mut c = configured(vec![0, 2, 5, -3]);
    let mv = previous_transpose_bind_fn(&mut c, 1_000).unwrap();
    assert_eq!(mv.index, 3);
    assert_eq!(c.current_transpose(), -3);
    assert_eq!(run(mv), vec![DOWN, DOWN, DOWN]);
    let mv = next_transpose_bind_fn(&mut c, 1_100).unwrap();
    assert_eq!(mv.index, 0);
    assert_eq!(run(mv), vec![UP, UP, UP]);
}

#[test]
fn full_cycle_returns_to_start() {
    let mut c = configured(vec![0, 2, 5, -3]);
    assert_eq!(process_event(&mut c, Command::SelectedIndex(2)), Ok(Some(Notification::CurrentIndex(2))));
    let mut now = 500;
    for _ in 0..4 {
        assert!(next_transpose_bind_fn(&mut c, now).is_some());
        now += 150;
    }
    assert_eq!(c.selected_index(), 2);
    assert_eq!(c.current_transpose(), 5);
}

#[test]
fn advance_exactly_at_cooldown_is_accepted() {
    let mut c = configured(vec![1, 4]);
    assert!(next_transpose_bind_fn(&mut c, 0).is_some());
    assert!(next_transpose_bind_fn(&mut c, 99).is_none());
    assert!(next_transpose_bind_fn(&mut c, 100).is_some());
    assert_eq!(c.selected_index(), 0);
}

#[test]
fn advance_ignored_while_paused() {
    let mut c = configured(vec![0, 2]);
    assert_eq!(process_event(&mut c, Command::Pause(true)), Ok(Some(Notification::Paused(true))));
    assert!(next_transpose_bind_fn(&mut c, 1_000).is_none());
    assert_eq!(c.selected_index(), 0);
    assert_eq!(c.last_press(), None);
}

#[test]
fn advance_ignored_without_transpose_keys() {
    let mut c = Controller::new();
    process_event(&mut c, Command::Transposes(vec![0, 2])).unwrap();
    process_event(&mut c, Command::Pause(false)).unwrap();
    assert!(next_transpose_bind_fn(&mut c, 1_000).is_none());
    assert_eq!(c.selected_index(), 0);
}

#[test]
fn transposes_command_resets_selection() {
    let mut c = configured(vec![0, 2, 5]);
    next_transpose_bind_fn(&mut c, 1_000).unwrap();
    assert_eq!(process_event(&mut c, Command::Transposes(vec![7, -1])), Ok(Some(Notification::CurrentIndex(0))));
    assert_eq!(c.presets(), &vec![7, -1]);
    assert_eq!(c.selected_index(), 0);
    assert_eq!(c.current_transpose(), 7);
}

#[test]
fn empty_transposes_is_rejected() {
    let mut c = configured(vec![0, 2]);
    assert_eq!(process_event(&mut c, Command::Transposes(vec![])), Err(CommandError::EmptyPresets));
    assert_eq!(c.presets(), &vec![0, 2]);
}

#[test]
fn selected_index_jumps_without_keys() {
    let mut c = configured(vec![0, 2, 5, -3]);
    assert_eq!(process_event(&mut c, Command::SelectedIndex(3)), Ok(Some(Notification::CurrentIndex(3))));
    assert_eq!(c.selected_index(), 3);
    assert_eq!(c.current_transpose(), -3);
}

#[test]
fn selected_index_past_end_is_rejected() {
    let mut c = configured(vec![0, 2, 5, -3]);
    assert_eq!(process_event(&mut c, Command::SelectedIndex(4)), Err(CommandError::IndexOutOfRange));
    assert_eq!(c.selected_index(), 0);
}

#[test]
fn other_commands_set_their_flags() {
    let mut c = Controller::new();
    assert_eq!(process_event(&mut c, Command::Muted(true)), Ok(None));
    assert!(c.is_muted());
    assert_eq!(process_event(&mut c, Command::KeyListen(true)), Ok(None));
    assert!(c.is_key_listening());
    assert_eq!(process_event(&mut c, Command::ScrollValue(120)), Ok(None));
    assert_eq!(c.scroll_value(), 120);
    assert_eq!(process_event(&mut c, Command::Volume), Ok(None));
    assert!(c.is_paused());
}

#[test]
fn bind_unknown_name_changes_nothing() {
    let mut c = Controller::new();
    bind(&mut c, "jump", 5);
    let b = c.bindings();
    assert_eq!(b.pause, None);
    assert_eq!(b.scroll_down, None);
    bind(&mut c, "next_transpose", 5);
    bind(&mut c, "next_transpose", 6);
    assert_eq!(c.bindings().next_transpose, Some(6));
}

#[test]
fn scenario_pause_key_without_transpose_up_does_nothing() {
    let mut c = Controller::new();
    bind(&mut c, "pause", PAUSE);
    bind(&mut c, "transpose_down", DOWN);
    bind(&mut c, "next_transpose", NEXT);
    bind(&mut c, "previous_transpose", PREV);
    let d = callback(&mut c, InputEvent::KeyPress(PAUSE), 1_000);
    assert!(matches!(d.reaction, Reaction::Idle));
    assert_eq!(d.scroll, None);
    assert!(c.is_paused());
}

#[test]
fn pause_key_toggles_once_per_press() {
    let mut c = configured(vec![0, 2]);
    let d = callback(&mut c, InputEvent::KeyPress(PAUSE), 0);
    assert!(matches!(d.reaction, Reaction::PauseToggled(true)));
    assert!(c.is_paused());
    // held down: repeats do nothing
    let d = callback(&mut c, InputEvent::KeyPress(PAUSE), 10);
    assert!(matches!(d.reaction, Reaction::Idle));
    assert!(c.is_paused());
    callback(&mut c, InputEvent::KeyRelease(PAUSE), 20);
    assert!(!c.is_key_held(PAUSE));
    let d = callback(&mut c, InputEvent::KeyPress(PAUSE), 30);
    assert!(matches!(d.reaction, Reaction::PauseToggled(false)));
    assert!(!c.is_paused());
}

#[test]
fn held_next_key_moves_once_until_released() {
    let mut c = configured(vec![0, 2, 5]);
    let d = callback(&mut c, InputEvent::KeyPress(NEXT), 1_000);
    match d.reaction {
        Reaction::Moved(mv) => {
            assert_eq!(mv.index, 1);
            assert_eq!(run(mv), vec![UP, UP]);
        },
        other => panic!("expected a move, got {:?}", other),
    }
    assert!(c.is_key_held(NEXT));
    let d = callback(&mut c, InputEvent::KeyPress(NEXT), 2_000);
    assert!(matches!(d.reaction, Reaction::Idle));
    assert_eq!(c.selected_index(), 1);
    callback(&mut c, InputEvent::KeyRelease(NEXT), 2_100);
    let d = callback(&mut c, InputEvent::KeyPress(NEXT), 2_200);
    assert!(matches!(d.reaction, Reaction::Moved(_)));
    assert_eq!(c.selected_index(), 2);
}

#[test]
fn release_of_another_key_does_not_rearm() {
    let mut c = configured(vec![0, 2, 5]);
    callback(&mut c, InputEvent::KeyPress(PREV), 1_000);
    callback(&mut c, InputEvent::KeyRelease(NEXT), 1_100);
    let d = callback(&mut c, InputEvent::KeyPress(PREV), 1_200);
    assert!(matches!(d.reaction, Reaction::Idle));
    assert_eq!(c.selected_index(), 2);
}

#[test]
fn key_listen_reports_key_and_dispatches_nothing() {
    let mut c = configured(vec![0, 2]);
    process_event(&mut c, Command::KeyListen(true)).unwrap();
    let d = callback(&mut c, InputEvent::KeyPress(NEXT), 1_000);
    assert!(matches!(d.reaction, Reaction::IdentifyKey(NEXT)));
    assert_eq!(c.selected_index(), 0);
    assert!(!c.is_key_held(NEXT));
}

#[test]
fn scroll_key_scrolls_by_negated_value_unless_paused() {
    let mut c = configured(vec![0]);
    process_event(&mut c, Command::ScrollValue(3)).unwrap();
    let d: Dispatch = callback(&mut c, InputEvent::KeyPress(SCROLL), 0);
    assert_eq!(d.scroll, Some(-3));
    assert!(matches!(d.reaction, Reaction::Idle));
    // not guarded: a held scroll key keeps scrolling
    let d = callback(&mut c, InputEvent::KeyPress(SCROLL), 5);
    assert_eq!(d.scroll, Some(-3));
    process_event(&mut c, Command::ScrollValue(i64::MIN)).unwrap();
    let d = callback(&mut c, InputEvent::KeyPress(SCROLL), 10);
    assert_eq!(d.scroll, Some(i64::MAX));
    process_event(&mut c, Command::Pause(true)).unwrap();
    let d = callback(&mut c, InputEvent::KeyPress(SCROLL), 20);
    assert_eq!(d.scroll, None);
}

#[test]
fn keys_ignored_until_pause_next_previous_bound() {
    let mut c = Controller::new();
    bind(&mut c, "scroll_down", SCROLL);
    process_event(&mut c, Command::Pause(false)).unwrap();
    process_event(&mut c, Command::ScrollValue(3)).unwrap();
    let d = callback(&mut c, InputEvent::KeyPress(SCROLL), 0);
    assert_eq!(d.scroll, None);
}

#[test]
fn other_events_change_nothing() {
    let mut c = configured(vec![0, 2]);
    let d = callback(&mut c, InputEvent::Other, 0);
    assert!(matches!(d.reaction, Reaction::Idle));
    assert_eq!(d.scroll, None);
    let d = callback(&mut c, InputEvent::KeyPress(99), 0);
    assert!(matches!(d.reaction, Reaction::Idle));
    assert!(!c.is_key_held(99));
}

#[test]
fn upward_move_needs_only_up_key() {
    let mut c = Controller::new();
    bind(&mut c, "transpose_up", UP);
    process_event(&mut c, Command::Transposes(vec![0, 2])).unwrap();
    process_event(&mut c, Command::Pause(false)).unwrap();
    let mv = next_transpose_bind_fn(&mut c, 1_000).expect("only the up key is needed");
    assert_eq!(mv.index, 1);
    assert_eq!(run(mv), vec![UP, UP]);
    assert_eq!(c.current_transpose(), 2);
    // going back down needs the down key
    assert!(previous_transpose_bind_fn(&mut c, 1_200).is_none());
    assert_eq!(c.selected_index(), 1);
}

#[test]
fn downward_move_needs_only_down_key() {
    let mut c = Controller::new();
    bind(&mut c, "transpose_down", DOWN);
    process_event(&mut c, Command::Transposes(vec![0, -2])).unwrap();
    process_event(&mut c, Command::Pause(false)).unwrap();
    let mv = previous_transpose_bind_fn(&mut c, 1_000).expect("only the down key is needed");
    assert_eq!(mv.index, 1);
    assert_eq!(run(mv), vec![DOWN, DOWN]);
    assert_eq!(c.current_transpose(), -2);
}

#[test]
fn move_without_steps_needs_no_transpose_key() {
    let mut c = Controller::new();
    bind(&mut c, "pause", PAUSE);
    bind(&mut c, "next_transpose", NEXT);
    bind(&mut c, "previous_transpose", PREV);
    process_event(&mut c, Command::Transposes(vec![0, 0])).unwrap();
    process_event(&mut c, Command::Pause(false)).unwrap();
    callback(&mut c, InputEvent::KeyPress(NEXT), 1_000);
    assert_eq!(c.selected_index(), 1);
    callback(&mut c, InputEvent::KeyRelease(NEXT), 1_050);
    let d = callback(&mut c, InputEvent::KeyPress(NEXT), 1_200);
    match d.reaction {
        Reaction::Moved(mv) => {
            assert_eq!(mv.index, 0);
            assert_eq!(run(mv), Vec::<u64>::new());
        },
        other => panic!("expected a move, got {:?}", other),
    }
    assert_eq!(c.selected_index(), 0);
}
