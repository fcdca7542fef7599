//! The worker model and the builtin translation layer, exercised through
//! real channels.

use crossbeam::channel::unbounded;
use lua_runner::event::{
    build_button_event, build_char_event, build_key_event, build_move_event, command_of_event,
    handle_button_action, handle_key_action, handle_key_query, Command, LuaEvent,
};
use lua_runner::model::{ButtonSend, Coordinate, Direction, KeySend, QueryKey};
use lua_runner::worker::{button_query_reply, clamped_add, contains_key, WorkerReply, WorkerState};

#[test]
fn known_key_call_becomes_its_event() {
    let e = build_key_event(Direction::Press, "F5").unwrap();
    assert!(matches!(e, LuaEvent::KeyboardPress { key: KeySend::F5 }));
    let e = build_key_event(Direction::Release, "Tab").unwrap();
    assert!(matches!(e, LuaEvent::KeyboardRelease { key: KeySend::Tab }));
    let e = build_key_event(Direction::Click, "Esc").unwrap();
    assert!(matches!(e, LuaEvent::KeyboardClick { key: KeySend::Esc }));
}

#[test]
fn unknown_key_call_is_rejected_with_its_name() {
    let err = build_key_event(Direction::Press, "NotAKey").unwrap_err();
    assert_eq!(err, "Invalid key: NotAKey");
}

#[test]
fn char_call_uses_the_first_character() {
    let e = build_char_event(Direction::Click, "abc").unwrap();
    assert!(matches!(e, LuaEvent::KeyboardCharClick { ch: 'a' }));
    let err = build_char_event(Direction::Press, "").unwrap_err();
    assert_eq!(err, "Invalid character");
}

#[test]
fn button_and_move_calls_translate_exactly() {
    let e = build_button_event(Direction::Press, "Middle").unwrap();
    assert!(matches!(e, LuaEvent::MousePress { button: ButtonSend::Middle }));
    let err = build_button_event(Direction::Press, "middle").unwrap_err();
    assert_eq!(err, "Invalid button: middle");

    let e = build_move_event(3, -4, "Rel").unwrap();
    assert!(matches!(
        e,
        LuaEvent::MouseMove { x: 3, y: -4, coordinate: Coordinate::Rel }
    ));
    let err = build_move_event(0, 0, "Polar").unwrap_err();
    assert_eq!(err, "Invalid coordinate: Polar");
}

#[test]
fn handle_calls_enqueue_for_the_worker() {
    let (tx, rx) = unbounded::<LuaEvent>();
    handle_key_action(&tx, Direction::Click, "Enter").unwrap();
    handle_button_action(&tx, Direction::Press, "Left").unwrap();
    let first = rx.try_recv().unwrap();
    assert_eq!(
        command_of_event(&first),
        Command::KeyboardClick { key: KeySend::Enter }
    );
    let second = rx.try_recv().unwrap();
    assert_eq!(
        command_of_event(&second),
        Command::MousePress { button: ButtonSend::Left }
    );
    assert!(rx.try_recv().is_err());
}

#[test]
fn handle_rejects_before_enqueueing() {
    let (tx, rx) = unbounded::<LuaEvent>();
    let err = handle_key_action(&tx, Direction::Press, "NotAKey").unwrap_err();
    assert_eq!(err, "Invalid key: NotAKey");
    let err = handle_key_query(&tx, "NotAKey").unwrap_err();
    assert_eq!(err, "Invalid key: NotAKey");
    assert!(rx.try_recv().is_err());
}

#[test]
fn send_failure_is_fatal_and_named() {
    let (tx, rx) = unbounded::<LuaEvent>();
    drop(rx);
    let err = handle_key_action(&tx, Direction::Press, "F1").unwrap_err();
    assert!(err.starts_with("Failed to send event: "));
}

#[test]
fn pointer_query_matches_last_injected_position() {
    let mut w = WorkerState::initial(0, 0, Vec::new(), vec![false, false]);
    let r = w
        .step(&Command::MouseMove { x: 100, y: 250, coordinate: Coordinate::Abs })
        .unwrap();
    assert!(r.is_none());
    let r = w.step(&Command::MouseGetPos).unwrap();
    assert_eq!(r, Some(WorkerReply::Pos(100, 250)));
    let r = w
        .step(&Command::MouseMove { x: -30, y: 8, coordinate: Coordinate::Rel })
        .unwrap();
    assert!(r.is_none());
    let r = w.step(&Command::MouseGetPos).unwrap();
    assert_eq!(r, Some(WorkerReply::Pos(70, 258)));
}

#[test]
fn key_down_query_for_an_up_key_replies_false() {
    let mut w = WorkerState::initial(5, 6, vec![QueryKey::LShift], vec![false]);
    let r = w.step(&Command::KeyboardIsPressing { key: QueryKey::A }).unwrap();
    assert_eq!(r, Some(WorkerReply::Flag(false)));
    let r = w.step(&Command::KeyboardIsPressing { key: QueryKey::LShift }).unwrap();
    assert_eq!(r, Some(WorkerReply::Flag(true)));
    // queries leave the observable state unchanged
    let r = w.step(&Command::MouseGetPos).unwrap();
    assert_eq!(r, Some(WorkerReply::Pos(5, 6)));
}

#[test]
fn relative_moves_saturate_at_the_coordinate_bounds() {
    let mut w = WorkerState::initial(i32::MAX - 1, i32::MIN + 1, Vec::new(), Vec::new());
    w.step(&Command::MouseMove { x: 10, y: -10, coordinate: Coordinate::Rel }).unwrap();
    let r = w.step(&Command::MouseGetPos).unwrap();
    assert_eq!(r, Some(WorkerReply::Pos(i32::MAX, i32::MIN)));
    assert_eq!(clamped_add(5, 7), 12);
    assert_eq!(clamped_add(i32::MIN, -1), i32::MIN);
}

#[test]
fn button_query_bounds_are_checked() {
    let mut w = WorkerState::initial(0, 0, Vec::new(), vec![false, true, false]);
    let r = w.step(&Command::MouseIsPressing { button: 1 }).unwrap();
    assert_eq!(r, Some(WorkerReply::Flag(true)));
    let err = w.step(&Command::MouseIsPressing { button: 3 }).unwrap_err();
    assert_eq!(err, "Invalid button index: 3");

    let pressed = vec![true];
    assert_eq!(button_query_reply(&pressed, 0), Ok(true));
    assert_eq!(
        button_query_reply(&pressed, 7),
        Err("Invalid button index: 7".to_string())
    );
}

#[test]
fn injection_commands_produce_no_reply() {
    let mut w = WorkerState::initial(0, 0, Vec::new(), Vec::new());
    assert!(w.step(&Command::KeyboardPress { key: KeySend::F1 }).unwrap().is_none());
    assert!(w.step(&Command::KeyboardCharClick { ch: 'x' }).unwrap().is_none());
    assert!(w.step(&Command::MouseClick { button: ButtonSend::Right }).unwrap().is_none());
}

#[test]
fn contains_key_scans_the_whole_vector() {
    let keys = vec![QueryKey::A, QueryKey::B, QueryKey::Comma];
    assert!(contains_key(&keys, QueryKey::Comma));
    assert!(!contains_key(&keys, QueryKey::Dot));
    assert!(!contains_key(&Vec::new(), QueryKey::A));
}
