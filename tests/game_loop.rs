use std::cell::Cell;

use game_engine::capture::{CaptureInput, CaptureList, ToCaptureList};
use game_engine::game_loop::{
    matching_positions, Events, GameLoop, KeyState, Phase, Response, WindowAction, WindowEvent,
};
use game_engine::KeyCode;

fn key(code: KeyCode, state: KeyState) -> WindowEvent {
    WindowEvent::KeyboardInput { physical_key: Some(code), state }
}

fn list_of<'a>(keys: &[KeyCode], f: &'a dyn Fn()) -> CaptureList<&'a dyn Fn()> {
    let entries: Vec<CaptureInput<&dyn Fn()>> =
        keys.iter().map(|k| CaptureInput { key: *k, function: f }).collect();
    entries.as_slice().to_list()
}

fn fire<F: Fn()>(game: &GameLoop<F>, r: &Response) {
    if let Response::Captured(fired) = r {
        let list = game.captures().unwrap();
        for i in fired {
            (list.inputs[*i].function)();
        }
    }
}

fn running<F>() -> GameLoop<F> {
    let mut game = GameLoop::new();
    assert!(game.resumed());
    game
}

#[test]
fn new_loop_is_idle_without_captures() {
    let game: GameLoop<fn()> = GameLoop::new();
    assert_eq!(game.phase(), Phase::Idle);
    assert!(game.captures().is_none());
}

#[test]
fn resumed_creates_session_only_once() {
    let mut game: GameLoop<fn()> = GameLoop::new();
    assert!(game.resumed());
    assert_eq!(game.phase(), Phase::Active);
    assert!(!game.resumed());
    assert_eq!(game.phase(), Phase::Active);
}

#[test]
fn last_registration_wins() {
    let f = || {};
    let mut game = GameLoop::new();
    game.capture_events(|| list_of(&[KeyCode::KeyA], &f))
        .capture_events(|| list_of(&[KeyCode::KeyB, KeyCode::KeyC], &f))
        .capture_events(|| list_of(&[KeyCode::KeyD], &f));
    let list = game.captures().unwrap();
    assert_eq!(list.inputs.len(), 1);
    assert_eq!(list.inputs[0].key, KeyCode::KeyD);
    assert_eq!(game.phase(), Phase::Idle);
}

#[test]
fn registration_after_start_takes_effect_at_once() {
    let f = || {};
    let mut game = running();
    game.register(list_of(&[KeyCode::KeyA], &f));
    assert!(matches!(game.window_event(&key(KeyCode::KeyB, KeyState::Pressed)), Response::Captured(v) if v.is_empty()));
    game.register(list_of(&[KeyCode::KeyB], &f));
    assert!(matches!(game.window_event(&key(KeyCode::KeyB, KeyState::Pressed)), Response::Captured(v) if v == vec![0]));
}

#[test]
fn single_match_fires_once_and_is_consumed() {
    let count = Cell::new(0u32);
    let f = || count.set(count.get() + 1);
    let mut game = running();
    game.register(list_of(&[KeyCode::KeyA, KeyCode::KeyE, KeyCode::KeyQ], &f));
    let r = game.window_event(&key(KeyCode::KeyE, KeyState::Pressed));
    assert!(matches!(&r, Response::Captured(v) if *v == vec![1]));
    fire(&game, &r);
    assert_eq!(count.get(), 1);
    assert_eq!(game.phase(), Phase::Active);
}

#[test]
fn duplicate_key_fires_both_in_order() {
    let order = Cell::new(0u32);
    let first = || order.set(order.get() * 10 + 1);
    let second = || order.set(order.get() * 10 + 2);
    let entries: [CaptureInput<&dyn Fn()>; 3] = [
        CaptureInput { key: KeyCode::KeyW, function: &first },
        CaptureInput { key: KeyCode::KeyS, function: &first },
        CaptureInput { key: KeyCode::KeyW, function: &second },
    ];
    let mut game = running();
    game.register(entries.to_list());
    let r = game.window_event(&key(KeyCode::KeyW, KeyState::Pressed));
    assert!(matches!(&r, Response::Captured(v) if *v == vec![0, 2]));
    fire(&game, &r);
    assert_eq!(order.get(), 12);
}

#[test]
fn unmatched_key_is_consumed_while_registered() {
    let count = Cell::new(0u32);
    let f = || count.set(count.get() + 1);
    let mut game = running();
    game.register(list_of(&[KeyCode::KeyE], &f));
    let r = game.window_event(&key(KeyCode::KeyQ, KeyState::Pressed));
    assert!(matches!(&r, Response::Captured(v) if v.is_empty()));
    fire(&game, &r);
    assert_eq!(count.get(), 0);
}

#[test]
fn empty_list_consumes_key_events() {
    let f = || {};
    let mut game = running();
    game.register(list_of(&[], &f));
    let r = game.window_event(&key(KeyCode::KeyE, KeyState::Pressed));
    assert!(matches!(r, Response::Captured(v) if v.is_empty()));
}

#[test]
fn key_without_captures_falls_through() {
    let mut game: GameLoop<fn()> = running();
    let r = game.window_event(&key(KeyCode::KeyE, KeyState::Pressed));
    assert!(matches!(r, Response::Window(WindowAction::Nothing)));
    assert!(game.inputs(&key(KeyCode::KeyE, KeyState::Pressed)).is_none());
}

#[test]
fn release_matches_like_press() {
    let f = || {};
    let mut game = running();
    game.register(list_of(&[KeyCode::KeyE], &f));
    let r = game.window_event(&key(KeyCode::KeyE, KeyState::Released));
    assert!(matches!(r, Response::Captured(v) if v == vec![0]));
}

#[test]
fn unidentified_key_matches_nothing() {
    let f = || {};
    let mut game = running();
    game.register(list_of(&[KeyCode::KeyE], &f));
    let e = WindowEvent::KeyboardInput { physical_key: None, state: KeyState::Pressed };
    assert!(matches!(game.window_event(&e), Response::Captured(v) if v.is_empty()));
}

#[test]
fn non_key_events_fall_through_with_captures() {
    let f = || {};
    let mut game = running();
    game.register(list_of(&[KeyCode::KeyE], &f));
    assert!(matches!(game.window_event(&WindowEvent::RedrawRequested), Response::Window(WindowAction::RenderAndRedraw)));
    assert!(matches!(game.window_event(&WindowEvent::Other), Response::Window(WindowAction::Nothing)));
}

#[test]
fn close_request_ends_the_loop() {
    let mut game: GameLoop<fn()> = running();
    assert!(matches!(game.window_event(&WindowEvent::CloseRequested), Response::Window(WindowAction::Exit)));
    assert_eq!(game.phase(), Phase::Exited);
    assert!(matches!(game.window_event(&WindowEvent::RedrawRequested), Response::Skipped));
    assert!(matches!(game.window_event(&key(KeyCode::KeyE, KeyState::Pressed)), Response::Skipped));
    assert!(matches!(game.window_event(&WindowEvent::CloseRequested), Response::Skipped));
    assert_eq!(game.phase(), Phase::Exited);
    assert!(!game.resumed());
}

#[test]
fn resize_reconfigures_without_render() {
    let mut game: GameLoop<fn()> = running();
    let r = game.window_event(&WindowEvent::Resized { width: 800, height: 600 });
    assert!(matches!(r, Response::Window(WindowAction::Resize { width: 800, height: 600 })));
    assert_eq!(game.phase(), Phase::Active);
}

#[test]
fn events_before_window_are_skipped() {
    let mut game: GameLoop<fn()> = GameLoop::new();
    assert!(matches!(game.window_event(&WindowEvent::CloseRequested), Response::Skipped));
    assert_eq!(game.phase(), Phase::Idle);
}

#[test]
fn matching_positions_lists_every_match() {
    let noop = || {};
    let list = list_of(&[KeyCode::KeyE, KeyCode::KeyQ, KeyCode::KeyE, KeyCode::KeyE], &noop);
    assert_eq!(matching_positions(&list.inputs, &Some(KeyCode::KeyE)), vec![0, 2, 3]);
    assert_eq!(matching_positions(&list.inputs, &Some(KeyCode::KeyQ)), vec![1]);
    assert_eq!(matching_positions(&list.inputs, &Some(KeyCode::KeyZ)), Vec::<usize>::new());
}

#[test]
fn scenario_register_press_and_close() {
    let count = Cell::new(0u32);
    let f = || count.set(count.get() + 1);
    let mut game = GameLoop::new();
    game.capture_events(|| {
        let entries: [CaptureInput<&dyn Fn()>; 1] = [CaptureInput { key: KeyCode::KeyE, function: &f }];
        entries.to_list()
    });
    assert!(game.resumed());

    let r = game.window_event(&key(KeyCode::KeyE, KeyState::Pressed));
    assert!(matches!(&r, Response::Captured(v) if *v == vec![0]));
    fire(&game, &r);
    assert_eq!(count.get(), 1);

    let r = game.window_event(&key(KeyCode::KeyQ, KeyState::Pressed));
    assert!(matches!(&r, Response::Captured(v) if v.is_empty()));
    fire(&game, &r);
    assert_eq!(count.get(), 1);

    let r = game.window_event(&WindowEvent::CloseRequested);
    assert!(matches!(r, Response::Window(WindowAction::Exit)));
    assert_eq!(game.phase(), Phase::Exited);
}

#[test]
fn default_loop_is_idle_without_captures() {
    let game: GameLoop<fn()> = GameLoop::default();
    assert_eq!(game.phase(), Phase::Idle);
    assert!(game.captures().is_none());
}
