use game_engine::capture::{CaptureInput, CaptureList, ToCaptureList};
use game_engine::KeyCode;

fn noop() {}

#[test]
fn to_list_keeps_entries_in_order() {
    let entries = [
        CaptureInput { key: KeyCode::KeyE, function: noop as fn() },
        CaptureInput { key: KeyCode::KeyQ, function: noop as fn() },
        CaptureInput { key: KeyCode::KeyE, function: noop as fn() },
    ];
    let list: CaptureList<fn()> = entries.to_list();
    assert_eq!(list.inputs.len(), 3);
    assert_eq!(list.inputs[0].key, KeyCode::KeyE);
    assert_eq!(list.inputs[1].key, KeyCode::KeyQ);
    assert_eq!(list.inputs[2].key, KeyCode::KeyE);
}

#[test]
fn to_list_of_empty_sequence_is_empty() {
    let entries: [CaptureInput<fn()>; 0] = [];
    let list = entries.to_list();
    assert_eq!(list.inputs.len(), 0);
}

#[test]
fn to_list_owns_a_copy() {
    let mut entries = vec![CaptureInput { key: KeyCode::KeyA, function: noop as fn() }];
    let list = entries.as_slice().to_list();
    entries[0].key = KeyCode::KeyB;
    assert_eq!(list.inputs[0].key, KeyCode::KeyA);
}

#[test]
fn clone_keeps_entries_in_order() {
    let entries = [
        CaptureInput { key: KeyCode::KeyW, function: noop as fn() },
        CaptureInput { key: KeyCode::KeyS, function: noop as fn() },
    ];
    let list = entries.to_list();
    let copy = list.clone();
    assert_eq!(copy.inputs.len(), 2);
    assert_eq!(copy.inputs[0].key, KeyCode::KeyW);
    assert_eq!(copy.inputs[1].key, KeyCode::KeyS);
}
