use vstd::prelude::*;
use winit::keyboard::KeyCode;
use crate::capture::CaptureInput;
use crate::game_loop::{
    GameLoopView, KeyState, Phase, ResponseView, WindowAction, WindowEvent, event_response,
    event_state, matching_indices, register_effect, triggers,
};

verus! {

/// The state after registering each list of `lists` in turn.
pub open spec fn register_all<F>(g: GameLoopView<F>, lists: Seq<Seq<CaptureInput<F>>>) -> GameLoopView<F>
    decreases lists.len(),
{
    if lists.len() == 0 {
        g
    } else {
        register_effect(register_all(g, lists.drop_last()), lists.last())
    }
}

/// The state after the host delivers each event of `es` in turn.
pub open spec fn after_events<F>(g: GameLoopView<F>, es: Seq<WindowEvent>) -> GameLoopView<F>
    decreases es.len(),
{
    if es.len() == 0 {
        g
    } else {
        event_state(after_events(g, es.drop_last()), es.last())
    }
}

/// A key event on `key`.
pub open spec fn key_event(key: Option<KeyCode>, state: KeyState) -> WindowEvent {
    WindowEvent::KeyboardInput { physical_key: key, state }
}

/// With no binding triggered by `key`, no position is reported.
pub proof fn lemma_no_match<F>(s: Seq<CaptureInput<F>>, key: Option<KeyCode>)
    requires
        forall|j: int| 0 <= j < s.len() ==> !triggers(#[trigger] s[j], key),
    ensures
        matching_indices(s, key) == Seq::<usize>::empty(),
    decreases s.len(),
{
    if s.len() > 0 {
        lemma_no_match(s.drop_last(), key);
    }
}

/// With exactly one binding triggered by `key`, its position alone is reported.
pub proof fn lemma_one_match<F>(s: Seq<CaptureInput<F>>, key: Option<KeyCode>, i: int)
    requires
        0 <= i < s.len(),
        triggers(s[i], key),
        forall|j: int| 0 <= j < s.len() && j != i ==> !triggers(#[trigger] s[j], key),
    ensures
        matching_indices(s, key) == seq![i as usize],
    decreases s.len(),
{
    if i < s.len() - 1 {
        lemma_one_match(s.drop_last(), key, i);
    } else {
        lemma_no_match(s.drop_last(), key);
        assert(Seq::<usize>::empty().push(i as usize) == seq![i as usize]);
    }
}

/// With exactly two bindings triggered by `key`, both positions are reported,
/// in list order.
pub proof fn lemma_two_matches<F>(s: Seq<CaptureInput<F>>, key: Option<KeyCode>, i: int, j: int)
    requires
        0 <= i < j < s.len(),
        triggers(s[i], key),
        triggers(s[j], key),
        forall|k: int| 0 <= k < s.len() && k != i && k != j ==> !triggers(#[trigger] s[k], key),
    ensures
        matching_indices(s, key) == seq![i as usize, j as usize],
    decreases s.len(),
{
    if j < s.len() - 1 {
        lemma_two_matches(s.drop_last(), key, i, j);
    } else {
        lemma_one_match(s.drop_last(), key, i);
        assert(seq![i as usize].push(j as usize) == seq![i as usize, j as usize]);
    }
}

/// Registering several lists leaves only the last one in force, and the phase
/// as it was.
pub proof fn lemma_last_registration_wins<F>(g: GameLoopView<F>, lists: Seq<Seq<CaptureInput<F>>>)
    requires
        lists.len() > 0,
    ensures
        register_all(g, lists).captures == Some(lists.last()),
        register_all(g, lists).phase == g.phase,
    decreases lists.len(),
{
    if lists.len() > 1 {
        lemma_last_registration_wins(g, lists.drop_last());
    } else {
        assert(lists.drop_last().len() == 0);
        assert(register_all(g, lists.drop_last()) == g);
    }
}

/// A key event that triggers exactly one binding fires that binding once, and
/// is consumed: the loop's state is unchanged and no window action follows.
pub proof fn lemma_single_match_dispatch<F>(
    g: GameLoopView<F>,
    key: Option<KeyCode>,
    state: KeyState,
    i: int,
)
    requires
        g.phase == Phase::Active,
        g.captures is Some,
        0 <= i < g.captures->0.len(),
        triggers(g.captures->0[i], key),
        forall|j: int|
            0 <= j < g.captures->0.len() && j != i ==> !triggers(#[trigger] g.captures->0[j], key),
    ensures
        event_response(g, key_event(key, state)) == ResponseView::Captured(seq![i as usize]),
        event_state(g, key_event(key, state)) == g,
{
    lemma_one_match(g.captures->0, key, i);
}

/// A key event that triggers two bindings fires both, once each, in list order,
/// and is consumed.
pub proof fn lemma_duplicate_key_dispatch<F>(
    g: GameLoopView<F>,
    key: Option<KeyCode>,
    state: KeyState,
    i: int,
    j: int,
)
    requires
        g.phase == Phase::Active,
        g.captures is Some,
        0 <= i < j < g.captures->0.len(),
        triggers(g.captures->0[i], key),
        triggers(g.captures->0[j], key),
        forall|k: int|
            0 <= k < g.captures->0.len() && k != i && k != j ==> !triggers(
                #[trigger] g.captures->0[k],
                key,
            ),
    ensures
        event_response(g, key_event(key, state)) == ResponseView::Captured(
            seq![i as usize, j as usize],
        ),
        event_state(g, key_event(key, state)) == g,
{
    lemma_two_matches(g.captures->0, key, i, j);
}

/// A key event that triggers no binding fires nothing, and is still consumed
/// while a list is registered.
pub proof fn lemma_unmatched_key_consumed<F>(g: GameLoopView<F>, key: Option<KeyCode>, state: KeyState)
    requires
        g.phase == Phase::Active,
        g.captures is Some,
        forall|j: int| 0 <= j < g.captures->0.len() ==> !triggers(#[trigger] g.captures->0[j], key),
    ensures
        event_response(g, key_event(key, state)) == ResponseView::Captured(Seq::<usize>::empty()),
        event_state(g, key_event(key, state)) == g,
{
    lemma_no_match(g.captures->0, key);
}

/// With no list registered, a key event is not consumed: it falls through to
/// window handling, which ignores it.
pub proof fn lemma_key_without_captures_falls_through<F>(
    g: GameLoopView<F>,
    key: Option<KeyCode>,
    state: KeyState,
)
    requires
        g.phase == Phase::Active,
        g.captures is None,
    ensures
        event_response(g, key_event(key, state)) == ResponseView::Window(WindowAction::Nothing),
        event_state(g, key_event(key, state)) == g,
{
}

/// A close request ends a running loop, and no event after it is processed.
pub proof fn lemma_close_ends_loop<F>(g: GameLoopView<F>, es: Seq<WindowEvent>)
    requires
        g.phase == Phase::Active,
    ensures
        event_response(g, WindowEvent::CloseRequested) == ResponseView::Window(WindowAction::Exit),
        event_state(g, WindowEvent::CloseRequested).phase == Phase::Exited,
        after_events(event_state(g, WindowEvent::CloseRequested), es) == event_state(
            g,
            WindowEvent::CloseRequested,
        ),
        forall|k: int|
            0 <= k < es.len() ==> event_response(
                after_events(event_state(g, WindowEvent::CloseRequested), #[trigger] es.take(k)),
                es[k],
            ) == ResponseView::Skipped,
{
    let closed = event_state(g, WindowEvent::CloseRequested);
    lemma_exited_stays(closed, es);
    assert forall|k: int| 0 <= k < es.len() implies event_response(
        after_events(closed, #[trigger] es.take(k)),
        es[k],
    ) == ResponseView::Skipped by {
        lemma_exited_stays(closed, es.take(k));
    }
}

/// A finished loop ignores every event and stays as it is.
pub proof fn lemma_exited_stays<F>(g: GameLoopView<F>, es: Seq<WindowEvent>)
    requires
        g.phase == Phase::Exited,
    ensures
        after_events(g, es) == g,
    decreases es.len(),
{
    if es.len() > 0 {
        lemma_exited_stays(g, es.drop_last());
    }
}

/// A resize of a running loop asks for the surface to be reconfigured to the
/// new size and for nothing else: no frame is rendered for it.
pub proof fn lemma_resize_does_not_render<F>(g: GameLoopView<F>, width: u32, height: u32)
    requires
        g.phase == Phase::Active,
    ensures
        event_response(g, WindowEvent::Resized { width, height }) == ResponseView::Window(
            WindowAction::Resize { width, height },
        ),
        event_state(g, WindowEvent::Resized { width, height }) == g,
{
}

} // verus!
