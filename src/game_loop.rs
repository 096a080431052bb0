use vstd::prelude::*;
use winit::keyboard::KeyCode;
use crate::capture::{CaptureInput, CaptureList};
use crate::keys::same_key;

verus! {

/// Whether a key went down or came up.
#[derive(Clone, Copy, Debug, PartialEq, Eq, Structural)]
pub enum KeyState {
    Pressed,
    Released,
}

/// A window event, as far as the loop reads it.
///
/// `physical_key` is `None` for a key that the windowing system could not identify.
#[derive(Clone, Copy, Debug)]
pub enum WindowEvent {
    KeyboardInput { physical_key: Option<KeyCode>, state: KeyState },
    CloseRequested,
    RedrawRequested,
    Resized { width: u32, height: u32 },
    Other,
}

/// The lifecycle of a loop: constructed, running with a window, or finished.
#[derive(Clone, Copy, Debug, PartialEq, Eq, Structural)]
pub enum Phase {
    Idle,
    Active,
    Exited,
}

/// What the host must do with the window and session for an event that input
/// capture did not consume.
#[derive(Clone, Copy, Debug, PartialEq, Eq, Structural)]
pub enum WindowAction {
    /// Stop the event loop.
    Exit,
    /// Render one frame, then request another redraw.
    RenderAndRedraw,
    /// Reconfigure the surface to the new size, without rendering.
    Resize { width: u32, height: u32 },
    /// Nothing to do.
    Nothing,
}

/// The loop's answer to one event.
#[derive(Debug)]
pub enum Response {
    /// Input capture consumed the event; call the callbacks of the bindings at
    /// these positions, once each, in this order.
    Captured(Vec<usize>),
    /// The event fell through to window and session handling.
    Window(WindowAction),
    /// The loop is not running, and the event is not processed.
    Skipped,
}

pub enum ResponseView {
    Captured(Seq<usize>),
    Window(WindowAction),
    Skipped,
}

impl View for Response {
    type V = ResponseView;

    open spec fn view(&self) -> ResponseView {
        match self {
            Response::Captured(v) => ResponseView::Captured(v@),
            Response::Window(a) => ResponseView::Window(*a),
            Response::Skipped => ResponseView::Skipped,
        }
    }
}

/// The abstract state of a loop: the bindings in force, if any, and its phase.
pub struct GameLoopView<F> {
    pub captures: Option<Seq<CaptureInput<F>>>,
    pub phase: Phase,
}

/// Whether binding `c` is triggered by a key event on `key`.
pub open spec fn triggers<F>(c: CaptureInput<F>, key: Option<KeyCode>) -> bool {
    key == Some(c.key)
}

/// The positions in `s` of the bindings that `key` triggers, in increasing order.
pub open spec fn matching_indices<F>(s: Seq<CaptureInput<F>>, key: Option<KeyCode>) -> Seq<usize>
    decreases s.len(),
{
    if s.len() == 0 {
        Seq::empty()
    } else {
        let prev = matching_indices(s.drop_last(), key);
        if triggers(s.last(), key) {
            prev.push((s.len() - 1) as usize)
        } else {
            prev
        }
    }
}

/// Input handling: `Some(fired)` when the event is consumed, `None` when it
/// falls through to window handling.
pub open spec fn captured<F>(captures: Option<Seq<CaptureInput<F>>>, e: WindowEvent) -> Option<Seq<usize>> {
    match captures {
        Some(s) => match e {
            WindowEvent::KeyboardInput { physical_key, .. } => Some(matching_indices(s, physical_key)),
            _ => None,
        },
        None => None,
    }
}

/// Window and session handling of an event that was not consumed.
pub open spec fn window_action(e: WindowEvent) -> WindowAction {
    match e {
        WindowEvent::CloseRequested => WindowAction::Exit,
        WindowEvent::RedrawRequested => WindowAction::RenderAndRedraw,
        WindowEvent::Resized { width, height } => WindowAction::Resize { width, height },
        _ => WindowAction::Nothing,
    }
}

/// The state after `list` is registered: it replaces whatever was registered.
pub open spec fn register_effect<F>(g: GameLoopView<F>, list: Seq<CaptureInput<F>>) -> GameLoopView<F> {
    GameLoopView { captures: Some(list), phase: g.phase }
}

/// The state after the window is realized.
pub open spec fn resume_effect<F>(g: GameLoopView<F>) -> GameLoopView<F> {
    GameLoopView {
        captures: g.captures,
        phase: if g.phase == Phase::Idle { Phase::Active } else { g.phase },
    }
}

/// The state after one event.
pub open spec fn event_state<F>(g: GameLoopView<F>, e: WindowEvent) -> GameLoopView<F> {
    if g.phase == Phase::Active && captured(g.captures, e).is_none() && e is CloseRequested {
        GameLoopView { captures: g.captures, phase: Phase::Exited }
    } else {
        g
    }
}

/// The answer to one event.
pub open spec fn event_response<F>(g: GameLoopView<F>, e: WindowEvent) -> ResponseView {
    if g.phase != Phase::Active {
        ResponseView::Skipped
    } else {
        match captured(g.captures, e) {
            Some(fired) => ResponseView::Captured(fired),
            None => ResponseView::Window(window_action(e)),
        }
    }
}

/// The run-loop state machine: the bindings in force and the lifecycle phase.
pub struct GameLoop<F> {
    capture_events: Option<CaptureList<F>>,
    phase: Phase,
}

impl<F> View for GameLoop<F> {
    type V = GameLoopView<F>;

    closed spec fn view(&self) -> GameLoopView<F> {
        GameLoopView {
            captures: match self.capture_events {
                Some(l) => Some(l.inputs@),
                None => None,
            },
            phase: self.phase,
        }
    }
}

impl<F> GameLoop<F> {
    /// A loop with no bindings and no window yet.
    pub fn new() -> (r: Self)
        ensures
            r@.captures is None,
            r@.phase == Phase::Idle,
    {
        GameLoop { capture_events: None, phase: Phase::Idle }
    }

    pub fn phase(&self) -> (r: Phase)
        ensures
            r == self@.phase,
    {
        self.phase
    }

    /// The bindings in force, if any.
    pub fn captures(&self) -> (r: Option<&CaptureList<F>>)
        ensures
            match r {
                Some(l) => self@.captures == Some(l.inputs@),
                None => self@.captures is None,
            },
    {
        match &self.capture_events {
            Some(l) => Some(l),
            None => None,
        }
    }

    /// Makes `list` the bindings in force, replacing any earlier ones.
    pub fn register(&mut self, list: CaptureList<F>)
        ensures
            final(self)@ == register_effect(old(self)@, list.inputs@),
    {
        self.capture_events = Some(list);
    }

    /// The window was realized. Returns whether the session must be created
    /// now, which is the case on the first realization only.
    pub fn resumed(&mut self) -> (r: bool)
        ensures
            r == (old(self)@.phase == Phase::Idle),
            final(self)@ == resume_effect(old(self)@),
    {
        if matches!(self.phase, Phase::Idle) {
            self.phase = Phase::Active;
            true
        } else {
            false
        }
    }

    /// Input handling of one event: the positions of the triggered bindings
    /// when the event is consumed, `None` when it falls through.
    pub fn inputs(&self, event: &WindowEvent) -> (r: Option<Vec<usize>>)
        ensures
            match r {
                Some(v) => captured(self@.captures, *event) == Some(v@),
                None => captured(self@.captures, *event) is None,
            },
    {
        match &self.capture_events {
            None => None,
            Some(list) => match event {
                WindowEvent::KeyboardInput { physical_key, .. } => {
                    Some(matching_positions(&list.inputs, physical_key))
                },
                _ => None,
            },
        }
    }

    /// Handles one event delivered by the host.
    pub fn window_event(&mut self, event: &WindowEvent) -> (r: Response)
        ensures
            r@ == event_response(old(self)@, *event),
            final(self)@ == event_state(old(self)@, *event),
    {
        if !matches!(self.phase, Phase::Active) {
            return Response::Skipped;
        }
        match self.inputs(event) {
            Some(fired) => Response::Captured(fired),
            None => {
                let action = match event {
                    WindowEvent::CloseRequested => {
                        self.phase = Phase::Exited;
                        WindowAction::Exit
                    },
                    WindowEvent::RedrawRequested => WindowAction::RenderAndRedraw,
                    WindowEvent::Resized { width, height } => {
                        WindowAction::Resize { width: *width, height: *height }
                    },
                    _ => WindowAction::Nothing,
                };
                Response::Window(action)
            },
        }
    }
}

impl<F> Default for GameLoop<F> {
    fn default() -> (r: Self)
        ensures
            r@.captures is None,
            r@.phase == Phase::Idle,
    {
        GameLoop::new()
    }
}

/// Registration of bindings on a loop.
pub trait Events<F>: Sized {
    /// The abstract state of the loop.
    spec fn state(&self) -> GameLoopView<F>;

    /// Calls `function` once and makes the list it builds the bindings in
    /// force, replacing any earlier ones. Returns the loop for chaining.
    fn capture_events<G: Fn() -> CaptureList<F>>(&mut self, function: G) -> (r: &mut Self)
        requires
            function.requires(()),
        ensures
            exists|l: CaptureList<F>|
                function.ensures((), l) && r.state() == register_effect(
                    old(self).state(),
                    l.inputs@,
                ),
            *final(self) == *final(r),
    ;
}

impl<F> Events<F> for GameLoop<F> {
    open spec fn state(&self) -> GameLoopView<F> {
        self@
    }

    fn capture_events<G: Fn() -> CaptureList<F>>(&mut self, function: G) -> (r: &mut Self) {
        let list = function();
        self.register(list);
        self
    }
}

/// The positions in `inputs` of the bindings that `key` triggers, in order.
pub fn matching_positions<F>(inputs: &[CaptureInput<F>], key: &Option<KeyCode>) -> (r: Vec<usize>)
    ensures
        r@ == matching_indices(inputs@, *key),
{
    let mut fired: Vec<usize> = Vec::new();
    let mut i: usize = 0;
    while i < inputs.len()
        invariant
            i <= inputs@.len(),
            fired@ == matching_indices(inputs@.subrange(0, i as int), *key),
        decreases inputs@.len() - i,
    {
        let prefix = Ghost(inputs@.subrange(0, i as int + 1));
        assert(prefix@.drop_last() == inputs@.subrange(0, i as int));
        let hit = match key {
            Some(k) => same_key(k, &inputs[i].key),
            None => false,
        };
        if hit {
            fired.push(i);
        }
        i = i + 1;
    }
    assert(inputs@.subrange(0, inputs@.len() as int) == inputs@);
    fired
}

} // verus!
