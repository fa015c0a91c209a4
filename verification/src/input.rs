//! Movement-state input handling: named trigger states driven by the
//! window's input events.
//!
//! Events arrive as plain values from the external event collector: a
//! key code, a mouse button or a cursor position. A movement state is
//! activated while its trigger matches and ticks once per frame;
//! `Once` triggers drop back as soon as the trigger releases, `Toggle`
//! triggers keep their last value.

use vstd::prelude::*;

use crate::types::{str_eq, Vec2Fx};

verus! {

/// The press state of a key or button.
#[derive(Clone, Copy, PartialEq, Eq, Structural, Debug)]
pub enum ElementState {
    Pressed,
    Released,
}

/// A mouse button.
#[derive(Clone, Copy, PartialEq, Eq, Structural, Debug)]
pub enum MouseButton {
    Left,
    Right,
    Middle,
    Other(u8),
}

/// An input event, as the shell translates it from the window system.
#[derive(Clone, Copy, PartialEq, Eq, Structural, Debug)]
pub enum Event {
    KeyboardInput { virtual_keycode: Option<u32>, state: ElementState },
    MouseInput { button: MouseButton, state: ElementState },
    CursorMoved { x: i64, y: i64 },
    Resized { width: u32, height: u32 },
    CloseRequested,
    Other,
}

/// What activates a movement state: a key with a press state, or a
/// mouse button with a press state.
#[derive(Clone, Copy, PartialEq, Eq, Structural, Debug)]
pub enum Trigger {
    KeyTrigger(u32, ElementState),
    MouseButtonTrigger(MouseButton, ElementState),
}

/// Whether a state drops once its trigger releases, or toggles.
#[derive(Clone, Copy, PartialEq, Eq, Structural, Debug)]
pub enum TriggerType {
    Once,
    Toggle,
}

/// A named trigger state.
#[derive(Clone, Debug)]
pub struct MovementState {
    pub id: String,
    pub trigger: Trigger,
    pub trigger_type: TriggerType,
    pub is_activated: bool,
    pub is_triggered: bool,
}

/// The state after `set_active(b)`: both flags follow the activation.
pub open spec fn activated_state(s: MovementState, b: bool) -> MovementState {
    MovementState { is_activated: b, is_triggered: b, ..s }
}

/// The state after one input event: a matching trigger activates or
/// deactivates it; everything else leaves it alone.
pub open spec fn state_after_event(s: MovementState, e: Event) -> MovementState {
    match e {
        Event::KeyboardInput { virtual_keycode, state } => match s.trigger {
            Trigger::KeyTrigger(key_code, key_state) => match virtual_keycode {
                Option::Some(vkc) => if vkc == key_code {
                    activated_state(s, state == key_state)
                } else {
                    s
                },
                Option::None => s,
            },
            _ => s,
        },
        Event::MouseInput { button, state } => match s.trigger {
            Trigger::MouseButtonTrigger(mouse_button, mouse_state) => if button == mouse_button {
                activated_state(s, state == mouse_state)
            } else {
                s
            },
            _ => s,
        },
        _ => s,
    }
}

/// The state after a whole batch of events, applied in order.
pub open spec fn state_after_events(s: MovementState, events: Seq<Event>) -> MovementState
    decreases events.len(),
{
    if events.len() == 0 {
        s
    } else {
        state_after_events(state_after_event(s, events[0]), events.skip(1))
    }
}

/// The state after the end-of-frame tick: a `Once` state that was not
/// activated this frame drops its trigger; activation is consumed.
pub open spec fn ticked_state(s: MovementState) -> MovementState {
    match s.trigger_type {
        TriggerType::Once => if !s.is_activated {
            MovementState { is_activated: false, is_triggered: false, ..s }
        } else {
            MovementState { is_activated: false, ..s }
        },
        TriggerType::Toggle => MovementState { is_activated: false, ..s },
    }
}

/// The cursor position after a batch of events: the last move wins.
pub open spec fn cursor_after_events(c: Vec2Fx, events: Seq<Event>) -> Vec2Fx
    decreases events.len(),
{
    if events.len() == 0 {
        c
    } else {
        let c1 = match events[0] {
            Event::CursorMoved { x, y } => Vec2Fx { x, y },
            _ => c,
        };
        cursor_after_events(c1, events.skip(1))
    }
}

impl MovementState {
    pub fn new(id: String, trigger: Trigger, trigger_type: TriggerType) -> (r: MovementState)
        ensures
            r.id == id,
            r.trigger == trigger,
            r.trigger_type == trigger_type,
            !r.is_activated,
            !r.is_triggered,
    {
        MovementState { id, trigger, trigger_type, is_activated: false, is_triggered: false }
    }

    pub fn set_active(&mut self, b: bool)
        ensures
            *final(self) == activated_state(*old(self), b),
    {
        self.is_activated = b;
        self.is_triggered = b;
    }

    pub fn tick(&mut self)
        ensures
            *final(self) == ticked_state(*old(self)),
    {
        if let TriggerType::Once = self.trigger_type {
            if !self.is_activated {
                self.is_triggered = false;
            }
        }
        self.is_activated = false;
    }

    pub fn triggered(&self) -> (r: bool)
        ensures
            r == self.is_triggered,
    {
        self.is_triggered
    }

    /// Applies one input event to this state.
    fn apply_event(&mut self, event: &Event)
        ensures
            *final(self) == state_after_event(*old(self), *event),
    {
        match event {
            Event::KeyboardInput { virtual_keycode, state } => {
                if let Trigger::KeyTrigger(key_code, key_state) = self.trigger {
                    if let Option::Some(vkc) = virtual_keycode {
                        if *vkc == key_code {
                            let active = *state == key_state;
                            self.set_active(active);
                        }
                    }
                }
            },
            Event::MouseInput { button, state } => {
                if let Trigger::MouseButtonTrigger(mouse_button, mouse_state) = self.trigger {
                    if *button == mouse_button {
                        let active = *state == mouse_state;
                        self.set_active(active);
                    }
                }
            },
            _ => {},
        }
    }
}

/// Errors of the input layer.
#[derive(Clone, Copy, PartialEq, Eq, Structural, Debug)]
pub enum InputError {
    StateNotFound,
}

impl InputError {
    pub fn message(&self) -> &'static str {
        match self {
            InputError::StateNotFound => "Failed to find state with the specified id.",
        }
    }
}

/// The set of movement states the frame loop feeds with events.
pub struct MovementStateHandler {
    pub states: Vec<MovementState>,
    pub cursor_pos: Vec2Fx,
}

impl MovementStateHandler {
    pub fn new() -> (r: MovementStateHandler)
        ensures
            r.states@.len() == 0,
            r.cursor_pos == (Vec2Fx { x: 0, y: 0 }),
    {
        MovementStateHandler { states: Vec::new(), cursor_pos: Vec2Fx::zero() }
    }

    pub fn add_state(&mut self, state: MovementState)
        ensures
            final(self).states@ == old(self).states@.push(state),
            final(self).cursor_pos == old(self).cursor_pos,
    {
        self.states.push(state);
    }

    /// Reads the trigger flag of the first state with the given id, or
    /// the not-found error when no state carries it.
    pub fn is_triggered(&self, id: String) -> (r: Result<bool, InputError>)
        ensures
            match r {
                Result::Ok(b) => exists|i: int|
                    0 <= i < self.states@.len() && (#[trigger] self.states@[i]).id@ == id@
                        && b == self.states@[i].is_triggered && (forall|j: int|
                        0 <= j < i ==> (#[trigger] self.states@[j]).id@ != id@),
                Result::Err(e) => {
                    &&& e == InputError::StateNotFound
                    &&& forall|i: int|
                        0 <= i < self.states@.len() ==> (#[trigger] self.states@[i]).id@ != id@
                },
            },
    {
        let mut i: usize = 0;
        while i < self.states.len()
            invariant
                i <= self.states@.len(),
                forall|j: int| 0 <= j < i ==> (#[trigger] self.states@[j]).id@ != id@,
            decreases self.states@.len() - i,
        {
            if str_eq(self.states[i].id.as_str(), id.as_str()) {
                return Result::Ok(self.states[i].triggered());
            }
            i = i + 1;
        }
        Result::Err(InputError::StateNotFound)
    }

    /// Feeds one frame's events to every state, updates the cursor
    /// position, and ticks each state once.
    pub fn handle_events(&mut self, events: &Vec<Event>)
        ensures
            final(self).states@.len() == old(self).states@.len(),
            forall|i: int|
                0 <= i < old(self).states@.len() ==> final(self).states@[i] == ticked_state(
                    state_after_events(old(self).states@[i], events@),
                ),
            final(self).cursor_pos == cursor_after_events(old(self).cursor_pos, events@),
    {
        let ghost old_states = self.states@;
        let n = self.states.len();
        let mut i: usize = 0;
        while i < n
            invariant
                i <= n,
                n == old_states.len(),
                self.states@.len() == n,
                self.states@ == old_states.skip(i as int) + self.states@.skip((n - i) as int),
                forall|k: int|
                    0 <= k < i ==> self.states@[n - i + k] == ticked_state(
                        state_after_events(old_states[k], events@),
                    ),
                self.cursor_pos == old(self).cursor_pos,
            decreases n - i,
        {
            let ghost pre = self.states@;
            let mut state = self.states.remove(0);
            proof {
                assert(state == old_states[i as int]);
            }
            let ghost start = state;
            let mut j: usize = 0;
            proof {
                assert(events@.skip(0) =~= events@);
            }
            while j < events.len()
                invariant
                    j <= events@.len(),
                    state_after_events(start, events@) == state_after_events(
                        state,
                        events@.skip(j as int),
                    ),
                decreases events@.len() - j,
            {
                proof {
                    assert(events@.skip(j as int)[0] == events@[j as int]);
                    assert(events@.skip(j as int).skip(1) =~= events@.skip(j as int + 1));
                }
                state.apply_event(&events[j]);
                j = j + 1;
            }
            proof {
                assert(events@.skip(events@.len() as int) =~= Seq::<Event>::empty());
            }
            state.tick();
            self.states.push(state);
            proof {
                assert(self.states@ =~= old_states.skip(i as int + 1) + self.states@.skip((n - i
                    - 1) as int));
            }
            i = i + 1;
        }
        proof {
            assert(self.states@ =~= self.states@.skip(0));
            assert(forall|k: int|
                0 <= k < n ==> self.states@[k] == ticked_state(
                    state_after_events(old_states[k], events@),
                ));
        }

        let mut j: usize = 0;
        let ghost old_cursor = self.cursor_pos;
        proof {
            assert(events@.skip(0) =~= events@);
        }
        while j < events.len()
            invariant
                j <= events@.len(),
                cursor_after_events(old_cursor, events@) == cursor_after_events(
                    self.cursor_pos,
                    events@.skip(j as int),
                ),
                self.states@.len() == old(self).states@.len(),
                forall|k: int|
                    0 <= k < old(self).states@.len() ==> self.states@[k] == ticked_state(
                        state_after_events(old(self).states@[k], events@),
                    ),
            decreases events@.len() - j,
        {
            proof {
                assert(events@.skip(j as int)[0] == events@[j as int]);
                assert(events@.skip(j as int).skip(1) =~= events@.skip(j as int + 1));
            }
            if let Event::CursorMoved { x, y } = events[j] {
                self.cursor_pos = Vec2Fx::new(x, y);
            }
            j = j + 1;
        }
    }
}

} // verus!
