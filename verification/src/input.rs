//! Aggregation of key edges and mouse movement between simulation ticks.

use crate::event::{Event, EventData, Key, Message, Point, Rect};
use vstd::prelude::*;

verus! {

/// The value of `v` brought into the range of `i32`.
pub open spec fn saturate(v: int) -> i32 {
    if v > i32::MAX {
        i32::MAX
    } else if v < i32::MIN {
        i32::MIN
    } else {
        v as i32
    }
}

/// Calls `num_traits::abs` as cgmath re-exports it. For a signed integer
/// other than the least one it returns the number without its sign; the
/// least one, whose negation does not fit, is left out.
#[verifier::external_body]
fn magnitude(x: i64) -> (m: i64)
    requires
        x > i64::MIN,
    ensures
        m == (if x < 0 { -x } else { x as int }),
{
    cgmath::num_traits::abs(x)
}

fn add_saturating(acc: i32, delta: i64) -> (r: i32)
    requires
        i32::MIN <= delta <= i32::MAX,
    ensures
        r == saturate(acc + delta),
{
    let sum: i64 = acc as i64 + delta;
    if sum > i32::MAX as i64 {
        i32::MAX
    } else if sum < i32::MIN as i64 {
        i32::MIN
    } else {
        sum as i32
    }
}

/// What the simulation reads of the input at each tick: level flags that
/// hold while a key is down, a one-shot jump flag, and the mouse movement
/// summed since the last tick.
#[derive(Clone, Copy, Debug, PartialEq, Eq, Structural)]
pub struct InputState {
    pub mouse_x: i32,
    pub mouse_y: i32,
    pub forward: bool,
    pub backward: bool,
    pub left: bool,
    pub right: bool,
    pub jump: bool,
}

impl InputState {
    pub open spec fn spec_new() -> InputState {
        InputState {
            mouse_x: 0,
            mouse_y: 0,
            forward: false,
            backward: false,
            left: false,
            right: false,
            jump: false,
        }
    }

    /// The state after a tick has consumed it: the one-shot fields are
    /// cleared, the level flags stay.
    pub open spec fn spec_reset(self) -> InputState {
        InputState { mouse_x: 0, mouse_y: 0, jump: false, ..self }
    }

    /// The state after a key-down. Left and right ignore a repeated
    /// key-down; forward, backward and jump are set by every key-down.
    pub open spec fn spec_key_down(self, key: Key, repeat: bool) -> InputState {
        match key {
            Key::Left => if repeat {
                self
            } else {
                InputState { left: true, ..self }
            },
            Key::Right => if repeat {
                self
            } else {
                InputState { right: true, ..self }
            },
            Key::Forward => InputState { forward: true, ..self },
            Key::Backward => InputState { backward: true, ..self },
            Key::Jump => InputState { jump: true, ..self },
            Key::Other => self,
        }
    }

    /// The state after a key-up, which clears the level flag of the key.
    pub open spec fn spec_key_up(self, key: Key) -> InputState {
        match key {
            Key::Left => InputState { left: false, ..self },
            Key::Right => InputState { right: false, ..self },
            Key::Forward => InputState { forward: false, ..self },
            Key::Backward => InputState { backward: false, ..self },
            Key::Jump => self,
            Key::Other => self,
        }
    }

    /// The state after a mouse move to `at` in a window `window`: a move
    /// near the centre adds its offset from the centre to the sums, which
    /// stop at the limits of `i32`; any other move changes nothing.
    pub open spec fn spec_mouse_move(self, window: Rect, at: Point) -> InputState {
        if window.spec_near_center(at) {
            InputState {
                mouse_x: saturate(self.mouse_x + (at.x - window.spec_center_x())),
                mouse_y: saturate(self.mouse_y + (at.y - window.spec_center_y())),
                ..self
            }
        } else {
            self
        }
    }

    pub fn new() -> (s: InputState)
        ensures
            s == InputState::spec_new(),
    {
        InputState {
            mouse_x: 0,
            mouse_y: 0,
            forward: false,
            backward: false,
            left: false,
            right: false,
            jump: false,
        }
    }

    pub fn post_update_reset(&mut self)
        ensures
            *final(self) == old(self).spec_reset(),
    {
        self.mouse_x = 0;
        self.mouse_y = 0;
        self.jump = false;
    }

    pub fn key_down(&mut self, key: Key, repeat: bool)
        ensures
            *final(self) == old(self).spec_key_down(key, repeat),
    {
        match key {
            Key::Left => {
                if !repeat {
                    self.left = true;
                }
            },
            Key::Right => {
                if !repeat {
                    self.right = true;
                }
            },
            Key::Forward => {
                self.forward = true;
            },
            Key::Backward => {
                self.backward = true;
            },
            Key::Jump => {
                self.jump = true;
            },
            Key::Other => {},
        }
    }

    pub fn key_up(&mut self, key: Key)
        ensures
            *final(self) == old(self).spec_key_up(key),
    {
        match key {
            Key::Left => {
                self.left = false;
            },
            Key::Right => {
                self.right = false;
            },
            Key::Forward => {
                self.forward = false;
            },
            Key::Backward => {
                self.backward = false;
            },
            Key::Jump => {},
            Key::Other => {},
        }
    }

    /// Takes a mouse move into the sums if it lies near the centre of
    /// `window`, and says whether it did.
    pub fn mouse_move(&mut self, window: &Rect, at: Point) -> (accepted: bool)
        ensures
            accepted == window.spec_near_center(at),
            *final(self) == old(self).spec_mouse_move(*window, at),
    {
        let dx: i64 = at.x as i64 - window.center_x() as i64;
        let dy: i64 = at.y as i64 - window.center_y() as i64;
        let near_x = magnitude(dx) < window.width() / 4;
        let near_y = magnitude(dy) < window.height() / 4;
        if near_x && near_y {
            self.mouse_x = add_saturating(self.mouse_x, dx);
            self.mouse_y = add_saturating(self.mouse_y, dy);
            true
        } else {
            false
        }
    }
}

/// What the simulation side owes the outside after one event.
#[derive(Clone, Copy, Debug, PartialEq, Eq, Structural)]
pub enum Effect {
    /// Nothing beyond the change of the aggregated state.
    Nothing,
    /// The window changed: the camera's aspect ratio becomes `width / height`.
    Aspect { width: i64, height: i64 },
    /// A mouse move away from the centre was dropped.
    Discarded,
    /// The payload did not belong to the tag; the event had no effect.
    Unexpected(Message),
}

/// The input state together with the window rectangle that mouse moves
/// are measured against.
#[derive(Clone, Copy, Debug, PartialEq, Eq, Structural)]
pub struct InputAggregator {
    pub state: InputState,
    pub window: Rect,
}

impl InputAggregator {
    /// The aggregator and the effect after one event.
    pub open spec fn spec_apply(self, event: Event) -> (InputAggregator, Effect) {
        match event.message {
            Message::KeyDown => match event.data {
                EventData::KeyDown { key, repeat } => (
                    InputAggregator { state: self.state.spec_key_down(key, repeat), ..self },
                    Effect::Nothing,
                ),
                _ => (self, Effect::Unexpected(Message::KeyDown)),
            },
            Message::KeyUp => match event.data {
                EventData::KeyUp { key } => (
                    InputAggregator { state: self.state.spec_key_up(key), ..self },
                    Effect::Nothing,
                ),
                _ => (self, Effect::Unexpected(Message::KeyUp)),
            },
            Message::MouseMove => match event.data {
                EventData::MouseMove(at) => (
                    InputAggregator { state: self.state.spec_mouse_move(self.window, at), ..self },
                    if self.window.spec_near_center(at) {
                        Effect::Nothing
                    } else {
                        Effect::Discarded
                    },
                ),
                _ => (self, Effect::Unexpected(Message::MouseMove)),
            },
            Message::Resize => match event.data {
                EventData::Resize(rect) => (
                    InputAggregator { window: rect, ..self },
                    Effect::Aspect { width: rect.spec_width() as i64, height: rect.spec_height() as i64 },
                ),
                _ => (self, Effect::Unexpected(Message::Resize)),
            },
            Message::Paint => (self, Effect::Nothing),
        }
    }

    /// The aggregator after `events` in order, and the effect of each.
    pub open spec fn spec_absorb(self, events: Seq<Event>) -> (InputAggregator, Seq<Effect>)
        decreases events.len(),
    {
        if events.len() == 0 {
            (self, Seq::<Effect>::empty())
        } else {
            let (before, effects) = self.spec_absorb(events.drop_last());
            let (after, effect) = before.spec_apply(events.last());
            (after, effects.push(effect))
        }
    }

    /// No key held, no movement, measured against `window`.
    pub fn new(window: Rect) -> (a: InputAggregator)
        ensures
            a == (InputAggregator { state: InputState::spec_new(), window }),
    {
        InputAggregator { state: InputState::new(), window }
    }

    /// Applies one event and returns its effect.
    pub fn apply(&mut self, event: Event) -> (effect: Effect)
        ensures
            (*final(self), effect) == old(self).spec_apply(event),
    {
        match event.message {
            Message::KeyDown => match event.data {
                EventData::KeyDown { key, repeat } => {
                    self.state.key_down(key, repeat);
                    Effect::Nothing
                },
                _ => Effect::Unexpected(Message::KeyDown),
            },
            Message::KeyUp => match event.data {
                EventData::KeyUp { key } => {
                    self.state.key_up(key);
                    Effect::Nothing
                },
                _ => Effect::Unexpected(Message::KeyUp),
            },
            Message::MouseMove => match event.data {
                EventData::MouseMove(at) => {
                    let window = self.window;
                    if self.state.mouse_move(&window, at) {
                        Effect::Nothing
                    } else {
                        Effect::Discarded
                    }
                },
                _ => Effect::Unexpected(Message::MouseMove),
            },
            Message::Resize => match event.data {
                EventData::Resize(rect) => {
                    self.window = rect;
                    Effect::Aspect { width: rect.width(), height: rect.height() }
                },
                _ => Effect::Unexpected(Message::Resize),
            },
            Message::Paint => Effect::Nothing,
        }
    }

    /// Applies `events` in order and returns the effect of each, in the
    /// same order.
    pub fn absorb(&mut self, events: &Vec<Event>) -> (effects: Vec<Effect>)
        ensures
            (*final(self), effects@) == old(self).spec_absorb(events@),
    {
        let mut effects: Vec<Effect> = Vec::new();
        let mut i: usize = 0;
        while i < events.len()
            invariant
                i <= events.len(),
                (*self, effects@) == old(self).spec_absorb(events@.take(i as int)),
            decreases events.len() - i,
        {
            assert(events@.take(i + 1).drop_last() == events@.take(i as int));
            assert(events@.take(i + 1).last() == events@[i as int]);
            let effect = self.apply(events[i]);
            effects.push(effect);
            i += 1;
        }
        assert(events@.take(i as int) == events@);
        effects
    }
}

/// A repeated key-down for left or right changes nothing, so a flag that
/// is set stays set.
pub proof fn law_repeat_key_down_is_ignored(state: InputState, key: Key)
    requires
        key == Key::Left || key == Key::Right,
    ensures
        state.spec_key_down(key, true) == state,
        state.left ==> state.spec_key_down(Key::Left, true).left,
        state.right ==> state.spec_key_down(Key::Right, true).right,
{
}

/// A key-up clears the flag of its key whatever came before it, a first or
/// a repeated key-down included.
pub proof fn law_key_up_clears_flag(state: InputState, repeat: bool)
    ensures
        !state.spec_key_up(Key::Left).left,
        !state.spec_key_up(Key::Right).right,
        !state.spec_key_up(Key::Forward).forward,
        !state.spec_key_up(Key::Backward).backward,
        !state.spec_key_down(Key::Left, repeat).spec_key_up(Key::Left).left,
        !state.spec_key_down(Key::Right, repeat).spec_key_up(Key::Right).right,
{
}

/// Forward, backward and jump are set by every key-down, repeated or not.
pub proof fn law_key_down_without_suppression(state: InputState, repeat: bool)
    ensures
        state.spec_key_down(Key::Forward, repeat).forward,
        state.spec_key_down(Key::Backward, repeat).backward,
        state.spec_key_down(Key::Jump, repeat).jump,
{
}

/// The reset after a tick clears the movement and the jump flag and keeps
/// every level flag.
pub proof fn law_reset_keeps_level_flags(state: InputState)
    ensures
        state.spec_reset().mouse_x == 0,
        state.spec_reset().mouse_y == 0,
        !state.spec_reset().jump,
        state.spec_reset().forward == state.forward,
        state.spec_reset().backward == state.backward,
        state.spec_reset().left == state.left,
        state.spec_reset().right == state.right,
{
}

/// Absorbing two batches one after the other equals absorbing them joined.
pub proof fn law_absorb_in_batches(start: InputAggregator, first: Seq<Event>, second: Seq<Event>)
    ensures
        start.spec_absorb(first + second).0 == start.spec_absorb(first).0.spec_absorb(second).0,
        start.spec_absorb(first + second).1 == start.spec_absorb(first).1
            + start.spec_absorb(first).0.spec_absorb(second).1,
    decreases second.len(),
{
    if second.len() == 0 {
        assert(first + second =~= first);
        assert(start.spec_absorb(first).1 + Seq::<Effect>::empty() =~= start.spec_absorb(first).1);
    } else {
        law_absorb_in_batches(start, first, second.drop_last());
        assert((first + second).drop_last() =~= first + second.drop_last());
        assert((first + second).last() == second.last());
        let mid = start.spec_absorb(first);
        let rest = mid.0.spec_absorb(second.drop_last());
        let step = rest.0.spec_apply(second.last());
        assert(mid.1 + rest.1.push(step.1) =~= (mid.1 + rest.1).push(step.1));
    }
}

} // verus!
