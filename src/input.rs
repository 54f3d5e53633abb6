//! Per-frame keyboard state: which keys are held, and what that asks of the
//! camera.

use vstd::prelude::*;

use crate::stimuli::{CameraStimuli, QuitStimuli, Stimuli};

verus! {

/// One key: held this frame, held the frame before, and whether that changed.
#[derive(Clone, Copy, Debug, PartialEq, Eq, Structural)]
pub struct KeyState {
    pub is_pressed: bool,
    pub was_pressed: bool,
    pub has_changed: bool,
}

impl KeyState {
    pub fn default() -> (r: KeyState)
        ensures
            !r.is_pressed && !r.was_pressed && !r.has_changed,
    {
        KeyState::new(false, false, false)
    }

    pub fn new(is_pressed: bool, was_pressed: bool, has_changed: bool) -> (r: KeyState)
        ensures
            r.is_pressed == is_pressed,
            r.was_pressed == was_pressed,
            r.has_changed == has_changed,
    {
        KeyState { is_pressed, was_pressed, has_changed }
    }
}

/// A key at the start of a frame: released, remembering whether it was held,
/// changed if it was.
pub open spec fn reset_key(k: KeyState) -> KeyState {
    KeyState { is_pressed: false, was_pressed: k.is_pressed, has_changed: k.is_pressed }
}

/// A key reported pressed: held, changed unless it was already held before.
pub open spec fn press_key(k: KeyState) -> KeyState {
    KeyState { is_pressed: true, was_pressed: k.was_pressed, has_changed: !k.was_pressed }
}

/// The keys the renderer listens to.
#[derive(Clone, Copy, Debug, PartialEq, Eq, Structural)]
pub enum Key {
    Escape,
    Q,
    Up,
    Down,
    Left,
    Right,
    Other,
}

/// The state of every key the renderer listens to.
#[derive(Clone, Copy, Debug, PartialEq, Eq, Structural)]
pub struct KeyboardState {
    pub q: KeyState,
    pub esc: KeyState,
    pub left_arrow: KeyState,
    pub right_arrow: KeyState,
    pub up_arrow: KeyState,
    pub down_arrow: KeyState,
    pub shift: KeyState,
}

impl KeyboardState {
    /// Every key released and unchanged.
    pub fn new() -> (r: KeyboardState)
        ensures
            r.q == KeyState::default_spec(),
            r.esc == KeyState::default_spec(),
            r.left_arrow == KeyState::default_spec(),
            r.right_arrow == KeyState::default_spec(),
            r.up_arrow == KeyState::default_spec(),
            r.down_arrow == KeyState::default_spec(),
            r.shift == KeyState::default_spec(),
    {
        KeyboardState {
            q: KeyState::default(),
            esc: KeyState::default(),
            left_arrow: KeyState::default(),
            right_arrow: KeyState::default(),
            up_arrow: KeyState::default(),
            down_arrow: KeyState::default(),
            shift: KeyState::default(),
        }
    }

    /// Starts a frame: every key released, remembering what was held.
    pub fn reset(&mut self)
        ensures
            final(self).q == reset_key(old(self).q),
            final(self).esc == reset_key(old(self).esc),
            final(self).left_arrow == reset_key(old(self).left_arrow),
            final(self).right_arrow == reset_key(old(self).right_arrow),
            final(self).up_arrow == reset_key(old(self).up_arrow),
            final(self).down_arrow == reset_key(old(self).down_arrow),
            final(self).shift == reset_key(old(self).shift),
    {
        self.esc = Self::reset_key_state(self.esc);
        self.q = Self::reset_key_state(self.q);
        self.up_arrow = Self::reset_key_state(self.up_arrow);
        self.down_arrow = Self::reset_key_state(self.down_arrow);
        self.left_arrow = Self::reset_key_state(self.left_arrow);
        self.right_arrow = Self::reset_key_state(self.right_arrow);
        self.shift = Self::reset_key_state(self.shift);
    }

    pub fn reset_key_state(state: KeyState) -> (r: KeyState)
        ensures
            r == reset_key(state),
    {
        KeyState::new(false, state.is_pressed, state.is_pressed)
    }

    /// Records a key press, and shift if it was held with it.
    pub fn on_key_pressed(&mut self, key: Key, shift: bool)
        ensures
            final(self).esc == if key == Key::Escape { press_key(old(self).esc) } else { old(self).esc },
            final(self).q == if key == Key::Q { press_key(old(self).q) } else { old(self).q },
            final(self).up_arrow == if key == Key::Up { press_key(old(self).up_arrow) } else { old(self).up_arrow },
            final(self).down_arrow == if key == Key::Down { press_key(old(self).down_arrow) } else { old(self).down_arrow },
            final(self).left_arrow == if key == Key::Left { press_key(old(self).left_arrow) } else { old(self).left_arrow },
            final(self).right_arrow == if key == Key::Right { press_key(old(self).right_arrow) } else { old(self).right_arrow },
            final(self).shift == if shift { press_key(old(self).shift) } else { old(self).shift },
    {
        match key {
            Key::Escape => self.esc = Self::set_key_state(self.esc),
            Key::Q => self.q = Self::set_key_state(self.q),
            Key::Up => self.up_arrow = Self::set_key_state(self.up_arrow),
            Key::Down => self.down_arrow = Self::set_key_state(self.down_arrow),
            Key::Left => self.left_arrow = Self::set_key_state(self.left_arrow),
            Key::Right => self.right_arrow = Self::set_key_state(self.right_arrow),
            Key::Other => {},
        }
        if shift {
            self.shift = Self::set_key_state(self.shift);
        }
    }

    pub fn set_key_state(state: KeyState) -> (r: KeyState)
        ensures
            r == press_key(state),
    {
        KeyState::new(true, state.was_pressed, !state.was_pressed)
    }
}

impl KeyState {
    pub open spec fn default_spec() -> KeyState {
        KeyState { is_pressed: false, was_pressed: false, has_changed: false }
    }
}

/// What the keyboard asks for this frame.
#[derive(Clone, Copy, Debug)]
pub struct KeyboardStimuli {
    pub state: KeyboardState,
}

impl KeyboardStimuli {
    pub fn new(state: &KeyboardState) -> (r: KeyboardStimuli)
        ensures
            r.state == *state,
    {
        KeyboardStimuli { state: *state }
    }
}

impl Stimuli for KeyboardStimuli {}

impl QuitStimuli for KeyboardStimuli {
    /// Q or Escape quits.
    open spec fn quit_requested(&self) -> bool {
        self.state.q.is_pressed || self.state.esc.is_pressed
    }

    fn should_quit(&self) -> (r: bool) {
        self.state.q.is_pressed || self.state.esc.is_pressed
    }
}

impl CameraStimuli for KeyboardStimuli {
    open spec fn forward_requested(&self) -> bool {
        self.state.up_arrow.is_pressed
    }

    open spec fn backward_requested(&self) -> bool {
        self.state.down_arrow.is_pressed
    }

    open spec fn left_requested(&self) -> bool {
        self.state.left_arrow.is_pressed
    }

    open spec fn right_requested(&self) -> bool {
        self.state.right_arrow.is_pressed
    }

    open spec fn fast_requested(&self) -> bool {
        self.state.shift.is_pressed
    }

    fn should_move_forward(&self) -> (r: bool) {
        self.state.up_arrow.is_pressed
    }

    fn should_move_backward(&self) -> (r: bool) {
        self.state.down_arrow.is_pressed
    }

    fn should_turn_left(&self) -> (r: bool) {
        self.state.left_arrow.is_pressed
    }

    fn should_turn_right(&self) -> (r: bool) {
        self.state.right_arrow.is_pressed
    }

    fn is_fast(&self) -> (r: bool) {
        self.state.shift.is_pressed
    }
}

} // verus!
