//! Capabilities the host provides around the core: input, frame pumping.

use vstd::prelude::*;

use crate::canvas::Canvas;
use crate::result::Error;

verus! {

/// A source of input, polled once per frame.
pub trait Stimuli {}

pub trait QuitStimuli {
    /// Whether the input asks to quit.  An input source written outside
    /// verified code has no model of its own.
    closed spec fn quit_requested(&self) -> bool {
        false
    }

    fn should_quit(&self) -> (r: bool)
        ensures
            r == self.quit_requested(),
    ;
}

/// The movement and turning requests that steer the camera.  Each query has
/// a model; an input source written outside verified code has none of its own.
pub trait CameraStimuli {
    closed spec fn forward_requested(&self) -> bool {
        false
    }

    closed spec fn backward_requested(&self) -> bool {
        false
    }

    closed spec fn left_requested(&self) -> bool {
        false
    }

    closed spec fn right_requested(&self) -> bool {
        false
    }

    closed spec fn fast_requested(&self) -> bool {
        false
    }

    fn should_move_forward(&self) -> (r: bool)
        ensures
            r == self.forward_requested(),
    ;

    fn should_move_backward(&self) -> (r: bool)
        ensures
            r == self.backward_requested(),
    ;

    fn should_turn_left(&self) -> (r: bool)
        ensures
            r == self.left_requested(),
    ;

    fn should_turn_right(&self) -> (r: bool)
        ensures
            r == self.right_requested(),
    ;

    fn is_fast(&self) -> (r: bool)
        ensures
            r == self.fast_requested(),
    ;
}

/// Something that reacts to a frame's input.
pub trait OnStimuli<T: Stimuli> {
    spec fn ready(&self) -> bool;

    fn on_stimuli(&mut self, stimuli: &T) -> (r: Result<(), Error>)
        requires
            old(self).ready(),
        ensures
            final(self).ready(),
    ;
}

/// Something that draws whole frames onto a canvas.
pub trait FrameRenderer<C: Canvas> {
    spec fn ready_to_render(&self) -> bool;

    fn render_frame_onto(&mut self, canvas: &mut C) -> (r: Result<(), Error>)
        requires
            old(self).ready_to_render(),
        ensures
            final(self).ready_to_render(),
    ;
}

/// Work the host does between frames (presenting the frame, reading keys).
pub trait Pollable {
    fn poll(&mut self) -> Result<(), Error>;
}

} // verus!
