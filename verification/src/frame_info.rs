//! Saved game states and per-frame player inputs.
use vstd::prelude::*;

use crate::frame::Frame;
use vstd::std_specs::cmp::PartialEqSpec;

verus! {

/// The game state of one frame: its frame number, the state itself and an
/// optional checksum.
#[derive(Debug, Clone)]
pub struct GameState<S> {
    /// The frame to which this info belongs to.
    pub frame: Frame,
    /// The game state.
    pub data: Option<S>,
    /// The checksum of the gamestate.
    pub checksum: Option<u128>,
}

impl<S> Default for GameState<S> {
    /// An empty state at the null frame.
    fn default() -> (r: Self)
        ensures
            r.frame@ == crate::frame::NULL_FRAME,
            r.data is None,
            r.checksum is None,
    {
        GameState { frame: Frame::null(), data: None, checksum: None }
    }
}

/// The input of one player for one frame.
#[derive(Debug, Copy, Clone, PartialEq, Eq)]
pub struct PlayerInput<I> where I: Copy + Clone + PartialEq {
    /// The frame to which this input belongs; the null frame marks no frame.
    pub frame: Frame,
    /// The input given by the user.
    pub input: I,
}

/// `a == b` for inputs, where `I`'s `==` is the equality of values.
pub open spec fn same_input<I: PartialEq>(a: I, b: I) -> bool {
    a.eq_spec(&b)
}

impl<I: Copy + Clone + PartialEq + Default> PlayerInput<I> {
    /// Pairs `input` with `frame`.
    pub fn new(frame: Frame, input: I) -> (r: Self)
        ensures
            r.frame == frame,
            r.input == input,
    {
        PlayerInput { frame, input }
    }

    /// The default input of `I` at `frame`.
    pub fn blank_input(frame: Frame) -> (r: Self)
        ensures
            r.frame == frame,
            call_ensures(I::default, (), r.input),
    {
        PlayerInput { frame, input: I::default() }
    }

    /// Whether the inputs are equal, and (unless `input_only`) the frames too.
    pub fn equal(&self, other: &Self, input_only: bool) -> (r: bool)
        ensures
            I::obeys_eq_spec() ==> r == ((input_only || self.frame == other.frame) && same_input(
                self.input,
                other.input,
            )),
    {
        (input_only || self.frame == other.frame) && self.input == other.input
    }
}

} // verus!
