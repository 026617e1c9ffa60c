//! Strategies that predict a player's input before it has arrived.
use vstd::prelude::*;

use crate::frame::Frame;

verus! {

/// The input a strategy that repeats the last confirmed input gives: that
/// input, or (before any input was confirmed) a default value of `I`.
pub open spec fn repeats_last_confirmed<I: Default>(last_confirmed: Option<I>, r: I) -> bool {
    match last_confirmed {
        Some(v) => r == v,
        None => call_ensures(I::default, (), r),
    }
}

/// Predicts a player's input when the actual input has not arrived yet.
/// Every peer must predict the same input from the same arguments.
pub trait PredictionStrategy<I: Copy + Default>: Send + Sync {
    /// The predicted input of player `player_index` for `frame`, given the
    /// player's most recent confirmed input.
    fn predict(&self, frame: Frame, last_confirmed_input: Option<I>, player_index: usize) -> I;
}

/// Repeats the last confirmed input (the default input before any input was
/// confirmed).
#[derive(Debug, Default, Clone, Copy, PartialEq, Eq, Hash)]
pub struct RepeatLastConfirmed;

impl<I: Copy + Default> PredictionStrategy<I> for RepeatLastConfirmed {
    fn predict(&self, frame: Frame, last_confirmed_input: Option<I>, player_index: usize) -> (r: I)
        ensures
            repeats_last_confirmed(last_confirmed_input, r),
    {
        match last_confirmed_input {
            Some(v) => v,
            None => I::default(),
        }
    }
}

/// Always predicts the default (blank) input.
#[derive(Debug, Default, Clone, Copy, PartialEq, Eq, Hash)]
pub struct BlankPrediction;

impl<I: Copy + Default> PredictionStrategy<I> for BlankPrediction {
    fn predict(&self, frame: Frame, last_confirmed_input: Option<I>, player_index: usize) -> (r: I)
        ensures
            call_ensures(I::default, (), r),
    {
        I::default()
    }
}

} // verus!
