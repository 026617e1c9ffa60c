//! Small enums shared by sessions: desync detection, player types, session
//! state and input status.
use vstd::prelude::*;
use vstd::string::StringExecFns;

use crate::text::{decimal, push_decimal};

verus! {

/// Desync detection by comparing checksums between peers.
#[derive(Debug, Clone, Copy, PartialEq, Eq, Structural, Hash)]
pub enum DesyncDetection {
    /// Checksums are compared every `interval` frames.
    On {
        /// Interval rate for checksum comparison.
        interval: u32,
    },
    /// Desync detection is turned off.
    Off,
}

impl Default for DesyncDetection {
    /// Detection on, comparing every 60 frames.
    fn default() -> (r: Self)
        ensures
            r == (DesyncDetection::On { interval: 60 }),
    {
        DesyncDetection::On { interval: 60 }
    }
}

impl DesyncDetection {
    /// The displayed text: `On(interval=n)` or `Off`.
    pub open spec fn text(&self) -> Seq<char> {
        match *self {
            DesyncDetection::On { interval } => "On(interval="@ + decimal(interval as nat) + ")"@,
            DesyncDetection::Off => "Off"@,
        }
    }

    /// The displayed text as a string.
    pub fn to_string(&self) -> (r: String)
        ensures
            r@ == self.text(),
    {
        match *self {
            DesyncDetection::On { interval } => {
                let mut s = String::from_str("On(interval=");
                push_decimal(&mut s, interval as u64);
                s.append(")");
                s
            },
            DesyncDetection::Off => String::from_str("Off"),
        }
    }
}

/// The three kinds of participant: local players, remote players and
/// spectators; the last two carry an address.
#[derive(Debug, Default, Copy, Clone, Hash, PartialEq, Eq, PartialOrd, Ord)]
pub enum PlayerType<A> where A: Clone + PartialEq + Eq + PartialOrd + Ord + std::hash::Hash {
    /// This player plays on the local device.
    #[default]
    Local,
    /// This player plays on a remote device identified by the address.
    Remote(A),
    /// This player spectates on a remote device identified by the address.
    Spectator(A),
}

/// The state a session is in.
#[derive(Debug, Clone, Copy, PartialEq, Eq, Structural, Hash)]
pub enum SessionState {
    /// The session is connecting to the remote clients.
    Synchronizing,
    /// The session is synchronized and takes input.
    Running,
}

impl SessionState {
    /// The displayed text: the variant's name.
    pub open spec fn text(&self) -> Seq<char> {
        match *self {
            SessionState::Synchronizing => "Synchronizing"@,
            SessionState::Running => "Running"@,
        }
    }

    /// The displayed text as a string.
    pub fn to_string(&self) -> (r: String)
        ensures
            r@ == self.text(),
    {
        match *self {
            SessionState::Synchronizing => String::from_str("Synchronizing"),
            SessionState::Running => String::from_str("Running"),
        }
    }
}

/// Whether an input handed to the game was received, predicted, or belongs
/// to a disconnected player.
#[derive(Debug, Clone, Copy, PartialEq, Eq, Structural, Hash)]
pub enum InputStatus {
    /// The input is an actual received input.
    Confirmed,
    /// The input is predicted.
    Predicted,
    /// The player has disconnected at or prior to this frame.
    Disconnected,
}

impl InputStatus {
    /// The displayed text: the variant's name.
    pub open spec fn text(&self) -> Seq<char> {
        match *self {
            InputStatus::Confirmed => "Confirmed"@,
            InputStatus::Predicted => "Predicted"@,
            InputStatus::Disconnected => "Disconnected"@,
        }
    }

    /// The displayed text as a string.
    pub fn to_string(&self) -> (r: String)
        ensures
            r@ == self.text(),
    {
        match *self {
            InputStatus::Confirmed => String::from_str("Confirmed"),
            InputStatus::Predicted => String::from_str("Predicted"),
            InputStatus::Disconnected => String::from_str("Disconnected"),
        }
    }
}

} // verus!
