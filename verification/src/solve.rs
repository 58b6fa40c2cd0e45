//! The solve event: a player completed a challenge at some instant.

use vstd::prelude::*;

verus! {

/// One "challenge solved" event as observed from the upstream platform.
///
/// The platform reports the instant as a calendar timestamp and the player as
/// a 128-bit opaque identifier; the library holds them as plain values
/// (milliseconds since the epoch, the identifier's 128 bits) and never
/// interprets either beyond equality.
pub struct Solve {
    /// When the platform recorded the solve, in milliseconds since the epoch.
    pub solved_at_ms: i64,
    /// The solving player's opaque 128-bit identifier.
    pub player_id: u128,
    /// The solved challenge's name; the key that lanes are built over.
    pub challenge_name: String,
}

/// The mathematical value of a [`Solve`].
pub ghost struct SolveView {
    pub solved_at_ms: i64,
    pub player_id: u128,
    pub challenge_name: Seq<char>,
}

impl View for Solve {
    type V = SolveView;

    open spec fn view(&self) -> SolveView {
        SolveView {
            solved_at_ms: self.solved_at_ms,
            player_id: self.player_id,
            challenge_name: self.challenge_name@,
        }
    }
}

impl Solve {
    /// A structural copy of the event; equal to the original in its view.
    pub fn duplicate(&self) -> (r: Solve)
        ensures
            r@ == self@,
    {
        Solve {
            solved_at_ms: self.solved_at_ms,
            player_id: self.player_id,
            challenge_name: String::from_str(self.challenge_name.as_str()),
        }
    }
}

} // verus!
