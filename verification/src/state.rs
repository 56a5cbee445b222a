//! The lifecycle phases of the game.

use vstd::prelude::*;

verus! {

/// The four lifecycle phases. `Init` is a one-shot bootstrap phase that the
/// first frame leaves unconditionally; `Playing` is the only phase with
/// physics effects; `Idle` and `Paused` show a modal prompt and wait for
/// the play key.
#[derive(Debug, Clone, Copy, PartialEq, Eq, Structural)]
pub enum State {
    Init,
    Idle,
    Playing,
    Paused,
}

/// The stable lowercase display name of each phase, as a sequence of
/// characters.
pub open spec fn state_name(s: State) -> Seq<char> {
    match s {
        State::Init => "init"@,
        State::Idle => "idle"@,
        State::Playing => "playing"@,
        State::Paused => "paused"@,
    }
}

impl State {
    /// The stable lowercase name of this phase, for HUD display.
    pub fn name(&self) -> (r: &'static str)
        ensures
            r@ == state_name(*self),
    {
        match self {
            State::Init => "init",
            State::Idle => "idle",
            State::Playing => "playing",
            State::Paused => "paused",
        }
    }
}

impl Default for State {
    /// A freshly constructed game starts in the bootstrap phase.
    fn default() -> (r: Self)
        ensures
            r == State::Init,
    {
        State::Init
    }
}

} // verus!
