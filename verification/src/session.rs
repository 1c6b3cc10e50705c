//! How a session is set up before play begins: which exchanges are run, in
//! which order, and what their results mean for the session.

use crate::conn::{Connection, ConnectionView};
use crate::exchange::Exchange;
use vstd::prelude::*;

verus! {

/// The poll timeout during play, in milliseconds. Set-up reads block without
/// a bound; reads during play are short, so that the play loop comes round
/// whether or not the client sends anything.
pub const POLL_MS: u64 = 100;

/// A stage of the set-up.
#[derive(Debug, Clone, Copy, PartialEq, Eq, Structural)]
pub enum Stage {
    /// Ask for the window size.
    Winsize,
    /// Ask for character-at-a-time input.
    Cbreak,
    /// Ask for no local echo.
    NoEcho,
}

/// What the session does next.
#[derive(Debug, Clone, Copy, PartialEq, Eq, Structural)]
pub enum Setup {
    /// Run the exchange of this stage.
    Run(Stage),
    /// The terminal is set up: start to play.
    Play,
    /// The terminal cannot be set up: tell the client and hang up.
    Refuse,
}

impl Stage {
    /// The exchange that a stage runs.
    pub open spec fn exchange_of(self) -> Exchange {
        match self {
            Stage::Winsize => Exchange::Winsize,
            Stage::Cbreak => Exchange::Cbreak,
            Stage::NoEcho => Exchange::NoEcho,
        }
    }

    /// What follows a stage whose exchange ended with `outcome`: its result,
    /// or `None` when the transport failed.
    ///
    /// The window size is welcome but not needed. Character-at-a-time input
    /// must have been negotiated without a failure of the transport,
    /// whatever came of it, and local echo must be off.
    pub open spec fn follow(self, outcome: Option<bool>) -> Setup {
        match self {
            Stage::Winsize => Setup::Run(Stage::Cbreak),
            Stage::Cbreak => if outcome is Some {
                Setup::Run(Stage::NoEcho)
            } else {
                Setup::Refuse
            },
            Stage::NoEcho => if outcome == Some(true) {
                Setup::Play
            } else {
                Setup::Refuse
            },
        }
    }

    /// The number of stages that follow a stage at most.
    pub open spec fn left(self) -> nat {
        match self {
            Stage::Winsize => 2,
            Stage::Cbreak => 1,
            Stage::NoEcho => 0,
        }
    }

    /// The stage that a set-up starts with.
    pub fn first() -> (stage: Stage)
        ensures
            stage == Stage::Winsize,
    {
        Stage::Winsize
    }

    /// The exchange that a stage runs.
    pub fn exchange(self) -> (exchange: Exchange)
        ensures
            exchange == self.exchange_of(),
    {
        match self {
            Stage::Winsize => Exchange::Winsize,
            Stage::Cbreak => Exchange::Cbreak,
            Stage::NoEcho => Exchange::NoEcho,
        }
    }

    /// What follows a stage whose exchange ended with `outcome`: its result,
    /// or `None` when the transport failed.
    pub fn next(self, outcome: Option<bool>) -> (setup: Setup)
        ensures
            setup == self.follow(outcome),
    {
        match self {
            Stage::Winsize => Setup::Run(Stage::Cbreak),
            Stage::Cbreak => match outcome {
                Some(_) => Setup::Run(Stage::NoEcho),
                None => Setup::Refuse,
            },
            Stage::NoEcho => match outcome {
                Some(true) => Setup::Play,
                _ => Setup::Refuse,
            },
        }
    }
}

/// What a client is told whose terminal cannot be set up.
pub open spec fn apology_text() -> Seq<char> {
    "Your telnet client cannot be put in no-echo single-character mode\n\n     as needed to play the game. Apologies.\n"@
}

/// What a client is told whose terminal cannot be set up.
pub fn apology() -> (text: &'static str)
    ensures
        text@ == apology_text(),
{
    "Your telnet client cannot be put in no-echo single-character mode\n\n     as needed to play the game. Apologies.\n"
}

impl Connection {
    /// Switches from set-up to play: from now on a read waits no longer
    /// than [`POLL_MS`].
    pub fn start_play(&mut self)
        ensures
            final(self)@ == (ConnectionView { timeout: Some(POLL_MS), ..old(self)@ }),
    {
        self.set_timeout(Some(POLL_MS));
    }
}

/// No capability is negotiated twice: every stage leads to a later stage
/// or ends the set-up, so a set-up runs three exchanges at most, the window
/// size first, then character-at-a-time input, then local echo.
pub proof fn setup_never_goes_back(stage: Stage, outcome: Option<bool>)
    ensures
        stage.follow(outcome) matches Setup::Run(next) ==> next.left() < stage.left(),
        Stage::Winsize.left() == 2,
        stage.follow(outcome) == Setup::Play ==> stage == Stage::NoEcho && outcome == Some(true),
{
}

} // verus!
