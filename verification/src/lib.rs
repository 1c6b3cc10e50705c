//! One Way Out: the verified core of a multiplayer telnet game.
//!
//! The crate holds the connection layer (option negotiation, the lookahead
//! slot and the read path, all free of I/O) and the shared game world
//! (playfield, monsters, player avatars, the turn rules and the rounds of a
//! player's play loop). A driver owns the transport and the clock; it sends
//! what the connection asks for, feeds it the events that arrive, and hands
//! the lines it reads to the game.

pub mod conn;
pub mod event;
pub mod exchange;
pub mod field;
pub mod game;
pub mod mob;
pub mod play;
pub mod player;
pub mod poll;
pub mod random;
pub mod session;
pub mod text;
pub mod wire;

pub use conn::{Capabilities, Connection, Fetch, Inbound, ReadError, Step};
pub use event::{Action, Command, Event, TelnetOption};
pub use exchange::Exchange;
pub use field::{Field, Loc, Object};
pub use game::Game;
pub use mob::Mob;
pub use play::{Frame, Notice, Order, Reaction};
pub use player::{offset, Player};
pub use random::random;
pub use session::{Setup, Stage};

use vstd::prelude::*;

verus! {

/// The "health" and other player characteristics are common across all
/// players in the instance; the individual players are proxy avatars that
/// have only their own position and actions. This is the maximum health
/// that the player can have.
pub const MAX_HEALTH: u64 = 100;

/// The game is won by traversing this distance (in tiles) to the exit door.
pub const DOOR_POSN: usize = 500;

} // verus!
