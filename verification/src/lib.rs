//! A coordinator for sessions of a word-guessing game that a second actor,
//! the oracle, hosts.
//!
//! Each player has one session. A player asks for a game and then guesses
//! words; the coordinator passes each turn on to the oracle, parks the
//! player's call until the oracle has answered or the game has run out of
//! time, and then tells the player how the turn went.
//!
//! The coordinator is a state machine and does no sending of its own: the
//! host that runs it delivers what arrives to the entry points [`init`],
//! [`handle`], [`forwarded`], [`handle_reply`] and [`state`], and carries
//! out what they answer.
pub mod coordinator;
pub mod ids;
pub mod laws;
pub mod messages;
pub mod model;
pub mod session;
pub mod store;
pub mod word;
pub mod wordle;

pub use coordinator::{forwarded, handle, handle_reply, init, state, GameSession, GameSessionState};
pub use ids::{ActorId, MessageId};
pub use messages::{
    Command,
    ErrorKind,
    GameSessionAction,
    GameSessionEvent,
    GameSessionInit,
    SessionError,
    TimeoutCallback,
    TIMEOUT_DELAY,
};
pub use session::{GameStatus, SessionInfo, SessionStatus, TRIES_LIMIT};
pub use store::SessionStore;
