//! What the coordinator is told, what it answers, and what it asks its
//! host to do.
use vstd::prelude::*;
use crate::ids::{ActorId, MessageId};
use crate::session::GameStatus;
use crate::word::valid_word;
use crate::wordle::{Action, ActionView, Event, EventView};

verus! {

/// The delay, in blocks, after which an unfinished game is lost.
pub const TIMEOUT_DELAY: u32 = 200;

/// What the coordinator is made from.
#[derive(Clone, Copy, Debug, PartialEq, Eq)]
pub struct GameSessionInit {
    /// The address of the oracle.
    pub wordle_program_id: ActorId,
}

impl GameSessionInit {
    /// The address of the oracle is that of an actor that can exist.
    pub open spec fn is_valid_spec(&self) -> bool {
        self.wordle_program_id != ActorId::zero_spec()
    }

    /// Whether the address of the oracle is that of an actor that can
    /// exist.
    #[verifier::when_used_as_spec(is_valid_spec)]
    pub fn is_valid(&self) -> (r: bool)
        ensures
            r == self.is_valid_spec(),
    {
        !self.wordle_program_id.is_zero()
    }
}

/// A call to the coordinator.
#[derive(Debug, PartialEq, Eq)]
pub enum GameSessionAction {
    /// The caller wants a new game.
    StartGame,
    /// The caller guesses `word`.
    CheckWord { word: String },
    /// The game that the call `session_id` began for `user` has run out of
    /// time. Only the coordinator itself may say so.
    CheckGameStatus { user: ActorId, session_id: MessageId },
}

/// A [`GameSessionAction`] as a mathematical value.
pub enum GameSessionActionView {
    StartGame,
    CheckWord { word: Seq<char> },
    CheckGameStatus { user: ActorId, session_id: MessageId },
}

impl View for GameSessionAction {
    type V = GameSessionActionView;

    open spec fn view(&self) -> GameSessionActionView {
        match *self {
            GameSessionAction::StartGame => GameSessionActionView::StartGame,
            GameSessionAction::CheckWord { word } => GameSessionActionView::CheckWord {
                word: word@,
            },
            GameSessionAction::CheckGameStatus { user, session_id } => {
                GameSessionActionView::CheckGameStatus { user, session_id }
            },
        }
    }
}

impl GameSessionActionView {
    /// The call carries a guess, and the guess is a valid word.
    pub open spec fn has_valid_word(self) -> bool {
        match self {
            GameSessionActionView::CheckWord { word } => valid_word(word),
            _ => false,
        }
    }
}

impl Clone for GameSessionAction {
    fn clone(&self) -> (r: GameSessionAction)
        ensures
            r@ == self@,
    {
        match self {
            GameSessionAction::StartGame => GameSessionAction::StartGame,
            GameSessionAction::CheckWord { word } => GameSessionAction::CheckWord {
                word: word.clone(),
            },
            GameSessionAction::CheckGameStatus { user, session_id } => {
                GameSessionAction::CheckGameStatus { user: *user, session_id: *session_id }
            },
        }
    }
}

/// What a player is told.
#[derive(Debug, PartialEq, Eq)]
pub enum GameSessionEvent {
    /// The game has begun.
    StartSuccess,
    /// The guess was matched and the game goes on.
    CheckWordResult { correct_positions: Vec<u8>, contained_in_word: Vec<u8> },
    /// The game is over.
    GameOver(GameStatus),
}

/// A [`GameSessionEvent`] as a mathematical value.
pub enum GameSessionEventView {
    StartSuccess,
    CheckWordResult { correct_positions: Seq<u8>, contained_in_word: Seq<u8> },
    GameOver(GameStatus),
}

impl View for GameSessionEvent {
    type V = GameSessionEventView;

    open spec fn view(&self) -> GameSessionEventView {
        match *self {
            GameSessionEvent::StartSuccess => GameSessionEventView::StartSuccess,
            GameSessionEvent::CheckWordResult { correct_positions, contained_in_word } => {
                GameSessionEventView::CheckWordResult {
                    correct_positions: correct_positions@,
                    contained_in_word: contained_in_word@,
                }
            },
            GameSessionEvent::GameOver(outcome) => GameSessionEventView::GameOver(outcome),
        }
    }
}

impl GameSessionEventView {
    /// An answer of the oracle as the player is told it: the same match
    /// data, without the player's name.
    pub open spec fn from_wordle(event: EventView) -> GameSessionEventView {
        match event {
            EventView::GameStarted { .. } => GameSessionEventView::StartSuccess,
            EventView::WordChecked { correct_positions, contained_in_word, .. } => {
                GameSessionEventView::CheckWordResult { correct_positions, contained_in_word }
            },
        }
    }
}

impl GameSessionEvent {
    /// An answer of the oracle as the player is told it.
    pub fn from_wordle(event: &Event) -> (r: GameSessionEvent)
        ensures
            r@ == GameSessionEventView::from_wordle(event@),
    {
        match event {
            Event::GameStarted { .. } => GameSessionEvent::StartSuccess,
            Event::WordChecked { correct_positions, contained_in_word, .. } => {
                let correct = correct_positions.clone();
                let contained = contained_in_word.clone();
                assert(correct@ =~= correct_positions@);
                assert(contained@ =~= contained_in_word@);
                GameSessionEvent::CheckWordResult {
                    correct_positions: correct,
                    contained_in_word: contained,
                }
            },
        }
    }
}

impl Clone for GameSessionEvent {
    fn clone(&self) -> (r: GameSessionEvent)
        ensures
            r@ == self@,
    {
        match self {
            GameSessionEvent::StartSuccess => GameSessionEvent::StartSuccess,
            GameSessionEvent::CheckWordResult { correct_positions, contained_in_word } => {
                let correct = correct_positions.clone();
                let contained = contained_in_word.clone();
                assert(correct@ =~= correct_positions@);
                assert(contained@ =~= contained_in_word@);
                GameSessionEvent::CheckWordResult {
                    correct_positions: correct,
                    contained_in_word: contained,
                }
            },
            GameSessionEvent::GameOver(outcome) => GameSessionEvent::GameOver(*outcome),
        }
    }
}

/// The two ways in which a call can be wrong.
#[derive(Clone, Copy, Debug, PartialEq, Eq, Structural)]
pub enum ErrorKind {
    /// The call is malformed.
    InvalidInput,
    /// The call is not allowed where the caller stands.
    OutOfTurn,
}

/// Why a call was refused. A refused call changes nothing.
#[derive(Clone, Copy, Debug, PartialEq, Eq, Structural)]
pub enum SessionError {
    /// A new game was asked for while one is on.
    AlreadyInGame,
    /// A guess was made while no game is on.
    NotInGame,
    /// The guess is not a word of five lowercase characters.
    InvalidWord,
}

impl SessionError {
    /// Which of the two ways of being wrong this is.
    pub open spec fn kind_spec(&self) -> ErrorKind {
        match *self {
            SessionError::AlreadyInGame => ErrorKind::OutOfTurn,
            SessionError::NotInGame => ErrorKind::OutOfTurn,
            SessionError::InvalidWord => ErrorKind::InvalidInput,
        }
    }

    /// Which of the two ways of being wrong this is.
    #[verifier::when_used_as_spec(kind_spec)]
    pub fn kind(&self) -> (r: ErrorKind)
        ensures
            r == self.kind_spec(),
    {
        match self {
            SessionError::AlreadyInGame => ErrorKind::OutOfTurn,
            SessionError::NotInGame => ErrorKind::OutOfTurn,
            SessionError::InvalidWord => ErrorKind::InvalidInput,
        }
    }

    /// The words in which the caller is told of the refusal.
    pub open spec fn message_spec(self) -> Seq<char> {
        match self {
            SessionError::AlreadyInGame => "The user is in the game"@,
            SessionError::NotInGame => "The user is not in the game"@,
            SessionError::InvalidWord => "Invalid word"@,
        }
    }

    /// The words in which the caller is told of the refusal.
    pub fn message(&self) -> (r: &'static str)
        ensures
            r@ == self.message_spec(),
    {
        match self {
            SessionError::AlreadyInGame => "The user is in the game",
            SessionError::NotInGame => "The user is not in the game",
            SessionError::InvalidWord => "Invalid word",
        }
    }
}

/// A call that the coordinator wants to receive from itself later, to end
/// a game that has not ended by then.
#[derive(Clone, Copy, Debug, PartialEq, Eq)]
pub struct TimeoutCallback {
    /// The player whose game it is.
    pub user: ActorId,
    /// The call that began the game.
    pub session_id: MessageId,
    /// After how many blocks the call is due.
    pub delay: u32,
}

impl TimeoutCallback {
    /// The call to deliver when the delay has passed.
    pub fn action(&self) -> (r: GameSessionAction)
        ensures
            r@ == (GameSessionActionView::CheckGameStatus {
                user: self.user,
                session_id: self.session_id,
            }),
    {
        GameSessionAction::CheckGameStatus { user: self.user, session_id: self.session_id }
    }
}

/// What the host is to do after the coordinator has seen a call.
#[derive(Debug, PartialEq, Eq)]
pub enum Command {
    /// Answer the caller with this.
    Reply(GameSessionEvent),
    /// Send `request` to the oracle and tell the coordinator under which
    /// identity it went out; then, if `timeout` is given, arrange for that
    /// call; then park the caller until it is woken.
    Forward { request: Action, timeout: Option<TimeoutCallback> },
    /// Send `event` to `user`, who is not the caller.
    Notify { user: ActorId, event: GameSessionEvent },
    /// Do nothing.
    Nothing,
}

/// A [`Command`] as a mathematical value.
pub enum CommandView {
    Reply(GameSessionEventView),
    Forward { request: ActionView, timeout: Option<TimeoutCallback> },
    Notify { user: ActorId, event: GameSessionEventView },
    Nothing,
}

impl View for Command {
    type V = CommandView;

    open spec fn view(&self) -> CommandView {
        match *self {
            Command::Reply(event) => CommandView::Reply(event@),
            Command::Forward { request, timeout } => CommandView::Forward {
                request: request@,
                timeout,
            },
            Command::Notify { user, event } => CommandView::Notify { user, event: event@ },
            Command::Nothing => CommandView::Nothing,
        }
    }
}

/// The outcome of a call as a mathematical value.
pub open spec fn outcome_view(outcome: Result<Command, SessionError>) -> Result<
    CommandView,
    SessionError,
> {
    match outcome {
        Ok(command) => Ok(command@),
        Err(error) => Err(error),
    }
}

} // verus!
