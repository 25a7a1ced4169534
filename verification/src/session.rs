//! The record that the coordinator keeps of one player.
use vstd::prelude::*;
use crate::ids::MessageId;
use crate::wordle::{Event, EventView};

verus! {

/// The number of guesses that a player has in one game.
pub const TRIES_LIMIT: u8 = 5;

/// How a game ended.
#[derive(Clone, Copy, Debug, PartialEq, Eq, Structural)]
pub enum GameStatus {
    Win,
    Lose,
}

/// Where a player stands.
#[derive(Debug, PartialEq, Eq)]
pub enum SessionStatus {
    /// No game was ever begun.
    Init,
    /// A game is on and the player may guess.
    WaitUserInput,
    /// The oracle was asked to begin a game and has not answered.
    WaitWordleStartReply,
    /// The oracle was asked to match a guess and has not answered.
    WaitWordleCheckWordReply,
    /// The oracle has answered, and the call that waits for the answer has
    /// not yet taken it.
    ReplyReceived(Event),
    /// The game is over.
    GameOver(GameStatus),
}

/// A [`SessionStatus`] as a mathematical value.
pub enum SessionStatusView {
    Init,
    WaitUserInput,
    WaitWordleStartReply,
    WaitWordleCheckWordReply,
    ReplyReceived(EventView),
    GameOver(GameStatus),
}

impl View for SessionStatus {
    type V = SessionStatusView;

    open spec fn view(&self) -> SessionStatusView {
        match *self {
            SessionStatus::Init => SessionStatusView::Init,
            SessionStatus::WaitUserInput => SessionStatusView::WaitUserInput,
            SessionStatus::WaitWordleStartReply => SessionStatusView::WaitWordleStartReply,
            SessionStatus::WaitWordleCheckWordReply => SessionStatusView::WaitWordleCheckWordReply,
            SessionStatus::ReplyReceived(event) => SessionStatusView::ReplyReceived(event@),
            SessionStatus::GameOver(outcome) => SessionStatusView::GameOver(outcome),
        }
    }
}

impl SessionStatusView {
    /// An answer of the oracle is awaited.
    pub open spec fn is_wait_reply(self) -> bool {
        self is WaitWordleStartReply || self is WaitWordleCheckWordReply
    }

    /// A game is on: the player may guess, or a guess is with the oracle.
    pub open spec fn is_in_game(self) -> bool {
        self is WaitUserInput || self is WaitWordleCheckWordReply
    }

    /// A new game may be asked for.
    pub open spec fn may_start(self) -> bool {
        self is Init || self is GameOver || self is WaitWordleStartReply
    }
}

impl Default for SessionStatus {
    /// Where a player stands who was never heard of.
    fn default() -> (r: SessionStatus)
        ensures
            r@ == SessionStatusView::Init,
    {
        SessionStatus::Init
    }
}

impl Clone for SessionStatus {
    fn clone(&self) -> (r: SessionStatus)
        ensures
            r@ == self@,
    {
        match self {
            SessionStatus::Init => SessionStatus::Init,
            SessionStatus::WaitUserInput => SessionStatus::WaitUserInput,
            SessionStatus::WaitWordleStartReply => SessionStatus::WaitWordleStartReply,
            SessionStatus::WaitWordleCheckWordReply => SessionStatus::WaitWordleCheckWordReply,
            SessionStatus::ReplyReceived(event) => SessionStatus::ReplyReceived(event.clone()),
            SessionStatus::GameOver(outcome) => SessionStatus::GameOver(*outcome),
        }
    }
}

/// The record of one player.
#[derive(Debug, PartialEq, Eq)]
pub struct SessionInfo {
    pub(crate) session_id: MessageId,
    pub(crate) original_msg_id: MessageId,
    pub(crate) send_to_wordle_msg_id: MessageId,
    pub(crate) tries: u8,
    pub(crate) session_status: SessionStatus,
}

/// A [`SessionInfo`] as a mathematical value.
pub struct SessionInfoView {
    /// The call that began the current game; a timeout names it.
    pub session_id: MessageId,
    /// The call that waits for the oracle and is to be woken.
    pub original_msg_id: MessageId,
    /// The request that is with the oracle.
    pub send_to_wordle_msg_id: MessageId,
    /// The guesses made in the current game.
    pub tries: nat,
    pub session_status: SessionStatusView,
}

impl SessionInfoView {
    /// The record of a player who was never heard of.
    pub open spec fn init() -> SessionInfoView {
        SessionInfoView {
            session_id: MessageId::zero_spec(),
            original_msg_id: MessageId::zero_spec(),
            send_to_wordle_msg_id: MessageId::zero_spec(),
            tries: 0,
            session_status: SessionStatusView::Init,
        }
    }

    /// The guesses stay within the limit, and reach it only in a game that
    /// is over.
    pub open spec fn wf(self) -> bool {
        &&& self.tries <= TRIES_LIMIT
        &&& !(self.session_status is GameOver) ==> self.tries < TRIES_LIMIT
    }
}

impl View for SessionInfo {
    type V = SessionInfoView;

    open(crate) spec fn view(&self) -> SessionInfoView {
        SessionInfoView {
            session_id: self.session_id,
            original_msg_id: self.original_msg_id,
            send_to_wordle_msg_id: self.send_to_wordle_msg_id,
            tries: self.tries as nat,
            session_status: self.session_status@,
        }
    }
}

impl SessionInfo {
    /// Every record that exists is well formed.
    #[verifier::type_invariant]
    pub open(crate) spec fn inv(self) -> bool {
        self@.wf()
    }

    /// A record with these contents, if they keep the guesses within the
    /// limit.
    pub fn try_new(
        session_id: MessageId,
        original_msg_id: MessageId,
        send_to_wordle_msg_id: MessageId,
        tries: u8,
        session_status: SessionStatus,
    ) -> (r: Option<SessionInfo>)
        ensures
            match r {
                Some(info) => info@ == (SessionInfoView {
                    session_id,
                    original_msg_id,
                    send_to_wordle_msg_id,
                    tries: tries as nat,
                    session_status: session_status@,
                }) && info@.wf(),
                None => !(SessionInfoView {
                    session_id,
                    original_msg_id,
                    send_to_wordle_msg_id,
                    tries: tries as nat,
                    session_status: session_status@,
                }).wf(),
            },
    {
        let over = match &session_status {
            SessionStatus::GameOver(_) => true,
            _ => false,
        };
        if tries < TRIES_LIMIT || (over && tries == TRIES_LIMIT) {
            Some(
                SessionInfo {
                    session_id,
                    original_msg_id,
                    send_to_wordle_msg_id,
                    tries,
                    session_status,
                },
            )
        } else {
            None
        }
    }

    /// This record at another point of the game: with `tries` guesses
    /// made, and standing at `session_status`.
    pub(crate) fn moved_to(&self, tries: u8, session_status: SessionStatus) -> (r: SessionInfo)
        requires
            (SessionInfoView { tries: tries as nat, session_status: session_status@, ..self@ }).wf(),
        ensures
            r@ == (SessionInfoView { tries: tries as nat, session_status: session_status@, ..self@ }),
    {
        SessionInfo {
            session_id: self.session_id,
            original_msg_id: self.original_msg_id,
            send_to_wordle_msg_id: self.send_to_wordle_msg_id,
            tries,
            session_status,
        }
    }

    /// The call that began the current game.
    pub fn session_id(&self) -> (r: MessageId)
        ensures
            r == self@.session_id,
    {
        self.session_id
    }

    /// The call that waits for the oracle.
    pub fn original_msg_id(&self) -> (r: MessageId)
        ensures
            r == self@.original_msg_id,
    {
        self.original_msg_id
    }

    /// The request that is with the oracle.
    pub fn send_to_wordle_msg_id(&self) -> (r: MessageId)
        ensures
            r == self@.send_to_wordle_msg_id,
    {
        self.send_to_wordle_msg_id
    }

    /// The guesses made in the current game: never more than the limit.
    pub fn tries(&self) -> (r: u8)
        ensures
            r == self@.tries,
            self@.wf(),
    {
        proof {
            use_type_invariant(self);
        }
        self.tries
    }

    /// Where the player stands.
    pub fn session_status(&self) -> (r: &SessionStatus)
        ensures
            r@ == self@.session_status,
    {
        &self.session_status
    }

    /// Whether an answer of the oracle is awaited.
    pub fn is_wait_reply_status(&self) -> (r: bool)
        ensures
            r == self@.session_status.is_wait_reply(),
    {
        match &self.session_status {
            SessionStatus::WaitWordleStartReply => true,
            SessionStatus::WaitWordleCheckWordReply => true,
            _ => false,
        }
    }
}

impl Default for SessionInfo {
    /// The record of a player who was never heard of.
    fn default() -> (r: SessionInfo)
        ensures
            r@ == SessionInfoView::init(),
    {
        SessionInfo {
            session_id: MessageId::zero(),
            original_msg_id: MessageId::zero(),
            send_to_wordle_msg_id: MessageId::zero(),
            tries: 0,
            session_status: SessionStatus::Init,
        }
    }
}

impl Clone for SessionInfo {
    fn clone(&self) -> (r: SessionInfo)
        ensures
            r@ == self@,
    {
        proof {
            use_type_invariant(self);
        }
        SessionInfo {
            session_id: self.session_id,
            original_msg_id: self.original_msg_id,
            send_to_wordle_msg_id: self.send_to_wordle_msg_id,
            tries: self.tries,
            session_status: self.session_status.clone(),
        }
    }
}

} // verus!
