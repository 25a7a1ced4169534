//! The coordinator as a state machine over mathematical values.
//!
//! A state holds the address of the oracle and one record for each known
//! player. Each function below is one way in which the outside world can
//! touch the coordinator; it gives the state afterwards and what the
//! coordinator says. The executable functions of the coordinator are
//! specified by these.
use vstd::prelude::*;
use crate::ids::{ActorId, MessageId};
use crate::messages::{
    CommandView,
    GameSessionActionView,
    GameSessionEventView,
    GameSessionInit,
    SessionError,
    TimeoutCallback,
    TIMEOUT_DELAY,
};
use crate::session::{GameStatus, SessionInfoView, SessionStatusView, TRIES_LIMIT};
use crate::wordle::{ActionView, EventView};

verus! {

/// The state of the coordinator.
pub struct GameSessionView {
    /// The address of the oracle.
    pub wordle_program_id: ActorId,
    /// The record of each known player.
    pub sessions: Map<ActorId, SessionInfoView>,
    /// The known players, in the order in which they first came.
    pub users: Seq<ActorId>,
}

/// One thing that can happen to the coordinator.
pub enum Input {
    /// The call `message_id` from `source` arrives at the coordinator
    /// `program_id`; `valid` tells whether a guess in it has the shape of
    /// one.
    Call {
        source: ActorId,
        message_id: MessageId,
        program_id: ActorId,
        action: GameSessionActionView,
        valid: bool,
    },
    /// `request` has gone to the oracle as the message `outbound_id`, on
    /// behalf of the call `message_id`; `valid` tells whether a guess in
    /// it has the shape of one.
    Forwarded { request: ActionView, valid: bool, message_id: MessageId, outbound_id: MessageId },
    /// The oracle answers the request `reply_to` with `event`.
    Reply { reply_to: MessageId, event: EventView },
}

impl Input {
    /// The one player whose record the input can touch.
    pub open spec fn player(self) -> ActorId {
        match self {
            Input::Call { source, action, .. } => match action {
                GameSessionActionView::CheckGameStatus { user, .. } => user,
                _ => source,
            },
            Input::Forwarded { request, .. } => request.user(),
            Input::Reply { event, .. } => event.user(),
        }
    }
}

/// What an outside observer is shown of the coordinator.
pub struct GameSessionStateView {
    pub wordle_program_id: ActorId,
    pub game_sessions: Seq<(ActorId, SessionInfoView)>,
}

impl GameSessionView {
    /// The state is one that the coordinator can be in: the known players
    /// are those with a record, none is listed twice, and every record is
    /// well formed.
    pub open spec fn wf(self) -> bool {
        &&& self.users.no_duplicates()
        &&& forall|user: ActorId| self.sessions.contains_key(user) <==> self.users.contains(user)
        &&& forall|user: ActorId| #[trigger]
            self.sessions.contains_key(user) ==> self.sessions[user].wf()
    }

    /// The record of `user`: the one on file, or that of a player never
    /// heard of.
    pub open spec fn record(self, user: ActorId) -> SessionInfoView {
        if self.sessions.contains_key(user) {
            self.sessions[user]
        } else {
            SessionInfoView::init()
        }
    }

    /// Where `user` stands.
    pub open spec fn status(self, user: ActorId) -> SessionStatusView {
        self.record(user).session_status
    }

    /// The state in which `info` is the record of `user`. A player who had
    /// no record becomes the last of the known players.
    pub open spec fn put(self, user: ActorId, info: SessionInfoView) -> GameSessionView {
        GameSessionView {
            wordle_program_id: self.wordle_program_id,
            sessions: self.sessions.insert(user, info),
            users: if self.sessions.contains_key(user) {
                self.users
            } else {
                self.users.push(user)
            },
        }
    }

    /// The coordinator as it is made: no player is known. An oracle at the
    /// zero address is refused.
    pub open spec fn init(config: GameSessionInit) -> Option<GameSessionView> {
        if config.is_valid_spec() {
            Some(
                GameSessionView {
                    wordle_program_id: config.wordle_program_id,
                    sessions: Map::empty(),
                    users: Seq::empty(),
                },
            )
        } else {
            None
        }
    }

    /// `user` asks for a new game in the call `message_id`.
    ///
    /// If an answer of the oracle lies ready, the player is told of it and
    /// may guess from now on. If a game is on, the call is refused.
    /// Otherwise the oracle has to be asked, and a timeout arranged that
    /// names this call; nothing is written down before the request has
    /// gone out.
    pub open spec fn start_game(self, user: ActorId, message_id: MessageId) -> (
        GameSessionView,
        Result<CommandView, SessionError>,
    ) {
        let info = self.record(user);
        match info.session_status {
            SessionStatusView::ReplyReceived(event) => (
                self.put(
                    user,
                    SessionInfoView { session_status: SessionStatusView::WaitUserInput, ..info },
                ),
                Ok(CommandView::Reply(GameSessionEventView::from_wordle(event))),
            ),
            SessionStatusView::WaitUserInput | SessionStatusView::WaitWordleCheckWordReply => (
                self,
                Err(SessionError::AlreadyInGame),
            ),
            SessionStatusView::Init
            | SessionStatusView::GameOver(_)
            | SessionStatusView::WaitWordleStartReply => (
                self,
                Ok(
                    CommandView::Forward {
                        request: ActionView::StartGame { user },
                        timeout: Some(
                            TimeoutCallback { user, session_id: message_id, delay: TIMEOUT_DELAY },
                        ),
                    },
                ),
            ),
        }
    }

    /// `user` guesses `word`; `valid` tells whether the word has the shape
    /// of a guess.
    ///
    /// If an answer of the oracle lies ready, the round is over: it counts
    /// as one try, a found word wins, the last try without a find loses,
    /// and otherwise the player is told the match and may guess again. If
    /// a game is on, a valid word has to go to the oracle and any other is
    /// refused. If no game is on, the call is refused.
    pub open spec fn check_word(self, user: ActorId, word: Seq<char>, valid: bool) -> (
        GameSessionView,
        Result<CommandView, SessionError>,
    ) {
        let info = self.record(user);
        match info.session_status {
            SessionStatusView::ReplyReceived(event) => {
                let tries = info.tries + 1;
                if event.has_guessed() {
                    (
                        self.put(
                            user,
                            SessionInfoView {
                                tries,
                                session_status: SessionStatusView::GameOver(GameStatus::Win),
                                ..info
                            },
                        ),
                        Ok(CommandView::Reply(GameSessionEventView::GameOver(GameStatus::Win))),
                    )
                } else if tries == TRIES_LIMIT {
                    (
                        self.put(
                            user,
                            SessionInfoView {
                                tries,
                                session_status: SessionStatusView::GameOver(GameStatus::Lose),
                                ..info
                            },
                        ),
                        Ok(CommandView::Reply(GameSessionEventView::GameOver(GameStatus::Lose))),
                    )
                } else {
                    (
                        self.put(
                            user,
                            SessionInfoView {
                                tries,
                                session_status: SessionStatusView::WaitUserInput,
                                ..info
                            },
                        ),
                        Ok(CommandView::Reply(GameSessionEventView::from_wordle(event))),
                    )
                }
            },
            SessionStatusView::WaitUserInput | SessionStatusView::WaitWordleCheckWordReply => {
                if valid {
                    (
                        self,
                        Ok(
                            CommandView::Forward {
                                request: ActionView::CheckWord { user, word },
                                timeout: None,
                            },
                        ),
                    )
                } else {
                    (self, Err(SessionError::InvalidWord))
                }
            },
            SessionStatusView::Init
            | SessionStatusView::WaitWordleStartReply
            | SessionStatusView::GameOver(_) => (self, Err(SessionError::NotInGame)),
        }
    }

    /// A timeout is honoured: it comes from the coordinator itself, names
    /// the call that began the current game of `user`, and that game is
    /// not over.
    pub open spec fn timeout_applies(
        self,
        source: ActorId,
        program_id: ActorId,
        user: ActorId,
        session_id: MessageId,
    ) -> bool {
        &&& source == program_id
        &&& self.sessions.contains_key(user)
        &&& self.sessions[user].session_id == session_id
        &&& !(self.sessions[user].session_status is GameOver)
    }

    /// `source` says that the game which the call `session_id` began for
    /// `user` has run out of time; the coordinator is `program_id`.
    ///
    /// A timeout that is honoured ends the game as lost, and the player is
    /// to be told. Any other changes nothing.
    pub open spec fn check_game_status(
        self,
        source: ActorId,
        program_id: ActorId,
        user: ActorId,
        session_id: MessageId,
    ) -> (GameSessionView, CommandView) {
        if self.timeout_applies(source, program_id, user, session_id) {
            (
                self.put(
                    user,
                    SessionInfoView {
                        session_status: SessionStatusView::GameOver(GameStatus::Lose),
                        ..self.sessions[user]
                    },
                ),
                CommandView::Notify {
                    user,
                    event: GameSessionEventView::GameOver(GameStatus::Lose),
                },
            )
        } else {
            (self, CommandView::Nothing)
        }
    }

    /// The call `message_id` from `source` arrives at the coordinator
    /// `program_id`; `valid` tells whether a guess in it has the shape of
    /// one.
    pub open spec fn handle(
        self,
        source: ActorId,
        message_id: MessageId,
        program_id: ActorId,
        action: GameSessionActionView,
        valid: bool,
    ) -> (GameSessionView, Result<CommandView, SessionError>) {
        match action {
            GameSessionActionView::StartGame => self.start_game(source, message_id),
            GameSessionActionView::CheckWord { word } => self.check_word(source, word, valid),
            GameSessionActionView::CheckGameStatus { user, session_id } => {
                let (next, command) = self.check_game_status(source, program_id, user, session_id);
                (next, Ok(command))
            },
        }
    }

    /// `request` may go to the oracle now: its player stands where the
    /// request is due, and a guess in it is valid.
    pub open spec fn is_due(self, request: ActionView, valid: bool) -> bool {
        match request {
            ActionView::StartGame { user } => self.status(user).may_start(),
            ActionView::CheckWord { user, .. } => self.status(user).is_in_game() && valid,
        }
    }

    /// `request` has gone to the oracle as the message `outbound_id`, on
    /// behalf of the call `message_id`, which is now parked.
    ///
    /// A request that is due is written down, and the player waits for
    /// the oracle: a start begins a new game with no tries, under the name
    /// of the parked call; a guess keeps game and tries. A request that is
    /// not due changes nothing. The second component tells which it was.
    pub open spec fn forwarded(
        self,
        request: ActionView,
        valid: bool,
        message_id: MessageId,
        outbound_id: MessageId,
    ) -> (GameSessionView, bool) {
        if !self.is_due(request, valid) {
            (self, false)
        } else {
            match request {
                ActionView::StartGame { user } => (
                    self.put(
                        user,
                        SessionInfoView {
                            session_id: message_id,
                            original_msg_id: message_id,
                            send_to_wordle_msg_id: outbound_id,
                            tries: 0,
                            session_status: SessionStatusView::WaitWordleStartReply,
                        },
                    ),
                    true,
                ),
                ActionView::CheckWord { user, .. } => (
                    self.put(
                        user,
                        SessionInfoView {
                            original_msg_id: message_id,
                            send_to_wordle_msg_id: outbound_id,
                            session_status: SessionStatusView::WaitWordleCheckWordReply,
                            ..self.record(user)
                        },
                    ),
                    true,
                ),
            }
        }
    }

    /// An answer is the awaited one: its player waits for the oracle, and
    /// it answers the request that was written down for that player.
    pub open spec fn reply_is_awaited(self, reply_to: MessageId, event: EventView) -> bool {
        &&& self.sessions.contains_key(event.user())
        &&& self.sessions[event.user()].send_to_wordle_msg_id == reply_to
        &&& self.sessions[event.user()].session_status.is_wait_reply()
    }

    /// The oracle answers the request `reply_to` with `event`.
    ///
    /// The awaited answer is kept for the parked call, which is to be
    /// woken: the second component names it. Any other answer changes
    /// nothing and wakes nobody.
    pub open spec fn handle_reply(self, reply_to: MessageId, event: EventView) -> (
        GameSessionView,
        Option<MessageId>,
    ) {
        if self.reply_is_awaited(reply_to, event) {
            let info = self.sessions[event.user()];
            (
                self.put(
                    event.user(),
                    SessionInfoView {
                        session_status: SessionStatusView::ReplyReceived(event),
                        ..info
                    },
                ),
                Some(info.original_msg_id),
            )
        } else {
            (self, None)
        }
    }

    /// The snapshot of the state: the oracle, and every known player with
    /// the player's record, in the order in which the players first came.
    pub open spec fn state(self) -> GameSessionStateView {
        GameSessionStateView {
            wordle_program_id: self.wordle_program_id,
            game_sessions: Seq::new(
                self.users.len(),
                |i: int| (self.users[i], self.sessions[self.users[i]]),
            ),
        }
    }

    /// The state after `input`.
    pub open spec fn step(self, input: Input) -> GameSessionView {
        match input {
            Input::Call { source, message_id, program_id, action, valid } => self.handle(
                source,
                message_id,
                program_id,
                action,
                valid,
            ).0,
            Input::Forwarded { request, valid, message_id, outbound_id } => self.forwarded(
                request,
                valid,
                message_id,
                outbound_id,
            ).0,
            Input::Reply { reply_to, event } => self.handle_reply(reply_to, event).0,
        }
    }
}

} // verus!
