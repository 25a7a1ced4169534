//! The coordinator: one value that holds every player's record, and the
//! entry points through which the host drives it.
//!
//! The coordinator never sends anything itself. Each entry point looks at
//! the state, changes it, and answers with what the host is to do: reply
//! to the caller, forward a request to the oracle, notify a player, wake a
//! parked call. The host does it and comes back with what happened.
use vstd::prelude::*;
use crate::ids::{ActorId, MessageId};
use crate::messages::{
    outcome_view,
    Command,
    GameSessionAction,
    GameSessionEvent,
    GameSessionInit,
    SessionError,
    TimeoutCallback,
    TIMEOUT_DELAY,
};
use crate::model::{GameSessionStateView, GameSessionView};
use crate::session::{GameStatus, SessionInfo, SessionStatus, TRIES_LIMIT};
use crate::store::SessionStore;
use crate::word::is_valid_word;
use crate::wordle::{Action, Event};

verus! {

/// The coordinator's state.
pub struct GameSession {
    wordle_program_id: ActorId,
    sessions: SessionStore,
}

impl View for GameSession {
    type V = GameSessionView;

    closed spec fn view(&self) -> GameSessionView {
        GameSessionView {
            wordle_program_id: self.wordle_program_id,
            sessions: self.sessions@,
            users: self.sessions.users(),
        }
    }
}

impl GameSession {
    /// The coordinator is always in a state that it can be in.
    #[verifier::type_invariant]
    closed spec fn inv(self) -> bool {
        self@.wf()
    }

    /// The address of the oracle.
    pub fn wordle_program_id(&self) -> (r: ActorId)
        ensures
            r == self@.wordle_program_id,
    {
        self.wordle_program_id
    }

    /// The record of `user`, if the player is known. The state is always
    /// one that the coordinator can be in.
    pub fn session(&self, user: &ActorId) -> (r: Option<&SessionInfo>)
        ensures
            self@.wf(),
            match r {
                Some(info) => self@.sessions.contains_key(*user) && info@ == self@.sessions[*user],
                None => !self@.sessions.contains_key(*user),
            },
    {
        proof {
            use_type_invariant(self);
        }
        self.sessions.get(user)
    }

    /// Makes `info` the record of `user`.
    fn put(&mut self, user: ActorId, info: SessionInfo)
        ensures
            final(self)@ == old(self)@.put(user, info@),
    {
        proof {
            use_type_invariant(&*self);
            use_type_invariant(&info);
        }
        let mut taken = GameSession {
            wordle_program_id: self.wordle_program_id,
            sessions: SessionStore::new(),
        };
        core::mem::swap(self, &mut taken);
        let GameSession { wordle_program_id, sessions: mut sessions } = taken;
        let slot = sessions.get_or_create(user);
        *slot = info;
        proof {
            sessions.lemma_users_are_domain();
            assert forall|other: ActorId| #[trigger]
                sessions@.contains_key(other) implies sessions@[other].wf() by {
                if other != user {
                    assert(old(self)@.sessions.contains_key(other));
                }
            }
        }
        *self = GameSession { wordle_program_id, sessions };
    }

    /// `user` asks for a new game in the call `message_id`.
    pub fn start_game(&mut self, user: ActorId, message_id: MessageId) -> (r: Result<
        Command,
        SessionError,
    >)
        ensures
            final(self)@ == old(self)@.start_game(user, message_id).0,
            outcome_view(r) == old(self)@.start_game(user, message_id).1,
            final(self)@.wf(),
    {
        proof {
            use_type_invariant(&*self);
        }
        let request = Command::Forward {
            request: Action::StartGame { user },
            timeout: Some(TimeoutCallback { user, session_id: message_id, delay: TIMEOUT_DELAY }),
        };
        let (reply, next) = match self.sessions.get(&user) {
            None => {
                return Ok(request);
            },
            Some(info) => {
                proof {
                    use_type_invariant(info);
                }
                match &info.session_status {
                    SessionStatus::ReplyReceived(event) => (
                        GameSessionEvent::from_wordle(event),
                        info.moved_to(info.tries, SessionStatus::WaitUserInput),
                    ),
                    SessionStatus::WaitUserInput | SessionStatus::WaitWordleCheckWordReply => {
                        return Err(SessionError::AlreadyInGame);
                    },
                    SessionStatus::Init
                    | SessionStatus::GameOver(_)
                    | SessionStatus::WaitWordleStartReply => {
                        return Ok(request);
                    },
                }
            },
        };
        self.put(user, next);
        proof {
            use_type_invariant(&*self);
        }
        Ok(Command::Reply(reply))
    }

    /// `user` guesses `word`; `valid` tells whether the word has the shape
    /// of a guess.
    pub fn check_word(&mut self, user: ActorId, word: String, valid: bool) -> (r: Result<
        Command,
        SessionError,
    >)
        ensures
            final(self)@ == old(self)@.check_word(user, word@, valid).0,
            outcome_view(r) == old(self)@.check_word(user, word@, valid).1,
            final(self)@.wf(),
    {
        proof {
            use_type_invariant(&*self);
        }
        let (reply, next) = match self.sessions.get(&user) {
            None => {
                return Err(SessionError::NotInGame);
            },
            Some(info) => {
                proof {
                    use_type_invariant(info);
                }
                match &info.session_status {
                    SessionStatus::ReplyReceived(event) => {
                        let tries: u8 = info.tries + 1;
                        if event.has_guessed() {
                            (
                                GameSessionEvent::GameOver(GameStatus::Win),
                                info.moved_to(tries, SessionStatus::GameOver(GameStatus::Win)),
                            )
                        } else if tries == TRIES_LIMIT {
                            (
                                GameSessionEvent::GameOver(GameStatus::Lose),
                                info.moved_to(tries, SessionStatus::GameOver(GameStatus::Lose)),
                            )
                        } else {
                            (
                                GameSessionEvent::from_wordle(event),
                                info.moved_to(tries, SessionStatus::WaitUserInput),
                            )
                        }
                    },
                    SessionStatus::WaitUserInput | SessionStatus::WaitWordleCheckWordReply => {
                        if !valid {
                            return Err(SessionError::InvalidWord);
                        }
                        return Ok(
                            Command::Forward {
                                request: Action::CheckWord { user, word },
                                timeout: None,
                            },
                        );
                    },
                    SessionStatus::Init
                    | SessionStatus::WaitWordleStartReply
                    | SessionStatus::GameOver(_) => {
                        return Err(SessionError::NotInGame);
                    },
                }
            },
        };
        self.put(user, next);
        proof {
            use_type_invariant(&*self);
        }
        Ok(Command::Reply(reply))
    }

    /// `source` says that the game which the call `session_id` began for
    /// `user` has run out of time; the coordinator is `program_id`.
    pub fn check_game_status(
        &mut self,
        source: ActorId,
        program_id: ActorId,
        user: ActorId,
        session_id: MessageId,
    ) -> (r: Command)
        ensures
            final(self)@ == old(self)@.check_game_status(source, program_id, user, session_id).0,
            r@ == old(self)@.check_game_status(source, program_id, user, session_id).1,
            final(self)@.wf(),
    {
        proof {
            use_type_invariant(&*self);
        }
        if source != program_id {
            return Command::Nothing;
        }
        let next = match self.sessions.get(&user) {
            None => {
                return Command::Nothing;
            },
            Some(info) => {
                proof {
                    use_type_invariant(info);
                }
                if session_id != info.session_id || matches!(
                    info.session_status,
                    SessionStatus::GameOver(_)
                ) {
                    return Command::Nothing;
                }
                info.moved_to(info.tries, SessionStatus::GameOver(GameStatus::Lose))
            },
        };
        self.put(user, next);
        proof {
            use_type_invariant(&*self);
        }
        Command::Notify { user, event: GameSessionEvent::GameOver(GameStatus::Lose) }
    }

    /// `request` has gone to the oracle as the message `outbound_id`, on
    /// behalf of the call `message_id`; `valid` tells whether a guess in
    /// it has the shape of one. Tells whether the request was due and is
    /// now written down.
    pub fn note_forwarded(
        &mut self,
        request: &Action,
        valid: bool,
        message_id: MessageId,
        outbound_id: MessageId,
    ) -> (r: bool)
        ensures
            final(self)@ == old(self)@.forwarded(request@, valid, message_id, outbound_id).0,
            r == old(self)@.forwarded(request@, valid, message_id, outbound_id).1,
            final(self)@.wf(),
    {
        proof {
            use_type_invariant(&*self);
        }
        let user: ActorId = *request.get_user();
        let known = self.sessions.get(&user);
        let next = match request {
            Action::StartGame { .. } => {
                let due = match known {
                    None => true,
                    Some(info) => matches!(
                        info.session_status,
                        SessionStatus::Init
                            | SessionStatus::GameOver(_)
                            | SessionStatus::WaitWordleStartReply
                    ),
                };
                if !due {
                    return false;
                }
                SessionInfo {
                    session_id: message_id,
                    original_msg_id: message_id,
                    send_to_wordle_msg_id: outbound_id,
                    tries: 0,
                    session_status: SessionStatus::WaitWordleStartReply,
                }
            },
            Action::CheckWord { .. } => {
                match known {
                    None => {
                        return false;
                    },
                    Some(info) => {
                        proof {
                            use_type_invariant(info);
                        }
                        let in_game = matches!(
                            info.session_status,
                            SessionStatus::WaitUserInput | SessionStatus::WaitWordleCheckWordReply
                        );
                        if !in_game || !valid {
                            return false;
                        }
                        SessionInfo {
                            session_id: info.session_id,
                            original_msg_id: message_id,
                            send_to_wordle_msg_id: outbound_id,
                            tries: info.tries,
                            session_status: SessionStatus::WaitWordleCheckWordReply,
                        }
                    },
                }
            },
        };
        self.put(user, next);
        proof {
            use_type_invariant(&*self);
        }
        true
    }
}

/// What an outside observer is shown of the coordinator.
#[derive(Debug, PartialEq, Eq)]
pub struct GameSessionState {
    /// The address of the oracle.
    pub wordle_program_id: ActorId,
    /// Every known player with the player's record.
    pub game_sessions: Vec<(ActorId, SessionInfo)>,
}

impl View for GameSessionState {
    type V = GameSessionStateView;

    open spec fn view(&self) -> GameSessionStateView {
        GameSessionStateView {
            wordle_program_id: self.wordle_program_id,
            game_sessions: Seq::new(
                self.game_sessions@.len(),
                |i: int| (self.game_sessions[i].0, self.game_sessions[i].1@),
            ),
        }
    }
}

/// Makes the coordinator for the oracle that `config` names. There is no
/// coordinator for an oracle at the zero address.
pub fn init(config: GameSessionInit) -> (r: Option<GameSession>)
    ensures
        match r {
            Some(game_session) => GameSessionView::init(config) == Some(game_session@)
                && game_session@.wf(),
            None => GameSessionView::init(config) is None,
        },
{
    if config.is_valid() {
        Some(
            GameSession {
                wordle_program_id: config.wordle_program_id,
                sessions: SessionStore::new(),
            },
        )
    } else {
        None
    }
}

/// The call `message_id` from `source` arrives at the coordinator
/// `program_id`.
///
/// The answer is what the host is to do, or why the call is refused; a
/// refused call changes nothing. A call that was parked and is woken is
/// handed in again as it was.
pub fn handle(
    game_session: &mut GameSession,
    source: ActorId,
    message_id: MessageId,
    program_id: ActorId,
    action: GameSessionAction,
) -> (r: Result<Command, SessionError>)
    ensures
        final(game_session)@ == old(game_session)@.handle(
            source,
            message_id,
            program_id,
            action@,
            action@.has_valid_word(),
        ).0,
        outcome_view(r) == old(game_session)@.handle(
            source,
            message_id,
            program_id,
            action@,
            action@.has_valid_word(),
        ).1,
        final(game_session)@.wf(),
{
    match action {
        GameSessionAction::StartGame => game_session.start_game(source, message_id),
        GameSessionAction::CheckWord { word } => {
            let valid = is_valid_word(word.as_str());
            game_session.check_word(source, word, valid)
        },
        GameSessionAction::CheckGameStatus { user, session_id } => Ok(
            game_session.check_game_status(source, program_id, user, session_id),
        ),
    }
}

/// `request` has gone to the oracle as the message `outbound_id`, on
/// behalf of the call `message_id`, which is about to be parked.
///
/// Tells whether the request was due. If it was, it is now written down
/// and its player waits for the oracle; if not, nothing has changed.
pub fn forwarded(
    game_session: &mut GameSession,
    request: &Action,
    message_id: MessageId,
    outbound_id: MessageId,
) -> (r: bool)
    ensures
        final(game_session)@ == old(game_session)@.forwarded(
            request@,
            request@.has_valid_word(),
            message_id,
            outbound_id,
        ).0,
        r == old(game_session)@.forwarded(
            request@,
            request@.has_valid_word(),
            message_id,
            outbound_id,
        ).1,
        final(game_session)@.wf(),
{
    let valid = match request {
        Action::StartGame { .. } => false,
        Action::CheckWord { word, .. } => is_valid_word(word.as_str()),
    };
    game_session.note_forwarded(request, valid, message_id, outbound_id)
}

/// The oracle answers the request `reply_to` with `event`.
///
/// The awaited answer is kept for the call that is parked for it, and
/// that call is named so that the host can wake it. Any other answer is
/// dropped.
pub fn handle_reply(game_session: &mut GameSession, reply_to: MessageId, event: Event) -> (r:
    Option<MessageId>)
    ensures
        final(game_session)@ == old(game_session)@.handle_reply(reply_to, event@).0,
        r == old(game_session)@.handle_reply(reply_to, event@).1,
        final(game_session)@.wf(),
{
    proof {
        use_type_invariant(&*game_session);
    }
    let user: ActorId = *event.get_user();
    let (parked, next) = match game_session.sessions.get(&user) {
        None => {
            return None;
        },
        Some(info) => {
            proof {
                use_type_invariant(info);
            }
            if reply_to != info.send_to_wordle_msg_id || !info.is_wait_reply_status() {
                return None;
            }
            (info.original_msg_id, info.moved_to(info.tries, SessionStatus::ReplyReceived(event)))
        },
    };
    game_session.put(user, next);
    proof {
        use_type_invariant(&*game_session);
    }
    Some(parked)
}

/// The snapshot of the coordinator: the oracle, and every known player
/// with a copy of the player's record, in the order in which the players
/// first came. Nothing changes.
pub fn state(game_session: &GameSession) -> (r: GameSessionState)
    ensures
        r@ == game_session@.state(),
        game_session@.wf(),
{
    proof {
        use_type_invariant(game_session);
    }
    let game_sessions = game_session.sessions.to_vec();
    let r = GameSessionState { wordle_program_id: game_session.wordle_program_id, game_sessions };
    assert(r@.game_sessions =~= game_session@.state().game_sessions);
    r
}

} // verus!
