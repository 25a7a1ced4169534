//! What holds of the coordinator whatever happens to it.
//!
//! Each law is stated over the state machine by which the entry points of
//! the coordinator are specified, so it holds of every run of them.
use vstd::prelude::*;
use crate::ids::{ActorId, MessageId};
use crate::messages::{
    CommandView,
    ErrorKind,
    GameSessionActionView,
    GameSessionEventView,
    GameSessionInit,
    SessionError,
    TimeoutCallback,
    TIMEOUT_DELAY,
};
use crate::model::{GameSessionView, Input};
use crate::session::{GameStatus, SessionInfoView, SessionStatusView, TRIES_LIMIT};
use crate::word::valid_word;
use crate::wordle::{ActionView, EventView};

verus! {

/// Writing a well-formed record into a state that the coordinator can be
/// in gives such a state again.
pub proof fn lemma_put_keeps_wf(state: GameSessionView, user: ActorId, info: SessionInfoView)
    requires
        state.wf(),
        info.wf(),
    ensures
        state.put(user, info).wf(),
        state.put(user, info).record(user) == info,
        forall|other: ActorId|
            other != user ==> state.put(user, info).record(other) == state.record(other),
{
    let next = state.put(user, info);
    if !state.sessions.contains_key(user) {
        assert(!state.users.contains(user));
        assert(next.users.last() == user);
        assert forall|other: ActorId| next.sessions.contains_key(other) <==> next.users.contains(
            other,
        ) by {
            if state.users.contains(other) {
                let k = choose|k: int| 0 <= k < state.users.len() && state.users[k] == other;
                assert(next.users[k] == other);
            }
            if next.users.contains(other) && other != user {
                let k = choose|k: int| 0 <= k < next.users.len() && next.users[k] == other;
                assert(state.users[k] == other);
            }
        }
        assert(next.users.no_duplicates());
    }
    assert forall|other: ActorId| #[trigger] next.sessions.contains_key(other) implies
        next.sessions[other].wf() by {
        if other != user {
            assert(state.sessions.contains_key(other));
        }
    }
}

/// Whatever happens, the coordinator stays in a state that it can be in.
/// In particular no player ever has more tries than the limit, and a
/// player whose game is not over has fewer.
pub proof fn law_every_step_keeps_wf(state: GameSessionView, input: Input)
    requires
        state.wf(),
    ensures
        state.step(input).wf(),
{
    let user = input.player();
    let info = state.record(user);
    assert(info.wf()) by {
        if state.sessions.contains_key(user) {
        }
    }
    match input {
        Input::Call { source, message_id, program_id, action, valid } => {
            match action {
                GameSessionActionView::StartGame => {
                    if info.session_status is ReplyReceived {
                        lemma_put_keeps_wf(
                            state,
                            user,
                            SessionInfoView {
                                session_status: SessionStatusView::WaitUserInput,
                                ..info
                            },
                        );
                    }
                },
                GameSessionActionView::CheckWord { word } => {
                    if info.session_status is ReplyReceived {
                        let next = state.check_word(user, word, valid).0;
                        lemma_put_keeps_wf(state, user, next.record(user));
                    }
                },
                GameSessionActionView::CheckGameStatus { .. } => {
                    lemma_put_keeps_wf(
                        state,
                        user,
                        SessionInfoView {
                            session_status: SessionStatusView::GameOver(GameStatus::Lose),
                            ..info
                        },
                    );
                },
            }
        },
        Input::Forwarded { request, valid, message_id, outbound_id } => {
            if state.is_due(request, valid) {
                let next = state.forwarded(request, valid, message_id, outbound_id).0;
                lemma_put_keeps_wf(state, user, next.sessions[user]);
            }
        },
        Input::Reply { reply_to, event } => {
            if state.reply_is_awaited(reply_to, event) {
                lemma_put_keeps_wf(
                    state,
                    user,
                    SessionInfoView {
                        session_status: SessionStatusView::ReplyReceived(event),
                        ..info
                    },
                );
            }
        },
    }
}

/// Whatever happens touches the record of one player and of no other: the
/// sessions of different players do not depend on each other.
pub proof fn law_sessions_are_independent(state: GameSessionView, input: Input, other: ActorId)
    requires
        other != input.player(),
    ensures
        state.step(input).record(other) == state.record(other),
        state.step(input).sessions.contains_key(other) == state.sessions.contains_key(other),
{
}

/// When the coordinator is made, no player is known.
pub proof fn law_nobody_is_known_at_first(config: GameSessionInit)
    requires
        config.is_valid_spec(),
    ensures
        GameSessionView::init(config) is Some,
        GameSessionView::init(config)->0.wf(),
        GameSessionView::init(config)->0.users.len() == 0,
        forall|user: ActorId| !GameSessionView::init(config)->0.sessions.contains_key(user),
{
}

/// A player whom the coordinator has never heard of stands at the
/// beginning and has no tries.
pub proof fn law_unknown_player_is_at_init(state: GameSessionView, user: ActorId)
    requires
        !state.sessions.contains_key(user),
    ensures
        state.status(user) == SessionStatusView::Init,
        state.record(user).tries == 0,
{
}

/// A player in a game who asks for a new game is refused for being out of
/// turn, and nothing changes.
pub proof fn law_start_during_game_is_refused(
    state: GameSessionView,
    source: ActorId,
    message_id: MessageId,
    program_id: ActorId,
    valid: bool,
)
    requires
        state.status(source).is_in_game(),
    ensures
        state.handle(source, message_id, program_id, GameSessionActionView::StartGame, valid).1
            == Err::<CommandView, SessionError>(SessionError::AlreadyInGame),
        SessionError::AlreadyInGame.kind_spec() == ErrorKind::OutOfTurn,
        state.handle(source, message_id, program_id, GameSessionActionView::StartGame, valid).0
            == state,
{
}

/// A guess that is not a word of five lowercase characters never reaches
/// the oracle, wherever the player stands: the call that brings it is not
/// forwarded, and a request that carries it is not written down. From a
/// player in a game it is refused as invalid input, and nothing changes.
pub proof fn law_invalid_word_stays_home(
    state: GameSessionView,
    source: ActorId,
    message_id: MessageId,
    program_id: ActorId,
    outbound_id: MessageId,
    word: Seq<char>,
)
    requires
        !valid_word(word),
    ensures
        ({
            let action = GameSessionActionView::CheckWord { word };
            let request = ActionView::CheckWord { user: source, word };
            let (next, outcome) = state.handle(
                source,
                message_id,
                program_id,
                action,
                action.has_valid_word(),
            );
            &&& !(outcome is Ok && outcome->Ok_0 is Forward)
            &&& state.status(source).is_in_game() ==> next == state && outcome == Err::<
                CommandView,
                SessionError,
            >(SessionError::InvalidWord)
            &&& SessionError::InvalidWord.kind_spec() == ErrorKind::InvalidInput
            &&& state.forwarded(request, request.has_valid_word(), message_id, outbound_id) == (
                state,
                false,
            )
        }),
{
}

/// A game that is on is left in two ways only. An honoured timeout loses
/// it. The oracle's awaited answer to a guess ends the wait, and the
/// parked guess then takes the answer. No call for a new game, no call or
/// answer that concerns another player, and no stale answer or timeout
/// moves a player out of a game.
pub proof fn law_game_is_left_by_guess_or_timeout(
    state: GameSessionView,
    input: Input,
    user: ActorId,
)
    requires
        state.status(user).is_in_game(),
        !state.step(input).status(user).is_in_game(),
    ensures
        match input {
            Input::Call { source, program_id, action, .. } => match action {
                GameSessionActionView::CheckGameStatus { user: loser, session_id } => {
                    &&& loser == user
                    &&& state.timeout_applies(source, program_id, user, session_id)
                    &&& state.step(input).status(user) == SessionStatusView::GameOver(
                        GameStatus::Lose,
                    )
                },
                _ => false,
            },
            Input::Forwarded { .. } => false,
            Input::Reply { reply_to, event } => {
                &&& event.user() == user
                &&& state.reply_is_awaited(reply_to, event)
                &&& state.status(user) == SessionStatusView::WaitWordleCheckWordReply
                &&& state.step(input).status(user) == SessionStatusView::ReplyReceived(event)
            },
        },
{
    if input.player() != user {
        law_sessions_are_independent(state, input, user);
    }
}

/// A round that the oracle has answered counts as exactly one try when
/// the parked guess takes the answer, and the tries never pass the limit.
/// If the word was not found, the last try loses the game, and any
/// earlier one lets the player guess again and tells the match.
pub proof fn law_round_counts_one_try(
    state: GameSessionView,
    user: ActorId,
    word: Seq<char>,
    valid: bool,
    event: EventView,
)
    requires
        state.wf(),
        state.status(user) == SessionStatusView::ReplyReceived(event),
    ensures
        ({
            let (next, outcome) = state.check_word(user, word, valid);
            let tries = next.record(user).tries;
            &&& tries == state.record(user).tries + 1
            &&& tries <= TRIES_LIMIT
            &&& !event.has_guessed() && tries == TRIES_LIMIT ==> {
                &&& next.status(user) == SessionStatusView::GameOver(GameStatus::Lose)
                &&& outcome == Ok::<CommandView, SessionError>(
                    CommandView::Reply(GameSessionEventView::GameOver(GameStatus::Lose)),
                )
            }
            &&& !event.has_guessed() && tries < TRIES_LIMIT ==> {
                &&& next.status(user) == SessionStatusView::WaitUserInput
                &&& outcome == Ok::<CommandView, SessionError>(
                    CommandView::Reply(GameSessionEventView::from_wordle(event)),
                )
            }
        }),
{
}

/// The tries of a player change in two ways only: a round that the parked
/// guess resolves adds one, and a new game that goes to the oracle starts
/// from none.
pub proof fn law_tries_change_by_rounds_only(state: GameSessionView, input: Input, user: ActorId)
    ensures
        ({
            let before = state.record(user).tries;
            let after = state.step(input).record(user).tries;
            ||| after == before
            ||| after == before + 1 && state.status(user) is ReplyReceived && input is Call
            ||| after == 0 && input is Forwarded
        }),
{
    if input.player() != user {
        law_sessions_are_independent(state, input, user);
    }
}

/// A found word wins the game, however many tries were made.
pub proof fn law_found_word_wins(
    state: GameSessionView,
    user: ActorId,
    word: Seq<char>,
    valid: bool,
    event: EventView,
)
    requires
        state.status(user) == SessionStatusView::ReplyReceived(event),
        event.has_guessed(),
    ensures
        state.check_word(user, word, valid).1 == Ok::<CommandView, SessionError>(
            CommandView::Reply(GameSessionEventView::GameOver(GameStatus::Win)),
        ),
        state.check_word(user, word, valid).0.status(user) == SessionStatusView::GameOver(
            GameStatus::Win,
        ),
{
}

/// A timeout changes nothing unless it comes from the coordinator itself,
/// names the call that began the player's current game, and that game is
/// not over. In particular a timeout left over from an earlier game is
/// without effect.
pub proof fn law_stale_timeout_is_ignored(
    state: GameSessionView,
    source: ActorId,
    program_id: ActorId,
    user: ActorId,
    session_id: MessageId,
)
    requires
        source != program_id || state.record(user).session_id != session_id || state.status(
            user,
        ) is GameOver,
    ensures
        state.check_game_status(source, program_id, user, session_id) == (
            state,
            CommandView::Nothing,
        ),
{
}

/// An answer of the oracle changes nothing and wakes nobody unless its
/// player waits for the oracle and it answers the very request that was
/// written down for that player.
pub proof fn law_stale_reply_is_dropped(
    state: GameSessionView,
    reply_to: MessageId,
    event: EventView,
)
    requires
        !state.status(event.user()).is_wait_reply() || state.record(
            event.user(),
        ).send_to_wordle_msg_id != reply_to,
    ensures
        state.handle_reply(reply_to, event) == (state, None::<MessageId>),
{
}

/// What the coordinator asks to be forwarded is due. Once it is written
/// down, the player waits for the oracle, and the oracle's answer to that
/// request wakes the very call that was parked and lies ready for it.
pub proof fn law_forwarded_call_is_woken(
    state: GameSessionView,
    source: ActorId,
    message_id: MessageId,
    program_id: ActorId,
    action: GameSessionActionView,
    valid: bool,
    outbound_id: MessageId,
    event: EventView,
)
    requires
        state.handle(source, message_id, program_id, action, valid).1 is Ok,
        state.handle(source, message_id, program_id, action, valid).1->Ok_0 is Forward,
        event.user() == source,
    ensures
        ({
            let command = state.handle(source, message_id, program_id, action, valid).1->Ok_0;
            let request = command->Forward_request;
            let (waiting, written) = state.forwarded(request, valid, message_id, outbound_id);
            let (answered, woken) = waiting.handle_reply(outbound_id, event);
            &&& state.handle(source, message_id, program_id, action, valid).0 == state
            &&& request.user() == source
            &&& written
            &&& waiting.status(source).is_wait_reply()
            &&& waiting.record(source).original_msg_id == message_id
            &&& waiting.record(source).send_to_wordle_msg_id == outbound_id
            &&& woken == Some(message_id)
            &&& answered.status(source) == SessionStatusView::ReplyReceived(event)
        }),
{
}

/// A call that is refused changes nothing.
pub proof fn law_refused_call_changes_nothing(
    state: GameSessionView,
    source: ActorId,
    message_id: MessageId,
    program_id: ActorId,
    action: GameSessionActionView,
    valid: bool,
)
    requires
        state.handle(source, message_id, program_id, action, valid).1 is Err,
    ensures
        state.handle(source, message_id, program_id, action, valid).0 == state,
{
}

/// A player who is not in a game cannot guess: the call is refused for
/// being out of turn, whatever the word, and nothing changes.
pub proof fn law_guess_outside_game_is_refused(
    state: GameSessionView,
    source: ActorId,
    message_id: MessageId,
    program_id: ActorId,
    word: Seq<char>,
    valid: bool,
)
    requires
        state.status(source).may_start(),
    ensures
        state.handle(
            source,
            message_id,
            program_id,
            GameSessionActionView::CheckWord { word },
            valid,
        ) == (state, Err::<CommandView, SessionError>(SessionError::NotInGame)),
        SessionError::NotInGame.kind_spec() == ErrorKind::OutOfTurn,
{
}

/// A new game that has gone to the oracle starts with no tries, under the
/// name of the call that asked for it, and the timeout that was arranged
/// with it names that call.
pub proof fn law_new_game_starts_clean(
    state: GameSessionView,
    user: ActorId,
    message_id: MessageId,
    outbound_id: MessageId,
    valid: bool,
)
    requires
        state.status(user).may_start(),
    ensures
        ({
            let (same, outcome) = state.start_game(user, message_id);
            let request = ActionView::StartGame { user };
            let (next, written) = state.forwarded(request, valid, message_id, outbound_id);
            &&& same == state
            &&& outcome == Ok::<CommandView, SessionError>(
                CommandView::Forward {
                    request,
                    timeout: Some(
                        TimeoutCallback { user, session_id: message_id, delay: TIMEOUT_DELAY },
                    ),
                },
            )
            &&& written
            &&& next.record(user) == SessionInfoView {
                session_id: message_id,
                original_msg_id: message_id,
                send_to_wordle_msg_id: outbound_id,
                tries: 0,
                session_status: SessionStatusView::WaitWordleStartReply,
            }
        }),
{
}

/// No game hangs for ever: the timeout that was arranged when a game was
/// asked for ends it as lost wherever the player stands, unless the game
/// is over by then or a newer one has taken its place.
pub proof fn law_timeout_ends_an_unfinished_game(
    state: GameSessionView,
    program_id: ActorId,
    user: ActorId,
)
    requires
        state.sessions.contains_key(user),
        !(state.status(user) is GameOver),
    ensures
        ({
            let (next, command) = state.check_game_status(
                program_id,
                program_id,
                user,
                state.record(user).session_id,
            );
            &&& next.status(user) == SessionStatusView::GameOver(GameStatus::Lose)
            &&& next.record(user).tries == state.record(user).tries
            &&& command == CommandView::Notify {
                user,
                event: GameSessionEventView::GameOver(GameStatus::Lose),
            }
        }),
{
}

/// The snapshot shows every known player once, with the player's record,
/// and nobody else.
pub proof fn law_snapshot_shows_every_player_once(state: GameSessionView)
    requires
        state.wf(),
    ensures
        state.state().wordle_program_id == state.wordle_program_id,
        forall|i: int, j: int|
            0 <= i < j < state.state().game_sessions.len() ==> state.state().game_sessions[i].0
                != state.state().game_sessions[j].0,
        forall|i: int|
            0 <= i < state.state().game_sessions.len() ==> {
                &&& state.sessions.contains_key(#[trigger] state.state().game_sessions[i].0)
                &&& state.state().game_sessions[i].1 == state.sessions[state.state().game_sessions[i].0]
            },
        forall|user: ActorId| #[trigger]
            state.sessions.contains_key(user) ==> exists|i: int|
                0 <= i < state.state().game_sessions.len() && state.state().game_sessions[i].0
                    == user,
{
    let listing = state.state().game_sessions;
    assert forall|i: int| 0 <= i < listing.len() implies state.sessions.contains_key(
        #[trigger] listing[i].0,
    ) by {
        assert(state.users.contains(state.users[i]));
    }
    assert forall|user: ActorId| #[trigger] state.sessions.contains_key(user) implies exists|
        i: int,
    |
        0 <= i < listing.len() && listing[i].0 == user by {
        assert(state.users.contains(user));
        let k = choose|k: int| 0 <= k < state.users.len() && state.users[k] == user;
        assert(listing[k].0 == user);
    }
}

} // verus!
