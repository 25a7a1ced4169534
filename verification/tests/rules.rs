//! The single rules of the coordinator, each on small values.

use game_session::session::SessionStatus as Status;
use game_session::store::SessionStore;
use game_session::word::{accepts_shape, is_valid_word, mark_lowercase, WORD_LENGTH};
use game_session::wordle::{Action, Event};
use game_session::{
    forwarded, handle, handle_reply, init, state, ActorId, Command, GameSession,
    GameSessionAction, GameSessionEvent, GameSessionInit, GameStatus, MessageId, SessionError,
    SessionInfo, TimeoutCallback, TRIES_LIMIT,
};

fn player(tag: u8) -> ActorId {
    let mut bytes = [0u8; 32];
    bytes[0] = tag;
    ActorId::new(bytes)
}

fn call(tag: u8) -> MessageId {
    let mut bytes = [0u8; 32];
    bytes[31] = tag;
    MessageId::new(bytes)
}

fn coordinator() -> ActorId {
    player(1)
}

fn new_game_session() -> GameSession {
    init(GameSessionInit { wordle_program_id: player(2) }).expect("the oracle has an address")
}

fn guess(word: &str) -> GameSessionAction {
    GameSessionAction::CheckWord { word: word.to_string() }
}

fn checked(user: ActorId, correct: &[u8], contained: &[u8]) -> Event {
    Event::WordChecked {
        user,
        correct_positions: correct.to_vec(),
        contained_in_word: contained.to_vec(),
    }
}

fn status_of(game: &GameSession, user: ActorId) -> Status {
    game.session(&user).expect("the player is known").session_status().clone()
}

/// Brings `user` to the point where the player may guess.
fn begin(game: &mut GameSession, user: ActorId, start: MessageId, request: MessageId) {
    let command = handle(game, user, start, coordinator(), GameSessionAction::StartGame);
    assert!(matches!(command, Ok(Command::Forward { .. })));
    assert!(forwarded(game, &Action::StartGame { user }, start, request));
    assert_eq!(handle_reply(game, request, Event::GameStarted { user }), Some(start));
    let command = handle(game, user, start, coordinator(), GameSessionAction::StartGame);
    assert_eq!(command, Ok(Command::Reply(GameSessionEvent::StartSuccess)));
}

/// Sends a guess of `user` to the oracle and lets `answer` come back, up
/// to the point where the parked guess is woken.
fn guess_and_answer(
    game: &mut GameSession,
    user: ActorId,
    word: &str,
    parked: MessageId,
    request: MessageId,
    answer: Event,
) {
    let command = handle(game, user, parked, coordinator(), guess(word));
    assert_eq!(
        command,
        Ok(Command::Forward {
            request: Action::CheckWord { user, word: word.to_string() },
            timeout: None,
        })
    );
    assert!(forwarded(game, &Action::CheckWord { user, word: word.to_string() }, parked, request));
    assert_eq!(handle_reply(game, request, answer), Some(parked));
}

#[test]
fn zero_address_is_no_oracle() {
    assert!(init(GameSessionInit { wordle_program_id: ActorId::zero() }).is_none());
    assert!(!GameSessionInit { wordle_program_id: ActorId::zero() }.is_valid());
    assert!(GameSessionInit { wordle_program_id: player(2) }.is_valid());
}

#[test]
fn new_coordinator_knows_nobody() {
    let game = new_game_session();
    assert_eq!(game.wordle_program_id(), player(2));
    assert!(game.session(&player(3)).is_none());
    let snapshot = state(&game);
    assert_eq!(snapshot.wordle_program_id, player(2));
    assert!(snapshot.game_sessions.is_empty());
}

#[test]
fn identities_compare_by_their_bytes() {
    assert_eq!(player(3), player(3));
    assert_ne!(player(3), player(4));
    assert_ne!(call(3), call(4));
    let mut bytes = [0u8; 32];
    assert!(ActorId::new(bytes).is_zero());
    assert!(MessageId::new(bytes).is_zero());
    assert_eq!(ActorId::new(bytes), ActorId::zero());
    assert_eq!(MessageId::default(), MessageId::zero());
    assert_eq!(ActorId::default(), ActorId::zero());
    bytes[31] = 1;
    assert!(!ActorId::new(bytes).is_zero());
    assert!(!MessageId::new(bytes).is_zero());
    assert_eq!(ActorId::new(bytes).into_bytes(), bytes);
    assert_eq!(MessageId::new(bytes).into_bytes(), bytes);
}

#[test]
fn valid_words_have_five_lowercase_characters() {
    assert_eq!(WORD_LENGTH, 5);
    assert!(is_valid_word("house"));
    assert!(is_valid_word("horse"));
    assert!(is_valid_word("abcde"));
    assert!(!is_valid_word("Abcde"));
    assert!(!is_valid_word("abcdE"));
    assert!(!is_valid_word("HOUSE"));
    assert!(!is_valid_word("abcdef"));
    assert!(!is_valid_word("abcd"));
    assert!(!is_valid_word(""));
    assert!(!is_valid_word("abc e"));
    assert!(!is_valid_word("abcd1"));
    assert!(!is_valid_word("ab-de"));
}

#[test]
fn characters_are_counted_and_judged_one_by_one() {
    // Lowercase letters beyond the English ones count as one character each.
    assert!(is_valid_word("élève"));
    assert!(is_valid_word("δδδδδ"));
    assert!(!is_valid_word("Élève"));
    assert!(!is_valid_word("ΔΔΔΔΔ"));
    // Five bytes that are fewer than five characters are no word.
    assert!(!is_valid_word("añbc"));
    // Characters without case are not lowercase.
    assert!(!is_valid_word("中中中中中"));
}

#[test]
fn marks_tell_which_characters_are_lowercase() {
    assert_eq!(mark_lowercase("aBc1 δ"), vec![true, false, true, false, false, true]);
    assert_eq!(mark_lowercase(""), Vec::<bool>::new());
    assert!(accepts_shape(&vec![true; 5]));
    assert!(!accepts_shape(&vec![true, true, false, true, true]));
    assert!(!accepts_shape(&vec![true; 4]));
    assert!(!accepts_shape(&vec![true; 6]));
    assert!(!accepts_shape(&vec![]));
}

#[test]
fn word_is_found_when_five_places_are_correct() {
    let user = player(3);
    assert!(checked(user, &[0, 1, 2, 3, 4], &[]).has_guessed());
    assert!(!checked(user, &[0, 1, 3, 4], &[]).has_guessed());
    assert!(!checked(user, &[], &[0, 1, 2, 3, 4]).has_guessed());
    assert!(!checked(user, &[], &[]).has_guessed());
    assert!(!Event::GameStarted { user }.has_guessed());
    assert_eq!(*checked(user, &[], &[]).get_user(), user);
    assert_eq!(*Event::GameStarted { user }.get_user(), user);
    assert_eq!(*Action::StartGame { user }.get_user(), user);
    assert_eq!(*Action::CheckWord { user, word: "house".to_string() }.get_user(), user);
}

#[test]
fn oracle_answers_are_passed_on_without_the_name() {
    let user = player(3);
    assert_eq!(
        GameSessionEvent::from_wordle(&Event::GameStarted { user }),
        GameSessionEvent::StartSuccess
    );
    assert_eq!(
        GameSessionEvent::from_wordle(&checked(user, &[0, 4], &[2])),
        GameSessionEvent::CheckWordResult {
            correct_positions: vec![0, 4],
            contained_in_word: vec![2],
        }
    );
}

#[test]
fn copies_are_equal_to_what_they_copy() {
    let user = player(3);
    let event = checked(user, &[1, 2], &[0]);
    assert_eq!(event.clone(), event);
    let action = Action::CheckWord { user, word: "house".to_string() };
    assert_eq!(action.clone(), action);
    let told = GameSessionEvent::CheckWordResult {
        correct_positions: vec![1],
        contained_in_word: vec![2, 3],
    };
    assert_eq!(told.clone(), told);
    assert_eq!(guess("house").clone(), guess("house"));
    let status = Status::ReplyReceived(event);
    assert_eq!(status.clone(), status);
    let info = SessionInfo::try_new(call(1), call(2), call(3), 4, status).unwrap();
    assert_eq!(info.clone(), info);
}

#[test]
fn store_makes_a_record_on_first_writing() {
    let mut store = SessionStore::new();
    assert_eq!(store.len(), 0);
    assert!(store.get(&player(3)).is_none());
    assert!(store.get_mut(&player(3)).is_none());
    assert_eq!(store.len(), 0);

    {
        let info = store.get_or_create(player(3));
        assert_eq!(*info.session_status(), Status::Init);
        assert_eq!(info.tries(), 0);
        assert!(info.session_id().is_zero());
        assert!(info.original_msg_id().is_zero());
        assert!(info.send_to_wordle_msg_id().is_zero());
        assert!(!info.is_wait_reply_status());
        assert_eq!(*info, SessionInfo::default());
    }
    assert_eq!(store.len(), 1);
    assert!(store.get(&player(3)).is_some());
    assert!(store.get(&player(4)).is_none());
}

#[test]
fn store_keeps_what_is_written() {
    let mut store = SessionStore::new();
    store.get_or_create(player(3));
    store.get_or_create(player(4));
    let written =
        SessionInfo::try_new(call(1), call(2), call(3), 2, Status::WaitUserInput).unwrap();
    *store.get_mut(&player(4)).unwrap() = written.clone();
    assert_eq!(store.get(&player(4)), Some(&written));
    assert_eq!(store.get(&player(3)), Some(&SessionInfo::default()));

    // Looking a known player up again makes no second record.
    assert_eq!(*store.get_or_create(player(4)), written);
    assert_eq!(store.len(), 2);

    let listing = store.to_vec();
    assert_eq!(listing, vec![(player(3), SessionInfo::default()), (player(4), written)]);
}

#[test]
fn records_keep_the_tries_within_the_limit() {
    assert_eq!(TRIES_LIMIT, 5);
    let ids = (call(1), call(2), call(3));
    let made = |tries: u8, status: Status| SessionInfo::try_new(ids.0, ids.1, ids.2, tries, status);
    assert!(made(0, Status::Init).is_some());
    assert!(made(4, Status::WaitUserInput).is_some());
    assert!(made(5, Status::WaitUserInput).is_none());
    assert!(made(5, Status::WaitWordleCheckWordReply).is_none());
    assert!(made(5, Status::GameOver(GameStatus::Lose)).is_some());
    assert!(made(5, Status::GameOver(GameStatus::Win)).is_some());
    assert!(made(6, Status::GameOver(GameStatus::Win)).is_none());
    assert!(made(255, Status::Init).is_none());

    let info = made(3, Status::WaitWordleStartReply).unwrap();
    assert_eq!(info.session_id(), call(1));
    assert_eq!(info.original_msg_id(), call(2));
    assert_eq!(info.send_to_wordle_msg_id(), call(3));
    assert_eq!(info.tries(), 3);
    assert!(info.is_wait_reply_status());
    assert!(made(3, Status::WaitWordleCheckWordReply).unwrap().is_wait_reply_status());
    assert!(!made(3, Status::WaitUserInput).unwrap().is_wait_reply_status());
    assert!(!made(3, Status::GameOver(GameStatus::Win)).unwrap().is_wait_reply_status());
}

#[test]
fn unknown_player_starts_at_the_beginning() {
    let mut game = new_game_session();
    let user = player(3);
    // A guess is refused as from a player at the beginning, and leaves no trace.
    assert_eq!(
        handle(&mut game, user, call(1), coordinator(), guess("house")),
        Err(SessionError::NotInGame)
    );
    assert!(game.session(&user).is_none());
    // A start is passed on as for a player at the beginning.
    assert_eq!(
        handle(&mut game, user, call(2), coordinator(), GameSessionAction::StartGame),
        Ok(Command::Forward {
            request: Action::StartGame { user },
            timeout: Some(TimeoutCallback { user, session_id: call(2), delay: 200 }),
        })
    );
    // Nothing is written down before the request has gone out.
    assert!(game.session(&user).is_none());
    assert!(forwarded(&mut game, &Action::StartGame { user }, call(2), call(3)));
    let info = game.session(&user).unwrap();
    assert_eq!(*info.session_status(), Status::WaitWordleStartReply);
    assert_eq!(info.tries(), 0);
    assert_eq!(info.session_id(), call(2));
    assert_eq!(info.original_msg_id(), call(2));
    assert_eq!(info.send_to_wordle_msg_id(), call(3));
}

#[test]
fn start_is_refused_while_a_game_is_on() {
    let mut game = new_game_session();
    let user = player(3);
    begin(&mut game, user, call(1), call(2));
    let before = game.session(&user).unwrap().clone();

    // While the player may guess.
    assert_eq!(
        handle(&mut game, user, call(3), coordinator(), GameSessionAction::StartGame),
        Err(SessionError::AlreadyInGame)
    );
    assert_eq!(*game.session(&user).unwrap(), before);
    assert!(!forwarded(&mut game, &Action::StartGame { user }, call(3), call(4)));
    assert_eq!(*game.session(&user).unwrap(), before);

    // While a guess is with the oracle.
    assert!(matches!(
        handle(&mut game, user, call(5), coordinator(), guess("house")),
        Ok(Command::Forward { .. })
    ));
    assert!(forwarded(
        &mut game,
        &Action::CheckWord { user, word: "house".to_string() },
        call(5),
        call(6)
    ));
    assert_eq!(status_of(&game, user), Status::WaitWordleCheckWordReply);
    let before = game.session(&user).unwrap().clone();
    assert_eq!(
        handle(&mut game, user, call(7), coordinator(), GameSessionAction::StartGame),
        Err(SessionError::AlreadyInGame)
    );
    assert_eq!(*game.session(&user).unwrap(), before);
}

#[test]
fn invalid_word_is_refused_without_a_trace() {
    let mut game = new_game_session();
    let user = player(3);
    begin(&mut game, user, call(1), call(2));
    let before = game.session(&user).unwrap().clone();
    for word in ["Abcde", "abcdef", "abcd", "", "abc4e"] {
        assert_eq!(
            handle(&mut game, user, call(3), coordinator(), guess(word)),
            Err(SessionError::InvalidWord)
        );
        assert!(!forwarded(
            &mut game,
            &Action::CheckWord { user, word: word.to_string() },
            call(3),
            call(4)
        ));
        assert_eq!(*game.session(&user).unwrap(), before);
    }
}

#[test]
fn invalid_word_is_never_passed_on() {
    let user = player(3);
    // At the beginning the player is not in a game.
    let mut game = new_game_session();
    assert_eq!(
        handle(&mut game, user, call(1), coordinator(), guess("Abcde")),
        Err(SessionError::NotInGame)
    );
    // While the start is with the oracle likewise.
    handle(&mut game, user, call(2), coordinator(), GameSessionAction::StartGame).unwrap();
    assert!(forwarded(&mut game, &Action::StartGame { user }, call(2), call(3)));
    assert_eq!(
        handle(&mut game, user, call(4), coordinator(), guess("Abcde")),
        Err(SessionError::NotInGame)
    );
    assert!(!forwarded(
        &mut game,
        &Action::CheckWord { user, word: "house".to_string() },
        call(4),
        call(5)
    ));
    // While an answer lies ready the call takes the answer, whatever it brings.
    let mut game = new_game_session();
    begin(&mut game, user, call(1), call(2));
    guess_and_answer(&mut game, user, "house", call(3), call(4), checked(user, &[0], &[]));
    assert_eq!(
        handle(&mut game, user, call(5), coordinator(), guess("Abcde")),
        Ok(Command::Reply(GameSessionEvent::CheckWordResult {
            correct_positions: vec![0],
            contained_in_word: vec![],
        }))
    );
    // After the game the player is not in a game.
    let mut game = new_game_session();
    begin(&mut game, user, call(1), call(2));
    guess_and_answer(&mut game, user, "horse", call(3), call(4), checked(user, &[0, 1, 2, 3, 4], &[]));
    handle(&mut game, user, call(3), coordinator(), guess("horse")).unwrap();
    assert_eq!(
        handle(&mut game, user, call(5), coordinator(), guess("Abcde")),
        Err(SessionError::NotInGame)
    );
}

#[test]
fn last_try_without_a_find_loses() {
    let mut game = new_game_session();
    let user = player(3);
    begin(&mut game, user, call(1), call(2));
    for round in 1..=5u8 {
        guess_and_answer(
            &mut game,
            user,
            "house",
            call(10 + round),
            call(20 + round),
            checked(user, &[0, 1, 3, 4], &[]),
        );
        assert_eq!(game.session(&user).unwrap().tries(), round - 1);
        let told = handle(&mut game, user, call(10 + round), coordinator(), guess("house"));
        assert_eq!(game.session(&user).unwrap().tries(), round);
        if round < 5 {
            assert_eq!(
                told,
                Ok(Command::Reply(GameSessionEvent::CheckWordResult {
                    correct_positions: vec![0, 1, 3, 4],
                    contained_in_word: vec![],
                }))
            );
            assert_eq!(status_of(&game, user), Status::WaitUserInput);
        } else {
            assert_eq!(told, Ok(Command::Reply(GameSessionEvent::GameOver(GameStatus::Lose))));
            assert_eq!(status_of(&game, user), Status::GameOver(GameStatus::Lose));
        }
    }
}

#[test]
fn found_word_wins_at_any_try() {
    for earlier in 0..5u8 {
        let mut game = new_game_session();
        let user = player(3);
        begin(&mut game, user, call(1), call(2));
        for round in 0..earlier {
            guess_and_answer(
                &mut game,
                user,
                "house",
                call(10 + round),
                call(20 + round),
                checked(user, &[], &[]),
            );
            handle(&mut game, user, call(10 + round), coordinator(), guess("house")).unwrap();
        }
        guess_and_answer(
            &mut game,
            user,
            "horse",
            call(40),
            call(41),
            checked(user, &[0, 1, 2, 3, 4], &[]),
        );
        assert_eq!(
            handle(&mut game, user, call(40), coordinator(), guess("horse")),
            Ok(Command::Reply(GameSessionEvent::GameOver(GameStatus::Win)))
        );
        assert_eq!(status_of(&game, user), Status::GameOver(GameStatus::Win));
        assert_eq!(game.session(&user).unwrap().tries(), earlier + 1);
    }
}

#[test]
fn stale_timeout_changes_nothing() {
    let mut game = new_game_session();
    let user = player(3);
    begin(&mut game, user, call(1), call(2));
    let before = game.session(&user).unwrap().clone();
    let me = coordinator();

    // A wrong name of the game.
    let stale = GameSessionAction::CheckGameStatus { user, session_id: call(9) };
    assert_eq!(handle(&mut game, me, call(10), me, stale), Ok(Command::Nothing));
    assert_eq!(*game.session(&user).unwrap(), before);

    // A player whom nobody knows.
    let nobody = GameSessionAction::CheckGameStatus { user: player(8), session_id: call(1) };
    assert_eq!(handle(&mut game, me, call(11), me, nobody), Ok(Command::Nothing));
    assert!(game.session(&player(8)).is_none());

    // Not from the coordinator itself.
    let right = GameSessionAction::CheckGameStatus { user, session_id: call(1) };
    assert_eq!(handle(&mut game, user, call(12), me, right.clone()), Ok(Command::Nothing));
    assert_eq!(*game.session(&user).unwrap(), before);

    // The right one ends the game, once.
    assert_eq!(
        handle(&mut game, me, call(13), me, right.clone()),
        Ok(Command::Notify { user, event: GameSessionEvent::GameOver(GameStatus::Lose) })
    );
    assert_eq!(status_of(&game, user), Status::GameOver(GameStatus::Lose));
    assert_eq!(handle(&mut game, me, call(14), me, right), Ok(Command::Nothing));
}

#[test]
fn timeout_ends_a_wait_for_the_oracle() {
    let mut game = new_game_session();
    let user = player(3);
    let me = coordinator();
    handle(&mut game, user, call(1), me, GameSessionAction::StartGame).unwrap();
    assert!(forwarded(&mut game, &Action::StartGame { user }, call(1), call(2)));
    let timeout = TimeoutCallback { user, session_id: call(1), delay: 200 };
    assert_eq!(
        timeout.action(),
        GameSessionAction::CheckGameStatus { user, session_id: call(1) }
    );
    assert_eq!(
        handle(&mut game, me, call(3), me, timeout.action()),
        Ok(Command::Notify { user, event: GameSessionEvent::GameOver(GameStatus::Lose) })
    );
    assert_eq!(status_of(&game, user), Status::GameOver(GameStatus::Lose));
    // The late answer of the oracle is dropped.
    assert_eq!(handle_reply(&mut game, call(2), Event::GameStarted { user }), None);
    assert_eq!(status_of(&game, user), Status::GameOver(GameStatus::Lose));
}

#[test]
fn only_the_awaited_answer_is_kept() {
    let mut game = new_game_session();
    let user = player(3);
    let me = coordinator();

    // Nobody is known.
    assert_eq!(handle_reply(&mut game, call(2), Event::GameStarted { user }), None);
    assert!(game.session(&user).is_none());

    handle(&mut game, user, call(1), me, GameSessionAction::StartGame).unwrap();
    assert!(forwarded(&mut game, &Action::StartGame { user }, call(1), call(2)));
    let before = game.session(&user).unwrap().clone();

    // An answer to another request.
    assert_eq!(handle_reply(&mut game, call(9), Event::GameStarted { user }), None);
    assert_eq!(*game.session(&user).unwrap(), before);
    // An answer about another player.
    assert_eq!(handle_reply(&mut game, call(2), Event::GameStarted { user: player(4) }), None);
    assert_eq!(*game.session(&user).unwrap(), before);

    // The awaited one.
    assert_eq!(handle_reply(&mut game, call(2), Event::GameStarted { user }), Some(call(1)));
    assert_eq!(status_of(&game, user), Status::ReplyReceived(Event::GameStarted { user }));
    // The same once more: nobody waits any longer.
    assert_eq!(handle_reply(&mut game, call(2), Event::GameStarted { user }), None);
    assert_eq!(status_of(&game, user), Status::ReplyReceived(Event::GameStarted { user }));
}

#[test]
fn a_start_may_be_asked_again_while_the_oracle_is_silent() {
    let mut game = new_game_session();
    let user = player(3);
    let me = coordinator();
    handle(&mut game, user, call(1), me, GameSessionAction::StartGame).unwrap();
    assert!(forwarded(&mut game, &Action::StartGame { user }, call(1), call(2)));

    assert_eq!(
        handle(&mut game, user, call(3), me, GameSessionAction::StartGame),
        Ok(Command::Forward {
            request: Action::StartGame { user },
            timeout: Some(TimeoutCallback { user, session_id: call(3), delay: 200 }),
        })
    );
    assert!(forwarded(&mut game, &Action::StartGame { user }, call(3), call(4)));
    let info = game.session(&user).unwrap();
    assert_eq!(info.session_id(), call(3));
    assert_eq!(info.original_msg_id(), call(3));
    assert_eq!(info.send_to_wordle_msg_id(), call(4));

    // The answer to the first request is stale now, and so is its timeout.
    assert_eq!(handle_reply(&mut game, call(2), Event::GameStarted { user }), None);
    let first = GameSessionAction::CheckGameStatus { user, session_id: call(1) };
    assert_eq!(handle(&mut game, me, call(5), me, first), Ok(Command::Nothing));
    assert_eq!(handle_reply(&mut game, call(4), Event::GameStarted { user }), Some(call(3)));
}

#[test]
fn a_guess_may_be_sent_again_while_the_oracle_is_silent() {
    let mut game = new_game_session();
    let user = player(3);
    let me = coordinator();
    begin(&mut game, user, call(1), call(2));
    handle(&mut game, user, call(3), me, guess("house")).unwrap();
    assert!(forwarded(
        &mut game,
        &Action::CheckWord { user, word: "house".to_string() },
        call(3),
        call(4)
    ));

    assert_eq!(
        handle(&mut game, user, call(5), me, guess("mouse")),
        Ok(Command::Forward {
            request: Action::CheckWord { user, word: "mouse".to_string() },
            timeout: None,
        })
    );
    assert!(forwarded(
        &mut game,
        &Action::CheckWord { user, word: "mouse".to_string() },
        call(5),
        call(6)
    ));
    let info = game.session(&user).unwrap();
    assert_eq!(*info.session_status(), Status::WaitWordleCheckWordReply);
    assert_eq!(info.session_id(), call(1));
    assert_eq!(info.original_msg_id(), call(5));
    assert_eq!(info.send_to_wordle_msg_id(), call(6));
    assert_eq!(info.tries(), 0);
    assert_eq!(handle_reply(&mut game, call(4), checked(user, &[], &[])), None);
    assert_eq!(handle_reply(&mut game, call(6), checked(user, &[], &[])), Some(call(5)));
}

#[test]
fn a_guess_that_meets_the_start_confirmation_counts_as_a_try() {
    let mut game = new_game_session();
    let user = player(3);
    let me = coordinator();
    handle(&mut game, user, call(1), me, GameSessionAction::StartGame).unwrap();
    assert!(forwarded(&mut game, &Action::StartGame { user }, call(1), call(2)));
    assert_eq!(handle_reply(&mut game, call(2), Event::GameStarted { user }), Some(call(1)));

    assert_eq!(
        handle(&mut game, user, call(3), me, guess("house")),
        Ok(Command::Reply(GameSessionEvent::StartSuccess))
    );
    assert_eq!(status_of(&game, user), Status::WaitUserInput);
    assert_eq!(game.session(&user).unwrap().tries(), 1);
}

#[test]
fn a_start_that_meets_a_match_passes_it_on_and_counts_nothing() {
    let mut game = new_game_session();
    let user = player(3);
    begin(&mut game, user, call(1), call(2));
    guess_and_answer(&mut game, user, "house", call(3), call(4), checked(user, &[0, 1], &[2]));
    assert_eq!(
        handle(&mut game, user, call(5), coordinator(), GameSessionAction::StartGame),
        Ok(Command::Reply(GameSessionEvent::CheckWordResult {
            correct_positions: vec![0, 1],
            contained_in_word: vec![2],
        }))
    );
    assert_eq!(status_of(&game, user), Status::WaitUserInput);
    assert_eq!(game.session(&user).unwrap().tries(), 0);
}

#[test]
fn a_game_is_left_only_by_a_guess_or_a_timeout() {
    let mut game = new_game_session();
    let user = player(3);
    let other = player(4);
    let me = coordinator();
    begin(&mut game, user, call(1), call(2));
    let before = game.session(&user).unwrap().clone();

    // None of these moves the player.
    assert!(handle(&mut game, user, call(3), me, GameSessionAction::StartGame).is_err());
    assert!(handle(&mut game, user, call(4), me, guess("House")).is_err());
    assert!(!forwarded(&mut game, &Action::StartGame { user }, call(5), call(6)));
    assert_eq!(handle_reply(&mut game, call(2), Event::GameStarted { user }), None);
    assert_eq!(handle_reply(&mut game, call(2), checked(user, &[0, 1, 2, 3, 4], &[])), None);
    let stale = GameSessionAction::CheckGameStatus { user, session_id: call(7) };
    assert_eq!(handle(&mut game, me, call(8), me, stale), Ok(Command::Nothing));
    let foreign = GameSessionAction::CheckGameStatus { user, session_id: call(1) };
    assert_eq!(handle(&mut game, other, call(9), me, foreign), Ok(Command::Nothing));
    begin(&mut game, other, call(10), call(11));
    guess_and_answer(&mut game, other, "horse", call(12), call(13), checked(other, &[], &[]));
    assert_eq!(*game.session(&user).unwrap(), before);

    // A guess keeps the player in the game until the oracle has answered.
    guess_and_answer(&mut game, user, "house", call(14), call(15), checked(user, &[0], &[]));
    assert_eq!(status_of(&game, user), Status::ReplyReceived(checked(user, &[0], &[])));
    handle(&mut game, user, call(14), me, guess("house")).unwrap();
    assert_eq!(status_of(&game, user), Status::WaitUserInput);

    // The timeout of the game ends it.
    let due = GameSessionAction::CheckGameStatus { user, session_id: call(1) };
    assert_eq!(
        handle(&mut game, me, call(16), me, due),
        Ok(Command::Notify { user, event: GameSessionEvent::GameOver(GameStatus::Lose) })
    );
    assert_eq!(status_of(&game, user), Status::GameOver(GameStatus::Lose));
}

#[test]
fn timeout_during_a_guess_loses_without_counting_the_try() {
    let mut game = new_game_session();
    let user = player(3);
    let me = coordinator();
    begin(&mut game, user, call(1), call(2));
    guess_and_answer(&mut game, user, "house", call(3), call(4), checked(user, &[0], &[]));
    handle(&mut game, user, call(3), me, guess("house")).unwrap();
    assert_eq!(game.session(&user).unwrap().tries(), 1);

    handle(&mut game, user, call(5), me, guess("mouse")).unwrap();
    assert!(forwarded(
        &mut game,
        &Action::CheckWord { user, word: "mouse".to_string() },
        call(5),
        call(6)
    ));
    let due = GameSessionAction::CheckGameStatus { user, session_id: call(1) };
    assert_eq!(
        handle(&mut game, me, call(7), me, due),
        Ok(Command::Notify { user, event: GameSessionEvent::GameOver(GameStatus::Lose) })
    );
    assert_eq!(status_of(&game, user), Status::GameOver(GameStatus::Lose));
    assert_eq!(game.session(&user).unwrap().tries(), 1);
    // The oracle's answer comes too late.
    assert_eq!(handle_reply(&mut game, call(6), checked(user, &[0, 1, 2, 3, 4], &[])), None);
    assert_eq!(status_of(&game, user), Status::GameOver(GameStatus::Lose));
}

#[test]
fn timeout_overrides_an_answer_that_was_not_taken() {
    let mut game = new_game_session();
    let user = player(3);
    let me = coordinator();
    begin(&mut game, user, call(1), call(2));
    guess_and_answer(
        &mut game,
        user,
        "horse",
        call(3),
        call(4),
        checked(user, &[0, 1, 2, 3, 4], &[]),
    );
    let due = GameSessionAction::CheckGameStatus { user, session_id: call(1) };
    assert_eq!(
        handle(&mut game, me, call(5), me, due),
        Ok(Command::Notify { user, event: GameSessionEvent::GameOver(GameStatus::Lose) })
    );
    // The woken guess finds the game over.
    assert_eq!(handle(&mut game, user, call(3), me, guess("horse")), Err(SessionError::NotInGame));
    assert_eq!(game.session(&user).unwrap().tries(), 0);
}

#[test]
fn snapshot_changes_nothing() {
    let mut game = new_game_session();
    let user = player(3);
    begin(&mut game, user, call(1), call(2));
    guess_and_answer(&mut game, user, "house", call(3), call(4), checked(user, &[0], &[1]));
    let first = state(&game);
    let second = state(&game);
    assert_eq!(first, second);
    assert_eq!(first.game_sessions.len(), 1);
    assert_eq!(first.game_sessions[0].0, user);
    assert_eq!(
        *first.game_sessions[0].1.session_status(),
        Status::ReplyReceived(checked(user, &[0], &[1]))
    );
    assert_eq!(first.game_sessions[0].1, *game.session(&user).unwrap());
}

#[test]
fn refusals_speak_in_their_own_words() {
    assert_eq!(SessionError::AlreadyInGame.message(), "The user is in the game");
    assert_eq!(SessionError::NotInGame.message(), "The user is not in the game");
    assert_eq!(SessionError::InvalidWord.message(), "Invalid word");
}
