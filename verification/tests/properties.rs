//! Pointwise checks of the library's guarantees and edge cases: validation,
//! phase-dependent rejection, stale-event handling, attempt accounting, and
//! the store invariant.

use game_session::{
    details_wf_check, guess_is_valid, handle_initiate_game, handle_reply, handle_verify_guess,
    init, state, Effect, GameOutcome, GameSession, GameSessionEvent, GameSessionInit,
    SessionDetails, SessionError, SessionState, WordleContractEvent,
};

const WORDLE: u64 = 100;
const PLAYER: u64 = 42;

/// Brings a fresh orchestrator to the point where `PLAYER`'s game is ready
/// for a guess.
fn playable_session() -> GameSession {
    let mut s = init(GameSessionInit { wordle_contract_id: WORDLE }).expect("valid init");
    handle_initiate_game(&mut s, PLAYER, 1, 2).expect("start accepted");
    handle_reply(&mut s, 2, WordleContractEvent::GameInitiated { player: PLAYER });
    handle_initiate_game(&mut s, PLAYER, 1, 3).expect("resume accepted");
    s
}

#[test]
fn init_rejects_unset_contract_address() {
    assert_eq!(
        init(GameSessionInit { wordle_contract_id: 0 }).err(),
        Some(SessionError::ValidationError)
    );
    assert!(GameSessionInit { wordle_contract_id: 0 }.validate().is_err());
    assert!(GameSessionInit { wordle_contract_id: WORDLE }.validate().is_ok());
}

#[test]
fn guess_validation_is_exactly_five_lowercase_letters() {
    assert!(guess_is_valid(&"house".to_string()));
    assert!(!guess_is_valid(&"HOUSE".to_string()));
    assert!(!guess_is_valid(&"pear".to_string()));
    assert!(!guess_is_valid(&"houses".to_string()));
    assert!(!guess_is_valid(&"hous3".to_string()));
    assert!(!guess_is_valid(&"ho se".to_string()));
    assert!(!guess_is_valid(&"".to_string()));
}

#[test]
fn start_while_mid_game_is_a_protocol_violation() {
    let mut s = playable_session();
    let before = state(&s);
    assert_eq!(
        handle_initiate_game(&mut s, PLAYER, 10, 11),
        Err(SessionError::ProtocolViolation)
    );
    let after = state(&s);
    assert_eq!(before.active_sessions, after.active_sessions);
}

#[test]
fn start_while_still_starting_is_an_idempotent_retry() {
    let mut s = init(GameSessionInit { wordle_contract_id: WORDLE }).expect("valid init");
    handle_initiate_game(&mut s, PLAYER, 1, 2).expect("start accepted");
    // the reply never came; the player asks again and the request is re-sent
    let fx = handle_initiate_game(&mut s, PLAYER, 5, 6).expect("retry accepted");
    assert_eq!(fx.len(), 3);
    let record = &state(&s).active_sessions[0].1;
    assert_eq!(record.current_state, SessionState::AwaitingWordleInitResponse);
    assert_eq!(record.session_id, 5);
    assert_eq!(record.wordle_msg_id, 6);
    // the reply to the superseded first request is now stale and dropped
    let fx = handle_reply(&mut s, 2, WordleContractEvent::GameInitiated { player: PLAYER });
    assert!(fx.is_empty());
}

#[test]
fn guess_without_a_game_is_a_protocol_violation() {
    let mut s = init(GameSessionInit { wordle_contract_id: WORDLE }).expect("valid init");
    assert_eq!(
        handle_verify_guess(&mut s, PLAYER, 1, 2, "house".to_string()),
        Err(SessionError::ProtocolViolation)
    );
    // the rejection did not create a record
    assert!(state(&s).active_sessions.is_empty());
    // neither does a guess while the start reply is still awaited
    handle_initiate_game(&mut s, PLAYER, 1, 2).expect("start accepted");
    assert_eq!(
        handle_verify_guess(&mut s, PLAYER, 3, 4, "house".to_string()),
        Err(SessionError::ProtocolViolation)
    );
}

#[test]
fn stale_reply_changes_nothing() {
    let mut s = playable_session();
    handle_verify_guess(&mut s, PLAYER, 6, 7, "house".to_string()).expect("guess accepted");
    let before = state(&s);
    // wrong request identity
    let fx = handle_reply(
        &mut s,
        8,
        WordleContractEvent::GuessVerified {
            player: PLAYER,
            correct_positions: vec![0, 1, 2, 3, 4],
            present_letters: vec![],
        },
    );
    assert!(fx.is_empty());
    // unknown player
    let fx = handle_reply(&mut s, 7, WordleContractEvent::GameInitiated { player: 999 });
    assert!(fx.is_empty());
    let after = state(&s);
    assert_eq!(before.active_sessions, after.active_sessions);
    assert_eq!(after.active_sessions[0].1.wordle_msg_id, 7);
}

#[test]
fn attempts_count_one_per_resolved_guess() {
    let mut s = playable_session();
    for attempt in 1u64..=3 {
        handle_verify_guess(&mut s, PLAYER, 10 * attempt, 10 * attempt + 1, "wrong".to_string())
            .expect("guess accepted");
        // sending the guess does not count it
        assert_eq!(state(&s).active_sessions[0].1.attempt_count, attempt as u8 - 1);
        handle_reply(
            &mut s,
            10 * attempt + 1,
            WordleContractEvent::GuessVerified {
                player: PLAYER,
                correct_positions: vec![],
                present_letters: vec![],
            },
        );
        // neither does caching the verdict
        assert_eq!(state(&s).active_sessions[0].1.attempt_count, attempt as u8 - 1);
        handle_verify_guess(&mut s, PLAYER, 10 * attempt, 10 * attempt + 2, "wrong".to_string())
            .expect("resume accepted");
        // resolving it counts exactly one
        assert_eq!(state(&s).active_sessions[0].1.attempt_count, attempt as u8);
    }
}

#[test]
fn new_game_after_conclusion_resets_the_count() {
    let mut s = playable_session();
    handle_verify_guess(&mut s, PLAYER, 10, 11, "horse".to_string()).expect("guess accepted");
    handle_reply(
        &mut s,
        11,
        WordleContractEvent::GuessVerified {
            player: PLAYER,
            correct_positions: vec![0, 1, 2, 3, 4],
            present_letters: vec![],
        },
    );
    let fx = handle_verify_guess(&mut s, PLAYER, 10, 12, "horse".to_string())
        .expect("resume accepted");
    assert_eq!(
        fx,
        vec![Effect::Reply { event: GameSessionEvent::GameConcluded(GameOutcome::Victory) }]
    );
    assert_eq!(state(&s).active_sessions[0].1.attempt_count, 1);
    // the concluded record is reused for a new game
    handle_initiate_game(&mut s, PLAYER, 20, 21).expect("restart accepted");
    let record = &state(&s).active_sessions[0].1;
    assert_eq!(record.attempt_count, 0);
    assert_eq!(record.current_state, SessionState::AwaitingWordleInitResponse);
    assert_eq!(state(&s).active_sessions.len(), 1);
}

#[test]
fn outstanding_request_is_set_exactly_while_awaiting() {
    let mut s = init(GameSessionInit { wordle_contract_id: WORDLE }).expect("valid init");
    handle_initiate_game(&mut s, PLAYER, 1, 2).expect("start accepted");
    let record = &state(&s).active_sessions[0].1;
    assert!(record.is_awaiting_response());
    assert_eq!(record.wordle_msg_id, 2);
    handle_reply(&mut s, 2, WordleContractEvent::GameInitiated { player: PLAYER });
    let record = &state(&s).active_sessions[0].1;
    assert!(!record.is_awaiting_response());
    assert_eq!(record.wordle_msg_id, 0);
    assert!(s.check_invariants());
}

#[test]
fn store_keeps_one_record_per_player() {
    let mut s = init(GameSessionInit { wordle_contract_id: WORDLE }).expect("valid init");
    for round in 0u64..3 {
        handle_initiate_game(&mut s, PLAYER, 100 + round, 200 + round).expect("start accepted");
        handle_initiate_game(&mut s, 7, 300 + round, 400 + round).expect("start accepted");
    }
    let snap = state(&s);
    assert_eq!(snap.active_sessions.len(), 2);
    assert!(s.check_invariants());
}

#[test]
fn invariant_check_rejects_a_corrupted_store() {
    let ok = playable_session();
    assert!(ok.check_invariants());
    // two records for the same player
    let mut bad = GameSession::default();
    bad.active_sessions.push((PLAYER, SessionDetails::default()));
    bad.active_sessions.push((PLAYER, SessionDetails::default()));
    assert!(!bad.check_invariants());
    // an outstanding request in a phase that awaits nothing
    let mut stray = SessionDetails::default();
    stray.wordle_msg_id = 9;
    assert!(!details_wf_check(&stray));
    let mut corrupt = GameSession::default();
    corrupt.active_sessions.push((PLAYER, stray));
    assert!(!corrupt.check_invariants());
}

#[test]
fn contract_event_accessors() {
    let started = WordleContractEvent::GameInitiated { player: PLAYER };
    assert_eq!(*started.get_player(), PLAYER);
    let verdict = WordleContractEvent::GuessVerified {
        player: 9,
        correct_positions: vec![0, 1, 2, 3, 4],
        present_letters: vec![],
    };
    assert_eq!(*verdict.get_player(), 9);
    assert!(verdict.is_correct_guess());
    let partial = WordleContractEvent::GuessVerified {
        player: 9,
        correct_positions: vec![0, 1, 3, 4],
        present_letters: vec![2],
    };
    assert!(!partial.is_correct_guess());
    assert_eq!(GameSessionEvent::from(&started), GameSessionEvent::GameInitiated);
    assert_eq!(
        GameSessionEvent::from(&partial),
        GameSessionEvent::GuessResult { correct_positions: vec![0, 1, 3, 4], present_letters: vec![2] }
    );
    assert_eq!(partial.clone(), partial);
}

#[test]
fn conversions_between_config_store_and_snapshot() {
    let s = GameSession::from(GameSessionInit { wordle_contract_id: WORDLE });
    assert_eq!(s.wordle_contract_id, WORDLE);
    assert!(s.active_sessions.is_empty());
    let snap = game_session::GameSessionState::from(&playable_session());
    assert_eq!(snap.wordle_program_id, WORDLE);
    assert_eq!(snap.active_sessions.len(), 1);
    assert_eq!(snap.active_sessions[0].0, PLAYER);
    assert_eq!(snap.active_sessions[0].1.current_state, SessionState::AwaitingPlayerInput);
}

#[test]
fn defaults_are_the_documented_zeros() {
    let d = SessionDetails::default();
    assert_eq!(d.session_id, 0);
    assert_eq!(d.original_msg_id, 0);
    assert_eq!(d.wordle_msg_id, 0);
    assert_eq!(d.attempt_count, 0);
    assert_eq!(d.current_state, SessionState::Initialized);
    assert!(!d.is_awaiting_response());
    assert_eq!(SessionState::default(), SessionState::Initialized);
    let s = GameSession::default();
    assert_eq!(s.wordle_contract_id, 0);
    assert!(s.active_sessions.is_empty());
}
