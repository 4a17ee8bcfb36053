//! End-to-end scenarios: a full game won, a game lost by exhaustion, and a
//! game concluded by the watchdog.  The external scoring contract's replies
//! are played in by hand.

use game_session::{
    handle, handle_initiate_game, handle_reply, handle_verify_guess, init, state, Effect,
    GameOutcome, GameSessionAction, GameSessionEvent, GameSessionInit, SessionError, SessionState,
    WordleContractAction, WordleContractEvent,
};

const WORDLE: u64 = 100;
const PLAYER: u64 = 42;
const PROGRAM: u64 = 7;

/// Starts a game and delivers the contract's start reply, leaving the game
/// ready for the first guess.  Returns the session id of the start call.
fn start_game(s: &mut game_session::GameSession, msg_id: u64, wordle_msg_id: u64) -> u64 {
    let fx = handle_initiate_game(s, PLAYER, msg_id, wordle_msg_id).expect("start accepted");
    assert_eq!(fx.len(), 3);
    assert_eq!(
        fx[0],
        Effect::SendWordle { action: WordleContractAction::InitiateGame { player: PLAYER } }
    );
    assert_eq!(
        fx[1],
        Effect::ScheduleTimeout { player: PLAYER, session_id: msg_id, delay: 200 }
    );
    assert_eq!(fx[2], Effect::Wait);
    let fx = handle_reply(s, wordle_msg_id, WordleContractEvent::GameInitiated { player: PLAYER });
    assert_eq!(fx, vec![Effect::Wake { message_id: msg_id }]);
    // the woken start call resumes and consumes the cached reply
    let fx = handle_initiate_game(s, PLAYER, msg_id, wordle_msg_id + 1).expect("resume accepted");
    assert_eq!(fx, vec![Effect::Reply { event: GameSessionEvent::GameInitiated }]);
    msg_id
}

/// Submits a guess, delivers the contract's verdict, and returns the reply
/// the player finally receives.
fn resolve_guess(
    s: &mut game_session::GameSession,
    msg_id: u64,
    wordle_msg_id: u64,
    guess: &str,
    correct_positions: Vec<u8>,
    present_letters: Vec<u8>,
) -> GameSessionEvent {
    let fx = handle_verify_guess(s, PLAYER, msg_id, wordle_msg_id, guess.to_string())
        .expect("guess accepted");
    assert_eq!(fx.len(), 2);
    assert_eq!(
        fx[0],
        Effect::SendWordle {
            action: WordleContractAction::VerifyGuess { player: PLAYER, guess: guess.to_string() }
        }
    );
    assert_eq!(fx[1], Effect::Wait);
    let fx = handle_reply(
        s,
        wordle_msg_id,
        WordleContractEvent::GuessVerified { player: PLAYER, correct_positions, present_letters },
    );
    assert_eq!(fx, vec![Effect::Wake { message_id: msg_id }]);
    // the woken guess call resumes and consumes the cached verdict
    let mut fx = handle_verify_guess(s, PLAYER, msg_id, wordle_msg_id + 1, guess.to_string())
        .expect("resume accepted");
    assert_eq!(fx.len(), 1);
    match fx.pop().expect("one effect") {
        Effect::Reply { event } => event,
        other => panic!("expected a reply, got {:?}", other),
    }
}

#[test]
fn test_victory_scenario() {
    let mut s = init(GameSessionInit { wordle_contract_id: WORDLE }).expect("valid init");
    start_game(&mut s, 1, 2);

    // malformed guesses are rejected before anything is sent
    assert_eq!(
        handle_verify_guess(&mut s, PLAYER, 4, 5, "APPLE".to_string()),
        Err(SessionError::ValidationError)
    );
    assert_eq!(
        handle_verify_guess(&mut s, PLAYER, 4, 5, "pear".to_string()),
        Err(SessionError::ValidationError)
    );

    // a wrong guess: only the last letter is in place
    let event = resolve_guess(&mut s, 6, 7, "apple", vec![4], vec![]);
    assert_eq!(
        event,
        GameSessionEvent::GuessResult { correct_positions: vec![4], present_letters: vec![] }
    );

    // "house" against "horse": positions 0, 1, 3, 4 are exact
    let event = resolve_guess(&mut s, 9, 10, "house", vec![0, 1, 3, 4], vec![]);
    assert_eq!(
        event,
        GameSessionEvent::GuessResult {
            correct_positions: vec![0, 1, 3, 4],
            present_letters: vec![]
        }
    );

    // "horse" is the word: every position is exact
    let event = resolve_guess(&mut s, 12, 13, "horse", vec![0, 1, 2, 3, 4], vec![]);
    assert_eq!(event, GameSessionEvent::GameConcluded(GameOutcome::Victory));

    let snap = state(&s);
    assert_eq!(snap.wordle_program_id, WORDLE);
    assert_eq!(snap.active_sessions.len(), 1);
    assert_eq!(snap.active_sessions[0].0, PLAYER);
    let record = &snap.active_sessions[0].1;
    assert_eq!(record.attempt_count, 3);
    assert_eq!(record.current_state, SessionState::Concluded(GameOutcome::Victory));
}

#[test]
fn test_defeat_scenario() {
    let mut s = init(GameSessionInit { wordle_contract_id: WORDLE }).expect("valid init");
    start_game(&mut s, 1, 2);

    for attempt in 1u64..=5 {
        let event = resolve_guess(
            &mut s,
            10 * attempt,
            10 * attempt + 1,
            "wrong",
            vec![],
            vec![0, 1],
        );
        if attempt < 5 {
            assert_eq!(
                event,
                GameSessionEvent::GuessResult {
                    correct_positions: vec![],
                    present_letters: vec![0, 1]
                }
            );
        } else {
            // the fifth wrong guess exhausts the budget
            assert_eq!(event, GameSessionEvent::GameConcluded(GameOutcome::Defeat));
        }
    }

    let snap = state(&s);
    let record = &snap.active_sessions[0].1;
    assert_eq!(record.attempt_count, 5);
    assert_eq!(record.current_state, SessionState::Concluded(GameOutcome::Defeat));
}

#[test]
fn test_timeout_scenario() {
    let mut s = init(GameSessionInit { wordle_contract_id: WORDLE }).expect("valid init");
    // the game is started but the contract never replies
    let fx = handle_initiate_game(&mut s, PLAYER, 1, 2).expect("start accepted");
    assert_eq!(fx.len(), 3);

    // a tick that is not self-addressed is ignored
    let fx = handle(
        &mut s,
        PLAYER,
        40,
        41,
        PROGRAM,
        GameSessionAction::CheckSessionStatus { player: PLAYER, session_id: 1 },
    )
    .expect("ticks never fail");
    assert!(fx.is_empty());

    // the watchdog fires: the player is told the game is lost
    let fx = handle(
        &mut s,
        PROGRAM,
        50,
        51,
        PROGRAM,
        GameSessionAction::CheckSessionStatus { player: PLAYER, session_id: 1 },
    )
    .expect("ticks never fail");
    assert_eq!(
        fx,
        vec![Effect::Notify {
            player: PLAYER,
            event: GameSessionEvent::GameConcluded(GameOutcome::Defeat),
        }]
    );

    let snap = state(&s);
    let record = &snap.active_sessions[0].1;
    assert_eq!(record.current_state, SessionState::Concluded(GameOutcome::Defeat));

    // the contract's late reply finds nothing to answer and changes nothing
    let fx = handle_reply(&mut s, 2, WordleContractEvent::GameInitiated { player: PLAYER });
    assert!(fx.is_empty());
    let snap = state(&s);
    assert_eq!(
        snap.active_sessions[0].1.current_state,
        SessionState::Concluded(GameOutcome::Defeat)
    );

    // so does a second, duplicate firing of the watchdog
    let fx = handle(
        &mut s,
        PROGRAM,
        60,
        61,
        PROGRAM,
        GameSessionAction::CheckSessionStatus { player: PLAYER, session_id: 1 },
    )
    .expect("ticks never fail");
    assert!(fx.is_empty());
}
