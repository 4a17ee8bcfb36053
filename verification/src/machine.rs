//! The orchestration state machine.
//!
//! Each entry point is a pure transition over the store.  The identities the
//! transport assigns (the identity of the inbound call, and the identity the
//! outbound request to the scoring contract would get) are arguments, and the
//! sends, replies, suspensions and wake-ups to perform come back as a list of
//! [`Effect`]s for the host to carry out in order.
//!
//! The per-record half of every transition is stated by a spec function
//! (`initiate_step`, `verify_step`, `reply_step`, `timeout_step`), and every
//! handler's contract says that the store changed by exactly that step, at
//! exactly the player concerned.

use crate::protocol::{
    session_event_for, ActorId, GameOutcome, GameSessionAction, GameSessionEvent,
    GameSessionInit, MessageId, SessionDetails, SessionError, SessionState, WordleContractAction,
    WordleContractEvent, MAX_ATTEMPTS,
};
use crate::session::{
    find_session, lemma_store_lookup_absent, lemma_store_lookup_at_index,
    lemma_store_lookup_push, lemma_store_lookup_update,
    GameSession, GameSessionState,
};
use vstd::prelude::*;
use vstd::string::StrSliceExecFns;

verus! {

/// Ticks between a game's start and its watchdog firing.
pub const TIMEOUT_DELAY: u32 = 200;

/// A side effect for the host to perform, in order.
#[derive(Debug, Clone, PartialEq, Eq)]
pub enum Effect {
    /// Send `action` to the word-scoring contract.  The identity the
    /// transport assigns to this send is the `wordle_msg_id` the transition
    /// was given.
    SendWordle { action: WordleContractAction },
    /// Schedule a self-addressed `CheckSessionStatus { player, session_id }`
    /// message, delivered after `delay` ticks.
    ScheduleTimeout { player: ActorId, session_id: MessageId, delay: u32 },
    /// Reply to the call being handled with `event`.
    Reply { event: GameSessionEvent },
    /// Send `event` to `player` outside any reply (the watchdog's forced
    /// loss notice).
    Notify { player: ActorId, event: GameSessionEvent },
    /// Resume the suspended call `message_id`.
    Wake { message_id: MessageId },
    /// Suspend the call being handled until it is woken.
    Wait,
}

/// A guess is valid when it is exactly five lowercase ASCII letters.
pub open spec fn valid_guess(s: Seq<char>) -> bool {
    s.len() == 5 && forall|i: int| 0 <= i < s.len() ==> is_lowercase_letter(#[trigger] s[i])
}

/// A lowercase ASCII letter.
pub open spec fn is_lowercase_letter(c: char) -> bool {
    'a' <= c <= 'z'
}

/// Checks that a guess is exactly five lowercase ASCII letters.
pub fn guess_is_valid(guess: &String) -> (r: bool)
    ensures
        r == valid_guess(guess@),
{
    let s = guess.as_str();
    if s.unicode_len() != 5 {
        return false;
    }
    let mut i: usize = 0;
    while i < 5
        invariant
            s@ == guess@,
            s@.len() == 5,
            i <= 5,
            forall|j: int| 0 <= j < i as int ==> is_lowercase_letter(#[trigger] s@[j]),
        decreases 5 - i,
    {
        let c = s.get_char(i);
        if c < 'a' || c > 'z' {
            return false;
        }
        i = i + 1;
    }
    true
}

/// What a start request does to one record.
///
/// A cached start reply is consumed and the game becomes playable; from a
/// fresh, concluded or still-starting session a new start request goes out,
/// the ids and the attempt count are re-armed and the call suspends; any
/// other phase means the player is already mid-game.
pub open spec fn initiate_step(
    d: SessionDetails,
    msg_id: MessageId,
    wordle_msg_id: MessageId,
) -> Result<SessionDetails, SessionError> {
    match d.current_state {
        SessionState::ResponseReceived(e) => if e is GameInitiated {
            Ok(SessionDetails { current_state: SessionState::AwaitingPlayerInput, ..d })
        } else {
            Err(SessionError::ProtocolViolation)
        },
        SessionState::Initialized | SessionState::Concluded(_)
            | SessionState::AwaitingWordleInitResponse => Ok(
            SessionDetails {
                session_id: msg_id,
                original_msg_id: msg_id,
                wordle_msg_id: wordle_msg_id,
                attempt_count: 0,
                current_state: SessionState::AwaitingWordleInitResponse,
            },
        ),
        _ => Err(SessionError::ProtocolViolation),
    }
}

/// The effects of an accepted start request: consuming a cached reply
/// answers the player directly; otherwise the start request goes to the
/// contract, the watchdog is armed for this very call, and the call
/// suspends.
pub open spec fn initiate_effects(
    d: SessionDetails,
    player: ActorId,
    msg_id: MessageId,
) -> Seq<Effect> {
    if d.current_state is ResponseReceived {
        seq![Effect::Reply { event: GameSessionEvent::GameInitiated }]
    } else {
        seq![
            Effect::SendWordle { action: WordleContractAction::InitiateGame { player } },
            Effect::ScheduleTimeout { player, session_id: msg_id, delay: TIMEOUT_DELAY },
            Effect::Wait,
        ]
    }
}

/// What a guess request does to one record.
///
/// A cached guess reply is consumed: the attempt is counted first, then the
/// game concludes with a victory on a fully correct guess, concludes with a
/// defeat when the budget is exhausted, and otherwise waits for the next
/// guess.  While the game is playable (or a guess is already being
/// re-verified), a valid guess goes out to the contract and the call
/// suspends; an invalid one is rejected without touching anything.  Any
/// other phase means there is no game to guess in.
pub open spec fn verify_step(
    d: SessionDetails,
    guess: Seq<char>,
    msg_id: MessageId,
    wordle_msg_id: MessageId,
) -> Result<SessionDetails, SessionError> {
    match d.current_state {
        SessionState::ResponseReceived(e) => if e is GuessVerified {
            let n = (d.attempt_count + 1) as u8;
            if e.spec_is_correct_guess() {
                Ok(
                    SessionDetails {
                        attempt_count: n,
                        current_state: SessionState::Concluded(GameOutcome::Victory),
                        ..d
                    },
                )
            } else if n == MAX_ATTEMPTS {
                Ok(
                    SessionDetails {
                        attempt_count: n,
                        current_state: SessionState::Concluded(GameOutcome::Defeat),
                        ..d
                    },
                )
            } else {
                Ok(
                    SessionDetails {
                        attempt_count: n,
                        current_state: SessionState::AwaitingPlayerInput,
                        ..d
                    },
                )
            }
        } else {
            Err(SessionError::ProtocolViolation)
        },
        SessionState::AwaitingPlayerInput | SessionState::AwaitingWordleGuessResponse => if
        valid_guess(guess) {
            Ok(
                SessionDetails {
                    original_msg_id: msg_id,
                    wordle_msg_id: wordle_msg_id,
                    current_state: SessionState::AwaitingWordleGuessResponse,
                    ..d
                },
            )
        } else {
            Err(SessionError::ValidationError)
        },
        _ => Err(SessionError::ProtocolViolation),
    }
}

/// The reply an accepted guess request consuming cached reply `e` produces:
/// victory, defeat on the last allowed attempt, or the per-letter result.
pub open spec fn guess_reply_for(
    e: WordleContractEvent,
    attempts_before: u8,
    event: GameSessionEvent,
) -> bool {
    if e.spec_is_correct_guess() {
        event == GameSessionEvent::GameConcluded(GameOutcome::Victory)
    } else if attempts_before + 1 == MAX_ATTEMPTS {
        event == GameSessionEvent::GameConcluded(GameOutcome::Defeat)
    } else {
        session_event_for(e, event)
    }
}

/// The effects of an accepted guess request: consuming a cached reply
/// answers the player; otherwise the guess goes to the contract and the call
/// suspends.
pub open spec fn verify_effects(
    d: SessionDetails,
    player: ActorId,
    guess: String,
    effects: Seq<Effect>,
) -> bool {
    match d.current_state {
        SessionState::ResponseReceived(e) => {
            &&& effects.len() == 1
            &&& effects[0] matches Effect::Reply { event } && guess_reply_for(
                e,
                d.attempt_count,
                event,
            )
        },
        _ => {
            &&& effects.len() == 2
            &&& effects[0] matches Effect::SendWordle {
                action: WordleContractAction::VerifyGuess { player: p, guess: g },
            } && p == player && g == guess
            &&& effects[1] == Effect::Wait
        },
    }
}

/// Whether a contract reply answers the request this record is awaiting.
pub open spec fn reply_accepted(d: SessionDetails, reply_to: MessageId) -> bool {
    reply_to == d.wordle_msg_id && d.spec_is_awaiting_response()
}

/// What a contract reply does to one record: an accepted reply is cached for
/// the suspended call and the outstanding request is cleared; a stale one -
/// wrong request, or no reply awaited (in particular, a session already
/// concluded by the watchdog) - changes nothing.
pub open spec fn reply_step(
    d: SessionDetails,
    reply_to: MessageId,
    event: WordleContractEvent,
) -> SessionDetails {
    if reply_accepted(d, reply_to) {
        SessionDetails {
            wordle_msg_id: 0,
            current_state: SessionState::ResponseReceived(event),
            ..d
        }
    } else {
        d
    }
}

/// Whether a watchdog tick still applies: it was armed for the game the
/// record is in, and that game has not concluded.
pub open spec fn timeout_fires(d: SessionDetails, session_id: MessageId) -> bool {
    session_id == d.session_id && !(d.current_state is Concluded)
}

/// What a watchdog tick does to one record: a tick that still applies forces
/// the game to a defeat and clears any outstanding request, so that a late
/// contract reply finds nothing to answer; a stale tick changes nothing.
pub open spec fn timeout_step(d: SessionDetails, session_id: MessageId) -> SessionDetails {
    if timeout_fires(d, session_id) {
        SessionDetails {
            wordle_msg_id: 0,
            current_state: SessionState::Concluded(GameOutcome::Defeat),
            ..d
        }
    } else {
        d
    }
}

/// The store changed exactly at `player`, whose record is now `d`, and the
/// contract address is untouched.
pub open spec fn store_updated(
    pre: GameSession,
    post: GameSession,
    player: ActorId,
    d: SessionDetails,
) -> bool {
    &&& post.wordle_contract_id == pre.wordle_contract_id
    &&& post.session_of(player) == Some(d)
    &&& forall|p: ActorId| p != player ==> #[trigger] post.session_of(p) == pre.session_of(p)
}

/// Contract of [`handle_initiate_game`]: on success the player's record
/// (fresh if absent) moved by [`initiate_step`] and the effects are
/// [`initiate_effects`]; on failure the step rejects with the same error and
/// the store is untouched.
pub open spec fn initiate_post(
    pre: GameSession,
    post: GameSession,
    player: ActorId,
    msg_id: MessageId,
    wordle_msg_id: MessageId,
    r: Result<Vec<Effect>, SessionError>,
) -> bool {
    let before = pre.session_view(player);
    match r {
        Ok(effects) => {
            &&& initiate_step(before, msg_id, wordle_msg_id) matches Ok(d) && store_updated(
                pre,
                post,
                player,
                d,
            )
            &&& effects@ == initiate_effects(before, player, msg_id)
        },
        Err(e) => {
            &&& post == pre
            &&& initiate_step(before, msg_id, wordle_msg_id) == Err::<SessionDetails, _>(e)
        },
    }
}

/// Contract of [`handle_verify_guess`], in the same shape.
pub open spec fn verify_post(
    pre: GameSession,
    post: GameSession,
    player: ActorId,
    msg_id: MessageId,
    wordle_msg_id: MessageId,
    guess: String,
    r: Result<Vec<Effect>, SessionError>,
) -> bool {
    let before = pre.session_view(player);
    match r {
        Ok(effects) => {
            &&& verify_step(before, guess@, msg_id, wordle_msg_id) matches Ok(d) && store_updated(
                pre,
                post,
                player,
                d,
            )
            &&& verify_effects(before, player, guess, effects@)
        },
        Err(e) => {
            &&& post == pre
            &&& verify_step(before, guess@, msg_id, wordle_msg_id) == Err::<SessionDetails, _>(e)
        },
    }
}

/// Contract of [`handle_check_session_status`]: a tick from the orchestrator
/// itself, for a stored record it still applies to, moves that record by
/// [`timeout_step`] and notifies the player of the forced loss; anything
/// else - a foreign caller, an unknown player, a stale tick - is a silent
/// no-op.
pub open spec fn timeout_post(
    pre: GameSession,
    post: GameSession,
    caller: ActorId,
    program_id: ActorId,
    player: ActorId,
    session_id: MessageId,
    effects: Seq<Effect>,
) -> bool {
    match pre.session_of(player) {
        Some(d) => if caller == program_id && timeout_fires(d, session_id) {
            &&& store_updated(pre, post, player, timeout_step(d, session_id))
            &&& effects == seq![
                Effect::Notify {
                    player,
                    event: GameSessionEvent::GameConcluded(GameOutcome::Defeat),
                },
            ]
        } else {
            post == pre && effects == Seq::<Effect>::empty()
        },
        None => post == pre && effects == Seq::<Effect>::empty(),
    }
}

/// Contract of [`handle_reply`]: a reply for a known player that answers the
/// awaited request is cached by [`reply_step`] and the suspended call is
/// woken; a stale reply, or one for an unknown player, is a silent no-op.
pub open spec fn reply_post(
    pre: GameSession,
    post: GameSession,
    reply_to: MessageId,
    event: WordleContractEvent,
    effects: Seq<Effect>,
) -> bool {
    match pre.session_of(event.spec_player()) {
        Some(d) => if reply_accepted(d, reply_to) {
            &&& store_updated(pre, post, event.spec_player(), reply_step(d, reply_to, event))
            &&& effects == seq![Effect::Wake { message_id: d.original_msg_id }]
        } else {
            post == pre && effects == Seq::<Effect>::empty()
        },
        None => post == pre && effects == Seq::<Effect>::empty(),
    }
}

/// Handles a player's request to start a game.
///
/// `player` is the caller, `msg_id` the identity of this call, and
/// `wordle_msg_id` the identity the transport will assign to the outbound
/// start request if one is sent.
pub fn handle_initiate_game(
    session: &mut GameSession,
    player: ActorId,
    msg_id: MessageId,
    wordle_msg_id: MessageId,
) -> (r: Result<Vec<Effect>, SessionError>)
    requires
        old(session).wf(),
        msg_id != 0,
        wordle_msg_id != 0,
    ensures
        final(session).wf(),
        initiate_post(*old(session), *final(session), player, msg_id, wordle_msg_id, r),
{
    let ghost pre = *session;
    let idx = find_session(&session.active_sessions, player);
    match idx {
        Some(i) => {
            proof {
                lemma_store_lookup_at_index(session.active_sessions@, i as int);
            }
            let resume_init = matches!(
                &session.active_sessions[i].1.current_state,
                SessionState::ResponseReceived(WordleContractEvent::GameInitiated { .. })
            );
            let fresh = matches!(
                &session.active_sessions[i].1.current_state,
                SessionState::Initialized | SessionState::Concluded(_)
                    | SessionState::AwaitingWordleInitResponse
            );
            if fresh {
                let nd = SessionDetails {
                    session_id: msg_id,
                    original_msg_id: msg_id,
                    wordle_msg_id: wordle_msg_id,
                    attempt_count: 0,
                    current_state: SessionState::AwaitingWordleInitResponse,
                };
                session.active_sessions[i] = (player, nd);
                proof {
                    lemma_store_lookup_update(pre.active_sessions@, i as int, nd);
                }
                let mut effects: Vec<Effect> = Vec::new();
                effects.push(
                    Effect::SendWordle { action: WordleContractAction::InitiateGame { player } },
                );
                effects.push(
                    Effect::ScheduleTimeout { player, session_id: msg_id, delay: TIMEOUT_DELAY },
                );
                effects.push(Effect::Wait);
                proof {
                    assert(effects@ =~= initiate_effects(pre.session_view(player), player, msg_id));
                }
                Ok(effects)
            } else if resume_init {
                let sid = session.active_sessions[i].1.session_id;
                let omid = session.active_sessions[i].1.original_msg_id;
                let wmid = session.active_sessions[i].1.wordle_msg_id;
                let att = session.active_sessions[i].1.attempt_count;
                let nd = SessionDetails {
                    session_id: sid,
                    original_msg_id: omid,
                    wordle_msg_id: wmid,
                    attempt_count: att,
                    current_state: SessionState::AwaitingPlayerInput,
                };
                session.active_sessions[i] = (player, nd);
                proof {
                    lemma_store_lookup_update(pre.active_sessions@, i as int, nd);
                }
                let mut effects: Vec<Effect> = Vec::new();
                effects.push(Effect::Reply { event: GameSessionEvent::GameInitiated });
                proof {
                    assert(effects@ =~= initiate_effects(pre.session_view(player), player, msg_id));
                }
                Ok(effects)
            } else {
                Err(SessionError::ProtocolViolation)
            }
        },
        None => {
            proof {
                lemma_store_lookup_absent(session.active_sessions@, player);
            }
            let nd = SessionDetails {
                session_id: msg_id,
                original_msg_id: msg_id,
                wordle_msg_id: wordle_msg_id,
                attempt_count: 0,
                current_state: SessionState::AwaitingWordleInitResponse,
            };
            session.active_sessions.push((player, nd));
            proof {
                lemma_store_lookup_push(pre.active_sessions@, player, nd);
            }
            let mut effects: Vec<Effect> = Vec::new();
            effects.push(
                Effect::SendWordle { action: WordleContractAction::InitiateGame { player } },
            );
            effects.push(
                Effect::ScheduleTimeout { player, session_id: msg_id, delay: TIMEOUT_DELAY },
            );
            effects.push(Effect::Wait);
            proof {
                assert(effects@ =~= initiate_effects(pre.session_view(player), player, msg_id));
            }
            Ok(effects)
        },
    }
}

/// Handles a player's guess.
///
/// `player` is the caller, `msg_id` the identity of this call, and
/// `wordle_msg_id` the identity the transport will assign to the outbound
/// verification request if one is sent.
pub fn handle_verify_guess(
    session: &mut GameSession,
    player: ActorId,
    msg_id: MessageId,
    wordle_msg_id: MessageId,
    guess: String,
) -> (r: Result<Vec<Effect>, SessionError>)
    requires
        old(session).wf(),
        msg_id != 0,
        wordle_msg_id != 0,
    ensures
        final(session).wf(),
        verify_post(*old(session), *final(session), player, msg_id, wordle_msg_id, guess, r),
{
    let ghost pre = *session;
    let idx = find_session(&session.active_sessions, player);
    match idx {
        Some(i) => {
            proof {
                lemma_store_lookup_at_index(session.active_sessions@, i as int);
            }
            let consuming = matches!(
                &session.active_sessions[i].1.current_state,
                SessionState::ResponseReceived(WordleContractEvent::GuessVerified { .. })
            );
            let playable = matches!(
                &session.active_sessions[i].1.current_state,
                SessionState::AwaitingPlayerInput | SessionState::AwaitingWordleGuessResponse
            );
            if consuming {
                let sid = session.active_sessions[i].1.session_id;
                let omid = session.active_sessions[i].1.original_msg_id;
                let wmid = session.active_sessions[i].1.wordle_msg_id;
                let att = session.active_sessions[i].1.attempt_count;
                let n = att + 1;
                let correct = match &session.active_sessions[i].1.current_state {
                    SessionState::ResponseReceived(e) => e.is_correct_guess(),
                    _ => false,
                };
                let reply: GameSessionEvent = if correct {
                    GameSessionEvent::GameConcluded(GameOutcome::Victory)
                } else if n == MAX_ATTEMPTS {
                    GameSessionEvent::GameConcluded(GameOutcome::Defeat)
                } else {
                    match &session.active_sessions[i].1.current_state {
                        SessionState::ResponseReceived(e) => GameSessionEvent::from(e),
                        _ => GameSessionEvent::GameInitiated,
                    }
                };
                let nd = SessionDetails {
                    session_id: sid,
                    original_msg_id: omid,
                    wordle_msg_id: wmid,
                    attempt_count: n,
                    current_state: if correct {
                        SessionState::Concluded(GameOutcome::Victory)
                    } else if n == MAX_ATTEMPTS {
                        SessionState::Concluded(GameOutcome::Defeat)
                    } else {
                        SessionState::AwaitingPlayerInput
                    },
                };
                session.active_sessions[i] = (player, nd);
                proof {
                    lemma_store_lookup_update(pre.active_sessions@, i as int, nd);
                }
                let mut effects: Vec<Effect> = Vec::new();
                effects.push(Effect::Reply { event: reply });
                Ok(effects)
            } else if playable {
                if !guess_is_valid(&guess) {
                    return Err(SessionError::ValidationError);
                }
                let sid = session.active_sessions[i].1.session_id;
                let att = session.active_sessions[i].1.attempt_count;
                let nd = SessionDetails {
                    session_id: sid,
                    original_msg_id: msg_id,
                    wordle_msg_id: wordle_msg_id,
                    attempt_count: att,
                    current_state: SessionState::AwaitingWordleGuessResponse,
                };
                session.active_sessions[i] = (player, nd);
                proof {
                    lemma_store_lookup_update(pre.active_sessions@, i as int, nd);
                }
                let mut effects: Vec<Effect> = Vec::new();
                effects.push(
                    Effect::SendWordle {
                        action: WordleContractAction::VerifyGuess { player, guess },
                    },
                );
                effects.push(Effect::Wait);
                Ok(effects)
            } else {
                Err(SessionError::ProtocolViolation)
            }
        },
        None => {
            proof {
                lemma_store_lookup_absent(session.active_sessions@, player);
            }
            Err(SessionError::ProtocolViolation)
        },
    }
}

/// Handles a reply from the word-scoring contract.
///
/// `reply_to` is the identity of the request this reply answers, as reported
/// by the transport.  An accepted reply is cached and the suspended call is
/// woken to consume it; a stale one is dropped without a trace.
pub fn handle_reply(
    session: &mut GameSession,
    reply_to: MessageId,
    event: WordleContractEvent,
) -> (effects: Vec<Effect>)
    requires
        old(session).wf(),
    ensures
        final(session).wf(),
        reply_post(*old(session), *final(session), reply_to, event, effects@),
{
    let ghost pre = *session;
    let player = *event.get_player();
    let idx = find_session(&session.active_sessions, player);
    match idx {
        Some(i) => {
            proof {
                lemma_store_lookup_at_index(session.active_sessions@, i as int);
            }
            let accepted = session.active_sessions[i].1.is_awaiting_response() && reply_to
                == session.active_sessions[i].1.wordle_msg_id;
            if accepted {
                let sid = session.active_sessions[i].1.session_id;
                let omid = session.active_sessions[i].1.original_msg_id;
                let att = session.active_sessions[i].1.attempt_count;
                let nd = SessionDetails {
                    session_id: sid,
                    original_msg_id: omid,
                    wordle_msg_id: 0,
                    attempt_count: att,
                    current_state: SessionState::ResponseReceived(event),
                };
                session.active_sessions[i] = (player, nd);
                proof {
                    lemma_store_lookup_update(pre.active_sessions@, i as int, nd);
                }
                let mut effects: Vec<Effect> = Vec::new();
                effects.push(Effect::Wake { message_id: omid });
                proof {
                    assert(effects@ =~= seq![Effect::Wake { message_id: omid }]);
                }
                effects
            } else {
                let effects: Vec<Effect> = Vec::new();
                effects
            }
        },
        None => {
            proof {
                lemma_store_lookup_absent(session.active_sessions@, player);
            }
            let effects: Vec<Effect> = Vec::new();
            effects
        },
    }
}

/// Handles a watchdog tick.
///
/// `caller` is who sent the tick and `program_id` the orchestrator's own
/// address: the tick is honoured only when self-addressed.  A tick armed for
/// the game the player is still in forces the game to a defeat and tells the
/// player; any stale tick - the player has since started a newer game, or the
/// game already concluded - is a silent no-op, as is one for an unknown
/// player.
pub fn handle_check_session_status(
    session: &mut GameSession,
    caller: ActorId,
    program_id: ActorId,
    player: ActorId,
    session_id: MessageId,
) -> (effects: Vec<Effect>)
    requires
        old(session).wf(),
    ensures
        final(session).wf(),
        timeout_post(
            *old(session),
            *final(session),
            caller,
            program_id,
            player,
            session_id,
            effects@,
        ),
{
    let ghost pre = *session;
    let idx = find_session(&session.active_sessions, player);
    match idx {
        Some(i) => {
            proof {
                lemma_store_lookup_at_index(session.active_sessions@, i as int);
            }
            let fires = caller == program_id && session_id
                == session.active_sessions[i].1.session_id && !matches!(
                &session.active_sessions[i].1.current_state,
                SessionState::Concluded(_)
            );
            if fires {
                let sid = session.active_sessions[i].1.session_id;
                let omid = session.active_sessions[i].1.original_msg_id;
                let att = session.active_sessions[i].1.attempt_count;
                let nd = SessionDetails {
                    session_id: sid,
                    original_msg_id: omid,
                    wordle_msg_id: 0,
                    attempt_count: att,
                    current_state: SessionState::Concluded(GameOutcome::Defeat),
                };
                session.active_sessions[i] = (player, nd);
                proof {
                    lemma_store_lookup_update(pre.active_sessions@, i as int, nd);
                }
                let mut effects: Vec<Effect> = Vec::new();
                effects.push(
                    Effect::Notify {
                        player,
                        event: GameSessionEvent::GameConcluded(GameOutcome::Defeat),
                    },
                );
                proof {
                    assert(effects@ =~= seq![
                        Effect::Notify {
                            player,
                            event: GameSessionEvent::GameConcluded(GameOutcome::Defeat),
                        },
                    ]);
                }
                effects
            } else {
                let effects: Vec<Effect> = Vec::new();
                effects
            }
        },
        None => {
            proof {
                lemma_store_lookup_absent(session.active_sessions@, player);
            }
            let effects: Vec<Effect> = Vec::new();
            effects
        },
    }
}

/// Contract of [`handle`]: each action is handled exactly as by its own
/// handler; the watchdog arm never fails.
pub open spec fn handle_post(
    pre: GameSession,
    post: GameSession,
    source: ActorId,
    msg_id: MessageId,
    wordle_msg_id: MessageId,
    program_id: ActorId,
    action: GameSessionAction,
    r: Result<Vec<Effect>, SessionError>,
) -> bool {
    match action {
        GameSessionAction::InitiateGame => initiate_post(
            pre,
            post,
            source,
            msg_id,
            wordle_msg_id,
            r,
        ),
        GameSessionAction::VerifyGuess { guess } => verify_post(
            pre,
            post,
            source,
            msg_id,
            wordle_msg_id,
            guess,
            r,
        ),
        GameSessionAction::CheckSessionStatus { player, session_id } => r matches Ok(effects)
            && timeout_post(pre, post, source, program_id, player, session_id, effects@),
    }
}

/// Decodes nothing and sends nothing: dispatches an already-decoded player
/// action to its handler.
///
/// `source` is the caller, `msg_id` the identity of this call,
/// `wordle_msg_id` the identity the transport will assign to an outbound
/// contract request if one is sent, and `program_id` the orchestrator's own
/// address.
pub fn handle(
    session: &mut GameSession,
    source: ActorId,
    msg_id: MessageId,
    wordle_msg_id: MessageId,
    program_id: ActorId,
    action: GameSessionAction,
) -> (r: Result<Vec<Effect>, SessionError>)
    requires
        old(session).wf(),
        msg_id != 0,
        wordle_msg_id != 0,
    ensures
        final(session).wf(),
        handle_post(
            *old(session),
            *final(session),
            source,
            msg_id,
            wordle_msg_id,
            program_id,
            action,
            r,
        ),
{
    match action {
        GameSessionAction::InitiateGame => handle_initiate_game(
            session,
            source,
            msg_id,
            wordle_msg_id,
        ),
        GameSessionAction::VerifyGuess { guess } => handle_verify_guess(
            session,
            source,
            msg_id,
            wordle_msg_id,
            guess,
        ),
        GameSessionAction::CheckSessionStatus { player, session_id } => Ok(
            handle_check_session_status(session, source, program_id, player, session_id),
        ),
    }
}

/// Creates the orchestrator from its configuration; a configuration without
/// a contract address is rejected and nothing is created.
pub fn init(params: GameSessionInit) -> (r: Result<GameSession, SessionError>)
    ensures
        params.spec_is_valid() ==> (r matches Ok(s) && s.wordle_contract_id
            == params.wordle_contract_id && s.active_sessions@ == Seq::<
            (ActorId, SessionDetails),
        >::empty() && s.wf()),
        !params.spec_is_valid() ==> r == Err::<GameSession, _>(SessionError::ValidationError),
{
    match params.validate() {
        Ok(_) => Ok(GameSession::from(params)),
        Err(e) => Err(e),
    }
}

/// Answers the state query: a read-only snapshot of the whole store.
pub fn state(session: &GameSession) -> (s: GameSessionState)
    ensures
        crate::session::snapshot_matches(*session, s),
{
    GameSessionState::from(session)
}

} // verus!
