//! Message types and per-player session records.
//!
//! These are the values that cross the orchestrator's boundary: what a player
//! may ask for, what the external word-scoring contract is asked and answers,
//! what the player is told, and the record the orchestrator keeps for each
//! player between messages.

use vstd::prelude::*;

verus! {

/// Identity of an actor (a player or a program) on the transport.
/// Zero is reserved and stands for "not set".
pub type ActorId = u64;

/// Identity the transport assigns to a message.
/// Zero is reserved and stands for "not set".
pub type MessageId = u64;

/// Most guesses a single game allows before it is lost.
pub const MAX_ATTEMPTS: u8 = 5;

/// Everything an orchestrator rejects a call with.
///
/// A malformed input is a `ValidationError`; a call that is legal in itself
/// but illegal in the session's current phase is a `ProtocolViolation`.
/// Either is reported synchronously and mutates nothing.  Stale events (a
/// late service reply, a watchdog tick for a superseded game) are not errors:
/// they are silently ignored.
#[derive(Debug, Clone, Copy, PartialEq, Eq, Structural)]
pub enum SessionError {
    ValidationError,
    ProtocolViolation,
}

/// Configuration the orchestrator is created with.
#[derive(Debug, Clone, Copy, PartialEq, Eq, Structural)]
pub struct GameSessionInit {
    /// Address of the external word-scoring contract.
    pub wordle_contract_id: ActorId,
}

impl GameSessionInit {
    /// A configuration is valid exactly when the contract address is set.
    pub open spec fn spec_is_valid(self) -> bool {
        self.wordle_contract_id != 0
    }

    /// Checks the configuration; an unset contract address is rejected.
    pub fn validate(&self) -> (r: Result<(), SessionError>)
        ensures
            r is Ok <==> self.spec_is_valid(),
            r is Err ==> r == Err::<(), SessionError>(SessionError::ValidationError),
    {
        if self.wordle_contract_id != 0 {
            Ok(())
        } else {
            Err(SessionError::ValidationError)
        }
    }
}

/// A player's request to the orchestrator.
#[derive(Debug, Clone, PartialEq, Eq)]
pub enum GameSessionAction {
    /// Start a new game (or restart after a concluded one).
    InitiateGame,
    /// Submit a five-letter guess for the current game.
    VerifyGuess { guess: String },
    /// Watchdog tick: self-addressed, scheduled at game start, carrying the
    /// session the watchdog was armed for.
    CheckSessionStatus { player: ActorId, session_id: MessageId },
}

/// A request the orchestrator sends to the word-scoring contract.
#[derive(Debug, Clone, PartialEq, Eq)]
pub enum WordleContractAction {
    InitiateGame { player: ActorId },
    VerifyGuess { player: ActorId, guess: String },
}

/// The outcome of a concluded game.
#[derive(Debug, Clone, Copy, PartialEq, Eq, Structural)]
pub enum GameOutcome {
    Victory,
    Defeat,
}

/// What the orchestrator tells the player.
#[derive(Debug, Clone, PartialEq, Eq)]
pub enum GameSessionEvent {
    /// The game is ready for the first guess.
    GameInitiated,
    /// The per-letter result of a guess: the positions guessed exactly, and
    /// the positions whose letter occurs elsewhere in the word.
    GuessResult { correct_positions: Vec<u8>, present_letters: Vec<u8> },
    /// The game is over.
    GameConcluded(GameOutcome),
}

/// A reply from the word-scoring contract.
#[derive(Debug, PartialEq, Eq)]
pub enum WordleContractEvent {
    GameInitiated { player: ActorId },
    GuessVerified { player: ActorId, correct_positions: Vec<u8>, present_letters: Vec<u8> },
}

/// The positions of a fully correct five-letter guess.
pub open spec fn all_positions() -> Seq<u8> {
    seq![0u8, 1u8, 2u8, 3u8, 4u8]
}

/// Structural equality of contract replies, comparing the payload vectors by
/// their contents.
pub open spec fn event_matches(a: WordleContractEvent, b: WordleContractEvent) -> bool {
    match (a, b) {
        (
            WordleContractEvent::GameInitiated { player: pa },
            WordleContractEvent::GameInitiated { player: pb },
        ) => pa == pb,
        (
            WordleContractEvent::GuessVerified {
                player: pa,
                correct_positions: ca,
                present_letters: la,
            },
            WordleContractEvent::GuessVerified {
                player: pb,
                correct_positions: cb,
                present_letters: lb,
            },
        ) => pa == pb && ca@ == cb@ && la@ == lb@,
        _ => false,
    }
}

/// The client-facing event a cached contract reply is translated to: a start
/// reply becomes `GameInitiated`, a guess reply becomes a `GuessResult`
/// carrying the same position lists.
pub open spec fn session_event_for(e: WordleContractEvent, ge: GameSessionEvent) -> bool {
    match e {
        WordleContractEvent::GameInitiated { .. } => ge is GameInitiated,
        WordleContractEvent::GuessVerified { correct_positions, present_letters, .. } => {
            &&& ge matches GameSessionEvent::GuessResult { correct_positions: cp, present_letters: pl }
            &&& cp@ == correct_positions@
            &&& pl@ == present_letters@
        },
    }
}

/// Copies a byte vector element by element.
fn clone_bytes(v: &Vec<u8>) -> (r: Vec<u8>)
    ensures
        r@ == v@,
{
    let mut r: Vec<u8> = Vec::new();
    let mut i: usize = 0;
    while i < v.len()
        invariant
            i <= v@.len(),
            r@ == v@.subrange(0, i as int),
        decreases v@.len() - i,
    {
        r.push(v[i]);
        i = i + 1;
    }
    proof {
        assert(r@ =~= v@);
    }
    r
}

impl WordleContractEvent {
    /// The player this reply concerns.
    pub open spec fn spec_player(self) -> ActorId {
        match self {
            WordleContractEvent::GameInitiated { player } => player,
            WordleContractEvent::GuessVerified { player, .. } => player,
        }
    }

    /// The player this reply concerns.
    pub fn get_player(&self) -> (r: &ActorId)
        ensures
            *r == self.spec_player(),
    {
        match self {
            WordleContractEvent::GameInitiated { player } => player,
            WordleContractEvent::GuessVerified { player, .. } => player,
        }
    }

    /// A guess reply reports a win exactly when every one of the five
    /// positions was guessed exactly.
    pub open spec fn spec_is_correct_guess(self) -> bool
        recommends
            self is GuessVerified,
    {
        self->GuessVerified_correct_positions@ == all_positions()
    }

    /// Whether a guess reply reports a fully correct guess.
    ///
    /// Asking this of a start reply is meaningless, so it is ruled out.
    pub fn is_correct_guess(&self) -> (r: bool)
        requires
            self is GuessVerified,
        ensures
            r == self.spec_is_correct_guess(),
    {
        match self {
            WordleContractEvent::GameInitiated { .. } => false,
            WordleContractEvent::GuessVerified { correct_positions, .. } => {
                let r = correct_positions.len() == 5 && correct_positions[0] == 0
                    && correct_positions[1] == 1 && correct_positions[2] == 2
                    && correct_positions[3] == 3 && correct_positions[4] == 4;
                proof {
                    if r {
                        assert(correct_positions@ =~= all_positions());
                    } else {
                        assert(correct_positions@ != all_positions()) by {
                            if correct_positions@ == all_positions() {
                                assert(correct_positions@.len() == 5);
                                assert(correct_positions@[0] == 0u8);
                                assert(correct_positions@[1] == 1u8);
                                assert(correct_positions@[2] == 2u8);
                                assert(correct_positions@[3] == 3u8);
                                assert(correct_positions@[4] == 4u8);
                            }
                        }
                    }
                }
                r
            },
        }
    }
}

impl Clone for WordleContractEvent {
    /// The copy carries the same player and the same position lists.
    fn clone(&self) -> (r: Self)
        ensures
            event_matches(*self, r),
    {
        match self {
            WordleContractEvent::GameInitiated { player } => {
                WordleContractEvent::GameInitiated { player: *player }
            },
            WordleContractEvent::GuessVerified { player, correct_positions, present_letters } => {
                WordleContractEvent::GuessVerified {
                    player: *player,
                    correct_positions: clone_bytes(correct_positions),
                    present_letters: clone_bytes(present_letters),
                }
            },
        }
    }
}

impl From<&WordleContractEvent> for GameSessionEvent {
    /// Translates a contract reply to the event the player sees; the position
    /// lists of a guess reply are carried over unchanged.
    fn from(e: &WordleContractEvent) -> (r: Self)
        ensures
            session_event_for(*e, r),
    {
        match e {
            WordleContractEvent::GameInitiated { .. } => GameSessionEvent::GameInitiated,
            WordleContractEvent::GuessVerified { correct_positions, present_letters, .. } => {
                GameSessionEvent::GuessResult {
                    correct_positions: clone_bytes(correct_positions),
                    present_letters: clone_bytes(present_letters),
                }
            },
        }
    }
}

impl vstd::std_specs::convert::FromSpecImpl<&WordleContractEvent> for GameSessionEvent {
    /// The payload vectors are copied, and a copy of a vector need not be
    /// spec-equal to the original, so the exact-value equation is disclaimed;
    /// the `ensures` of `from` says everything at the level of contents.
    open spec fn obeys_from_spec() -> bool {
        false
    }

    open spec fn from_spec(e: &WordleContractEvent) -> GameSessionEvent {
        match *e {
            WordleContractEvent::GameInitiated { .. } => GameSessionEvent::GameInitiated,
            WordleContractEvent::GuessVerified { correct_positions, present_letters, .. } => {
                GameSessionEvent::GuessResult { correct_positions, present_letters }
            },
        }
    }
}

/// The phase a player's session is in.  Exactly one is active at a time, and
/// sessions move between phases only through the orchestrator's transitions.
#[derive(Debug, PartialEq, Eq)]
pub enum SessionState {
    /// No game started yet.
    Initialized,
    /// A game is running and the player may act.
    AwaitingPlayerInput,
    /// A start request was sent to the contract; the starting call is
    /// suspended until the reply arrives.
    AwaitingWordleInitResponse,
    /// A guess was sent to the contract; the guessing call is suspended until
    /// the reply arrives.
    AwaitingWordleGuessResponse,
    /// The contract replied while a call was suspended; the reply is cached
    /// here for that call to consume when it resumes.
    ResponseReceived(WordleContractEvent),
    /// The game is over; a new one may be started.
    Concluded(GameOutcome),
}

/// Structural equality of phases, comparing cached replies by their contents.
pub open spec fn state_matches(a: SessionState, b: SessionState) -> bool {
    match (a, b) {
        (SessionState::Initialized, SessionState::Initialized) => true,
        (SessionState::AwaitingPlayerInput, SessionState::AwaitingPlayerInput) => true,
        (SessionState::AwaitingWordleInitResponse, SessionState::AwaitingWordleInitResponse) => true,
        (
            SessionState::AwaitingWordleGuessResponse,
            SessionState::AwaitingWordleGuessResponse,
        ) => true,
        (SessionState::ResponseReceived(ea), SessionState::ResponseReceived(eb)) => event_matches(
            ea,
            eb,
        ),
        (SessionState::Concluded(oa), SessionState::Concluded(ob)) => oa == ob,
        _ => false,
    }
}

impl Clone for SessionState {
    /// The copy is the same phase with the same cached reply, if any.
    fn clone(&self) -> (r: Self)
        ensures
            state_matches(*self, r),
    {
        match self {
            SessionState::Initialized => SessionState::Initialized,
            SessionState::AwaitingPlayerInput => SessionState::AwaitingPlayerInput,
            SessionState::AwaitingWordleInitResponse => SessionState::AwaitingWordleInitResponse,
            SessionState::AwaitingWordleGuessResponse => SessionState::AwaitingWordleGuessResponse,
            SessionState::ResponseReceived(e) => SessionState::ResponseReceived(e.clone()),
            SessionState::Concluded(o) => SessionState::Concluded(*o),
        }
    }
}

impl Default for SessionState {
    fn default() -> (r: Self)
        ensures
            r is Initialized,
    {
        SessionState::Initialized
    }
}

/// Everything the orchestrator remembers about one player between messages.
#[derive(Debug, PartialEq, Eq)]
pub struct SessionDetails {
    /// Identity of the call that started the current game; the watchdog
    /// scheduled at that start carries it, and a tick whose identity no
    /// longer matches is stale.
    pub session_id: MessageId,
    /// Identity of the player's call that is currently suspended; the call to
    /// wake when the awaited reply arrives.
    pub original_msg_id: MessageId,
    /// Identity of the outstanding request to the contract; a reply is
    /// accepted only if it answers exactly this request.  Zero whenever no
    /// request is outstanding.
    pub wordle_msg_id: MessageId,
    /// Guesses resolved in the current game, at most [`MAX_ATTEMPTS`].
    pub attempt_count: u8,
    /// The session's phase.
    pub current_state: SessionState,
}

/// The record a player starts with: nothing sent, nothing counted.
pub open spec fn default_details() -> SessionDetails {
    SessionDetails {
        session_id: 0,
        original_msg_id: 0,
        wordle_msg_id: 0,
        attempt_count: 0,
        current_state: SessionState::Initialized,
    }
}

/// Structural equality of records, comparing cached replies by contents.
pub open spec fn details_matches(a: SessionDetails, b: SessionDetails) -> bool {
    &&& a.session_id == b.session_id
    &&& a.original_msg_id == b.original_msg_id
    &&& a.wordle_msg_id == b.wordle_msg_id
    &&& a.attempt_count == b.attempt_count
    &&& state_matches(a.current_state, b.current_state)
}

impl SessionDetails {
    /// Whether a reply from the contract is currently awaited.
    pub open spec fn spec_is_awaiting_response(&self) -> bool {
        self.current_state is AwaitingWordleInitResponse || self.current_state
            is AwaitingWordleGuessResponse
    }

    /// Whether a reply from the contract is currently awaited.
    #[verifier::when_used_as_spec(spec_is_awaiting_response)]
    pub fn is_awaiting_response(&self) -> (r: bool)
        ensures
            r == self.spec_is_awaiting_response(),
    {
        matches!(
            self.current_state,
            SessionState::AwaitingWordleInitResponse | SessionState::AwaitingWordleGuessResponse
        )
    }

    /// Whether the session carries a started, not yet concluded game whose
    /// start request has already been answered.
    pub open spec fn in_live_game(&self) -> bool {
        self.current_state is AwaitingPlayerInput || self.current_state
            is AwaitingWordleGuessResponse || self.current_state is ResponseReceived
    }

    /// The record's internal invariant.
    ///
    /// A request to the contract is outstanding exactly while a reply is
    /// awaited; while one is awaited, and throughout a live game, the
    /// suspended call and the session are known; a game being started has
    /// nothing counted yet; and throughout a live game the attempt budget
    /// leaves room for the next resolved guess.
    pub open spec fn wf(self) -> bool {
        &&& self.attempt_count <= MAX_ATTEMPTS
        &&& self.wordle_msg_id != 0 <==> self.spec_is_awaiting_response()
        &&& self.spec_is_awaiting_response() ==> self.original_msg_id != 0 && self.session_id != 0
        &&& self.current_state is AwaitingWordleInitResponse ==> self.attempt_count == 0
        &&& self.in_live_game() ==> self.attempt_count < MAX_ATTEMPTS && self.original_msg_id != 0
            && self.session_id != 0
    }
}

impl Clone for SessionDetails {
    /// The copy carries the same identities, count and phase.
    fn clone(&self) -> (r: Self)
        ensures
            details_matches(*self, r),
    {
        SessionDetails {
            session_id: self.session_id,
            original_msg_id: self.original_msg_id,
            wordle_msg_id: self.wordle_msg_id,
            attempt_count: self.attempt_count,
            current_state: self.current_state.clone(),
        }
    }
}

impl Default for SessionDetails {
    fn default() -> (r: Self)
        ensures
            r == default_details(),
    {
        SessionDetails {
            session_id: 0,
            original_msg_id: 0,
            wordle_msg_id: 0,
            attempt_count: 0,
            current_state: SessionState::Initialized,
        }
    }
}

} // verus!
