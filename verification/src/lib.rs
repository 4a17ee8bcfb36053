//! A session orchestrator for a word-guessing game played against an external
//! scoring service over an asynchronous message-passing transport.
//!
//! The library is the orchestration core: per-player session records, the
//! request/reply correlation that matches a service reply to the suspended
//! call that caused it, attempt-limit enforcement, and watchdog-driven
//! recovery when the service never replies.  Every entry point is a pure
//! transition: it takes the store, the identities the transport assigned to
//! the messages involved, and the decoded message, mutates the store, and
//! returns the side effects (sends, replies, suspensions, wake-ups) for the
//! host to perform.  The host loop itself - decoding, sending, waiting - is
//! not part of the library.

mod laws;
mod machine;
mod protocol;
mod session;

pub use laws::lemma_attempt_monotonic;
pub use laws::lemma_guesses_conclude;
pub use laws::lemma_stale_reply_is_noop;
pub use laws::lemma_stale_timeout_is_noop;
pub use laws::lemma_steps_preserve_wf;
pub use laws::lemma_timeout_concludes;

pub use machine::guess_is_valid;
pub use machine::guess_reply_for;
pub use machine::handle;
pub use machine::handle_check_session_status;
pub use machine::handle_initiate_game;
pub use machine::handle_post;
pub use machine::handle_reply;
pub use machine::handle_verify_guess;
pub use machine::init;
pub use machine::state;
pub use machine::initiate_effects;
pub use machine::initiate_post;
pub use machine::initiate_step;
pub use machine::is_lowercase_letter;
pub use machine::reply_accepted;
pub use machine::reply_post;
pub use machine::reply_step;
pub use machine::store_updated;
pub use machine::timeout_fires;
pub use machine::timeout_post;
pub use machine::timeout_step;
pub use machine::valid_guess;
pub use machine::verify_effects;
pub use machine::verify_post;
pub use machine::verify_step;
pub use machine::Effect;
pub use machine::TIMEOUT_DELAY;

pub use protocol::all_positions;
pub use protocol::default_details;
pub use protocol::details_matches;
pub use protocol::event_matches;
pub use protocol::session_event_for;
pub use protocol::state_matches;
pub use protocol::ActorId;
pub use protocol::GameOutcome;
pub use protocol::GameSessionAction;
pub use protocol::GameSessionEvent;
pub use protocol::GameSessionInit;
pub use protocol::MessageId;
pub use protocol::SessionDetails;
pub use protocol::SessionError;
pub use protocol::SessionState;
pub use protocol::WordleContractAction;
pub use protocol::WordleContractEvent;
pub use protocol::MAX_ATTEMPTS;
pub use session::details_wf_check;
pub use session::find_session;
pub use session::lemma_store_lookup_absent;
pub use session::lemma_store_lookup_at_index;
pub use session::lemma_store_lookup_push;
pub use session::lemma_store_lookup_update;
pub use session::snapshot_matches;
pub use session::store_keys_unique;
pub use session::store_lookup;
pub use session::GameSession;
pub use session::GameSessionState;
