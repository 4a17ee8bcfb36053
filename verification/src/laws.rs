//! Global guarantees of the state machine, stated and proved over the step
//! functions that the handlers' contracts are written with.

use crate::machine::{
    initiate_step, reply_accepted, reply_step, timeout_step, verify_step,
};
use crate::protocol::{
    MessageId, SessionDetails, SessionState, WordleContractEvent, MAX_ATTEMPTS,
};
use vstd::prelude::*;

verus! {

/// Every step leaves a well-formed record well-formed; in particular a
/// request to the contract stays outstanding exactly while a reply is
/// awaited.  Together with the store's distinct-players invariant, which
/// every handler preserves, this is the store-wide safety property.
pub proof fn lemma_steps_preserve_wf(
    d: SessionDetails,
    msg_id: MessageId,
    wordle_msg_id: MessageId,
    guess: Seq<char>,
    reply_to: MessageId,
    event: WordleContractEvent,
    session_id: MessageId,
)
    requires
        d.wf(),
        msg_id != 0,
        wordle_msg_id != 0,
    ensures
        initiate_step(d, msg_id, wordle_msg_id) matches Ok(n) ==> n.wf(),
        verify_step(d, guess, msg_id, wordle_msg_id) matches Ok(n) ==> n.wf(),
        reply_step(d, reply_to, event).wf(),
        timeout_step(d, session_id).wf(),
{
}

/// A contract reply that does not answer the outstanding request - wrong
/// request identity, or no reply awaited at all - changes nothing: not the
/// phase, not the attempt count, not the outstanding request.
pub proof fn lemma_stale_reply_is_noop(
    d: SessionDetails,
    reply_to: MessageId,
    event: WordleContractEvent,
)
    requires
        !reply_accepted(d, reply_to),
    ensures
        reply_step(d, reply_to, event) == d,
{
}

/// A watchdog tick armed for a superseded game, or arriving after the game
/// concluded, changes nothing.
pub proof fn lemma_stale_timeout_is_noop(d: SessionDetails, session_id: MessageId)
    requires
        session_id != d.session_id || d.current_state is Concluded,
    ensures
        timeout_step(d, session_id) == d,
{
}

/// How the attempt count moves: consuming a cached guess reply counts
/// exactly one attempt; no other step changes the count, except a start
/// accepted from a fresh, concluded or still-starting session, which resets
/// it to zero.
pub proof fn lemma_attempt_monotonic(
    d: SessionDetails,
    msg_id: MessageId,
    wordle_msg_id: MessageId,
    guess: Seq<char>,
    reply_to: MessageId,
    event: WordleContractEvent,
    session_id: MessageId,
)
    requires
        d.wf(),
    ensures
        verify_step(d, guess, msg_id, wordle_msg_id) matches Ok(n) ==> n.attempt_count == (
        if d.current_state is ResponseReceived {
            d.attempt_count + 1
        } else {
            d.attempt_count as int
        }),
        reply_step(d, reply_to, event).attempt_count == d.attempt_count,
        timeout_step(d, session_id).attempt_count == d.attempt_count,
        initiate_step(d, msg_id, wordle_msg_id) matches Ok(n) ==> n.attempt_count == (
        if d.current_state is ResponseReceived {
            d.attempt_count as int
        } else {
            0
        }),
        initiate_step(d, msg_id, wordle_msg_id) matches Ok(n) ==> (!(d.current_state
            is ResponseReceived) ==> d.current_state is Initialized || d.current_state is Concluded
            || d.current_state is AwaitingWordleInitResponse),
{
}

/// The watchdog always makes progress: a tick armed for the game the record
/// is in concludes any game that has not concluded yet, in one step.
pub proof fn lemma_timeout_concludes(d: SessionDetails)
    requires
        !(d.current_state is Concluded),
    ensures
        timeout_step(d, d.session_id).current_state is Concluded,
{
}

/// The player always makes progress: consuming a cached guess reply never
/// fails, and it either concludes the game or counts one more attempt while
/// staying under the budget.  The budget `MAX_ATTEMPTS - attempt_count`
/// strictly shrinks, so at most [`MAX_ATTEMPTS`] resolved guesses conclude
/// any game; the last allowed attempt concludes it unconditionally, as a
/// victory or by exhaustion.
pub proof fn lemma_guesses_conclude(
    d: SessionDetails,
    guess: Seq<char>,
    msg_id: MessageId,
    wordle_msg_id: MessageId,
)
    requires
        d.wf(),
        d.current_state matches SessionState::ResponseReceived(e) && e is GuessVerified,
    ensures
        verify_step(d, guess, msg_id, wordle_msg_id) matches Ok(n) && (n.current_state
            is Concluded || (n.attempt_count == d.attempt_count + 1 && n.attempt_count
            < MAX_ATTEMPTS)),
        d.attempt_count + 1 == MAX_ATTEMPTS ==> (verify_step(
            d,
            guess,
            msg_id,
            wordle_msg_id,
        ) matches Ok(n) && n.current_state is Concluded),
{
}

} // verus!
