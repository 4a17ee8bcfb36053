//! The session store: one record per player, and a read-only snapshot of it.
//!
//! The store is a sequence of `(player, record)` pairs with pairwise distinct
//! players, so a player has at most one record.  Records are created on a
//! player's first accepted action and never removed; a concluded session
//! stays queryable and is reused when the player starts a new game.

use crate::protocol::{
    default_details, details_matches, ActorId, GameSessionInit, SessionDetails, SessionState,
};
use vstd::prelude::*;

verus! {

/// At most one record per player.
pub open spec fn store_keys_unique(s: Seq<(ActorId, SessionDetails)>) -> bool {
    forall|i: int, j: int|
        0 <= i < j < s.len() ==> (#[trigger] s[i]).0 != (#[trigger] s[j]).0
}

/// The record stored for `player`: the first pair carrying that player, if
/// any.  Under [`store_keys_unique`] it is the only one.
pub open spec fn store_lookup(s: Seq<(ActorId, SessionDetails)>, player: ActorId) -> Option<
    SessionDetails,
>
    decreases s.len(),
{
    if s.len() == 0 {
        None
    } else if s[0].0 == player {
        Some(s[0].1)
    } else {
        store_lookup(s.drop_first(), player)
    }
}

/// A player all of whose pairs are absent is not found.
pub proof fn lemma_store_lookup_absent(s: Seq<(ActorId, SessionDetails)>, player: ActorId)
    requires
        forall|j: int| 0 <= j < s.len() ==> (#[trigger] s[j]).0 != player,
    ensures
        store_lookup(s, player) is None,
    decreases s.len(),
{
    if s.len() > 0 {
        assert(s[0].0 != player);
        assert(forall|j: int|
            0 <= j < s.drop_first().len() ==> (#[trigger] s.drop_first()[j]).0 != player) by {
            assert(forall|j: int|
                0 <= j < s.drop_first().len() ==> s.drop_first()[j] == s[j + 1]);
        }
        lemma_store_lookup_absent(s.drop_first(), player);
    }
}

/// With distinct keys, the pair at any index is what lookup finds.
pub proof fn lemma_store_lookup_at_index(s: Seq<(ActorId, SessionDetails)>, i: int)
    requires
        store_keys_unique(s),
        0 <= i < s.len(),
    ensures
        store_lookup(s, s[i].0) == Some(s[i].1),
    decreases i,
{
    if i > 0 {
        assert(s[0].0 != s[i].0);
        let t = s.drop_first();
        assert(forall|j: int| 0 <= j < t.len() ==> t[j] == s[j + 1]);
        assert(store_keys_unique(t));
        lemma_store_lookup_at_index(t, i - 1);
        assert(t[i - 1] == s[i]);
    }
}

/// Replacing the record at an index, key kept, changes that player's lookup
/// to the new record and nobody else's; distinctness of keys is kept.
pub proof fn lemma_store_lookup_update(
    s: Seq<(ActorId, SessionDetails)>,
    i: int,
    d: SessionDetails,
)
    requires
        store_keys_unique(s),
        0 <= i < s.len(),
    ensures
        store_lookup(s.update(i, (s[i].0, d)), s[i].0) == Some(d),
        forall|p: ActorId|
            p != s[i].0 ==> #[trigger] store_lookup(s.update(i, (s[i].0, d)), p) == store_lookup(
                s,
                p,
            ),
        store_keys_unique(s.update(i, (s[i].0, d))),
    decreases s.len(),
{
    let u = s.update(i, (s[i].0, d));
    assert(forall|j: int| 0 <= j < s.len() && j != i ==> u[j] == s[j]);
    assert(store_keys_unique(u));
    if i == 0 {
        assert(u[0] == (s[0].0, d));
        assert(u.drop_first() =~= s.drop_first());
        assert forall|p: ActorId| p != s[i].0 implies #[trigger] store_lookup(u, p)
            == store_lookup(s, p) by {
            assert(store_lookup(u, p) == store_lookup(u.drop_first(), p));
            assert(store_lookup(s, p) == store_lookup(s.drop_first(), p));
        }
    } else {
        assert(u[0] == s[0]);
        let t = s.drop_first();
        assert(forall|j: int| 0 <= j < t.len() ==> t[j] == s[j + 1]);
        assert(store_keys_unique(t));
        lemma_store_lookup_update(t, i - 1, d);
        assert(u.drop_first() =~= t.update(i - 1, (t[i - 1].0, d)));
        assert(t[i - 1].0 == s[i].0);
        assert(s[0].0 != s[i].0);
        assert forall|p: ActorId| p != s[i].0 implies #[trigger] store_lookup(u, p)
            == store_lookup(s, p) by {
            if p != s[0].0 {
                assert(store_lookup(u, p) == store_lookup(u.drop_first(), p));
                assert(store_lookup(s, p) == store_lookup(t, p));
                assert(store_lookup(u.drop_first(), p) == store_lookup(t, p));
            }
        }
    }
}

/// Appending a pair for a player not yet present makes lookup find it and
/// changes nobody else's; distinctness of keys is kept.
pub proof fn lemma_store_lookup_push(
    s: Seq<(ActorId, SessionDetails)>,
    player: ActorId,
    d: SessionDetails,
)
    requires
        forall|j: int| 0 <= j < s.len() ==> (#[trigger] s[j]).0 != player,
    ensures
        store_lookup(s.push((player, d)), player) == Some(d),
        forall|p: ActorId|
            p != player ==> #[trigger] store_lookup(s.push((player, d)), p) == store_lookup(s, p),
        store_keys_unique(s) ==> store_keys_unique(s.push((player, d))),
    decreases s.len(),
{
    let u = s.push((player, d));
    if s.len() == 0 {
        assert(u[0] == (player, d));
        assert(u.drop_first() =~= Seq::<(ActorId, SessionDetails)>::empty());
        assert forall|p: ActorId| p != player implies #[trigger] store_lookup(u, p)
            == store_lookup(s, p) by {
            assert(store_lookup(u, p) == store_lookup(u.drop_first(), p));
        }
    } else {
        assert(u[0] == s[0]);
        let t = s.drop_first();
        assert(forall|j: int| 0 <= j < t.len() ==> t[j] == s[j + 1]);
        assert(s[0].0 != player);
        lemma_store_lookup_push(t, player, d);
        assert(u.drop_first() =~= t.push((player, d)));
        assert forall|p: ActorId| p != player implies #[trigger] store_lookup(u, p)
            == store_lookup(s, p) by {
            if p != s[0].0 {
                assert(store_lookup(u, p) == store_lookup(u.drop_first(), p));
                assert(store_lookup(s, p) == store_lookup(t, p));
                assert(store_lookup(t.push((player, d)), p) == store_lookup(t, p));
            }
        }
    }
    if store_keys_unique(s) {
        assert(forall|j: int| 0 <= j < s.len() ==> u[j] == s[j]);
        assert(store_keys_unique(u));
    }
}

/// The orchestrator's whole state: the scoring contract's address and every
/// player's session record.
#[derive(Debug)]
pub struct GameSession {
    /// Address of the external word-scoring contract.
    pub wordle_contract_id: ActorId,
    /// One record per player, players pairwise distinct.
    pub active_sessions: Vec<(ActorId, SessionDetails)>,
}

impl GameSession {
    /// The store's invariant: players are pairwise distinct and every record
    /// satisfies its own invariant.
    pub open spec fn wf(self) -> bool {
        &&& store_keys_unique(self.active_sessions@)
        &&& forall|i: int|
            #![trigger self.active_sessions@[i]]
            0 <= i < self.active_sessions@.len() ==> self.active_sessions@[i].1.wf()
    }

    /// The record stored for `player`, if any.
    pub open spec fn session_of(self, player: ActorId) -> Option<SessionDetails> {
        store_lookup(self.active_sessions@, player)
    }

    /// The record a transition starts from: the stored one, or a fresh
    /// default for a player seen for the first time.
    pub open spec fn session_view(self, player: ActorId) -> SessionDetails {
        match self.session_of(player) {
            Some(d) => d,
            None => default_details(),
        }
    }
}

impl Default for GameSession {
    fn default() -> (r: Self)
        ensures
            r.wordle_contract_id == 0,
            r.active_sessions@ == Seq::<(ActorId, SessionDetails)>::empty(),
            r.wf(),
    {
        GameSession { wordle_contract_id: 0, active_sessions: Vec::new() }
    }
}

impl From<GameSessionInit> for GameSession {
    /// Creates the orchestrator's state from its configuration, with no
    /// sessions yet.  The configuration is validated by the caller.
    fn from(params: GameSessionInit) -> (r: Self)
        ensures
            r.wordle_contract_id == params.wordle_contract_id,
            r.active_sessions@ == Seq::<(ActorId, SessionDetails)>::empty(),
            r.wf(),
    {
        GameSession { wordle_contract_id: params.wordle_contract_id, active_sessions: Vec::new() }
    }
}

impl vstd::std_specs::convert::FromSpecImpl<GameSessionInit> for GameSession {
    /// No two empty stores need be spec-equal (a vector is more than its
    /// contents), so the exact-value equation is disclaimed; the `ensures`
    /// of `from` says everything at the level of contents.
    open spec fn obeys_from_spec() -> bool {
        false
    }

    open spec fn from_spec(params: GameSessionInit) -> GameSession {
        GameSession {
            wordle_contract_id: params.wordle_contract_id,
            active_sessions: vstd::pervasive::arbitrary(),
        }
    }
}

/// A read-only projection of the whole store, as handed out by the state
/// query.
#[derive(Debug, Clone)]
pub struct GameSessionState {
    /// Address of the external word-scoring contract.
    pub wordle_program_id: ActorId,
    /// A snapshot of every player's record.
    pub active_sessions: Vec<(ActorId, SessionDetails)>,
}

impl Default for GameSessionState {
    fn default() -> (r: Self)
        ensures
            r.wordle_program_id == 0,
            r.active_sessions@ == Seq::<(ActorId, SessionDetails)>::empty(),
    {
        GameSessionState { wordle_program_id: 0, active_sessions: Vec::new() }
    }
}

/// The snapshot reports the same contract address and, pair for pair, the
/// same players with equal records.
pub open spec fn snapshot_matches(g: GameSession, s: GameSessionState) -> bool {
    &&& s.wordle_program_id == g.wordle_contract_id
    &&& s.active_sessions@.len() == g.active_sessions@.len()
    &&& forall|i: int|
        #![trigger s.active_sessions@[i]]
        0 <= i < g.active_sessions@.len() ==> s.active_sessions@[i].0
            == g.active_sessions@[i].0 && details_matches(
            g.active_sessions@[i].1,
            s.active_sessions@[i].1,
        )
}

impl From<&GameSession> for GameSessionState {
    /// Copies the store into a read-only snapshot.
    fn from(g: &GameSession) -> (r: Self)
        ensures
            snapshot_matches(*g, r),
    {
        let mut pairs: Vec<(ActorId, SessionDetails)> = Vec::new();
        let mut i: usize = 0;
        while i < g.active_sessions.len()
            invariant
                i <= g.active_sessions@.len(),
                pairs@.len() == i,
                forall|j: int|
                    #![trigger pairs@[j]]
                    0 <= j < i as int ==> pairs@[j].0 == g.active_sessions@[j].0
                        && details_matches(g.active_sessions@[j].1, pairs@[j].1),
            decreases g.active_sessions@.len() - i,
        {
            let player = g.active_sessions[i].0;
            let copy = g.active_sessions[i].1.clone();
            pairs.push((player, copy));
            i = i + 1;
        }
        GameSessionState { wordle_program_id: g.wordle_contract_id, active_sessions: pairs }
    }
}

impl vstd::std_specs::convert::FromSpecImpl<&GameSession> for GameSessionState {
    /// The snapshot copies records, and a copy need not be spec-equal to the
    /// original, so the exact-value equation is disclaimed; the `ensures` of
    /// `from` says everything at the level of contents.
    open spec fn obeys_from_spec() -> bool {
        false
    }

    open spec fn from_spec(g: &GameSession) -> GameSessionState {
        GameSessionState {
            wordle_program_id: g.wordle_contract_id,
            active_sessions: g.active_sessions,
        }
    }
}

/// Runtime check of one record's invariant, for a host that received a store
/// from outside the library.
pub fn details_wf_check(d: &SessionDetails) -> (r: bool)
    ensures
        r == d.wf(),
{
    let awaiting = d.is_awaiting_response();
    let mut ok = d.attempt_count <= 5;
    ok = ok && ((d.wordle_msg_id != 0) == awaiting);
    ok = ok && (!awaiting || (d.original_msg_id != 0 && d.session_id != 0));
    ok = ok && (!matches!(d.current_state, SessionState::AwaitingWordleInitResponse)
        || d.attempt_count == 0);
    let live = matches!(
        d.current_state,
        SessionState::AwaitingPlayerInput | SessionState::AwaitingWordleGuessResponse
            | SessionState::ResponseReceived(_),
    );
    ok = ok && (!live || (d.attempt_count < 5 && d.original_msg_id != 0 && d.session_id != 0));
    ok
}

impl GameSession {
    /// Runtime check of the whole store's invariant ([`GameSession::wf`]),
    /// for a host that received a store from outside the library.
    pub fn check_invariants(&self) -> (r: bool)
        ensures
            r == self.wf(),
    {
        let n = self.active_sessions.len();
        let mut i: usize = 0;
        while i < n
            invariant
                n == self.active_sessions@.len(),
                i <= n,
                forall|a: int, b: int|
                    0 <= a < b < n && a < i as int ==> (#[trigger] self.active_sessions@[a]).0 != (
                    #[trigger] self.active_sessions@[b]).0,
                forall|a: int|
                    #![trigger self.active_sessions@[a]]
                    0 <= a < i as int ==> self.active_sessions@[a].1.wf(),
            decreases n - i,
        {
            if !details_wf_check(&self.active_sessions[i].1) {
                return false;
            }
            let key = self.active_sessions[i].0;
            let mut j: usize = i + 1;
            while j < n
                invariant
                    n == self.active_sessions@.len(),
                    i < j <= n,
                    key == self.active_sessions@[i as int].0,
                    forall|b: int|
                        i < b < j as int ==> (#[trigger] self.active_sessions@[b]).0 != key,
                decreases n - j,
            {
                if self.active_sessions[j].0 == key {
                    return false;
                }
                j = j + 1;
            }
            i = i + 1;
        }
        true
    }
}

/// Finds the index of `player`'s record, if one is stored.
pub fn find_session(sessions: &Vec<(ActorId, SessionDetails)>, player: ActorId) -> (r: Option<
    usize,
>)
    ensures
        match r {
            Some(i) => i < sessions@.len() && sessions@[i as int].0 == player,
            None => forall|j: int| 0 <= j < sessions@.len() ==> (#[trigger] sessions@[j]).0 != player,
        },
{
    let n = sessions.len();
    let mut i: usize = 0;
    while i < n
        invariant
            n == sessions@.len(),
            i <= n,
            forall|j: int| 0 <= j < i as int ==> (#[trigger] sessions@[j]).0 != player,
        decreases n - i,
    {
        if sessions[i].0 == player {
            return Some(i);
        }
        i = i + 1;
    }
    None
}

} // verus!
