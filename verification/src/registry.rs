//! The session registry: which session continues which transaction.

use std::collections::HashMap;
use vstd::prelude::*;

verus! {

broadcast use vstd::std_specs::hash::group_hash_axioms;

/// Maps the id of each open transaction to its session.
///
/// An id has at most one session. A session is entered once, by the first
/// caller that publishes one for its id, and leaves when the transaction is
/// committed or rolled back.
#[derive(Debug)]
pub struct Registry<S> {
    sessions: HashMap<u64, S>,
}

impl<S> View for Registry<S> {
    type V = Map<u64, S>;

    closed spec fn view(&self) -> Map<u64, S> {
        self.sessions@
    }
}

impl<S> Registry<S> {
    /// A registry without sessions.
    pub fn new() -> (registry: Self)
        ensures
            registry@ == Map::<u64, S>::empty(),
    {
        Registry { sessions: HashMap::new() }
    }

    /// Whether the transaction has a session.
    pub fn contains(&self, tx_id: u64) -> (found: bool)
        ensures
            found == self@.contains_key(tx_id),
    {
        self.sessions.contains_key(&tx_id)
    }

    /// The session of the transaction, if it has one.
    pub fn get(&self, tx_id: u64) -> (session: Option<&S>)
        ensures
            match session {
                Some(s) => self@.contains_key(tx_id) && *s == self@[tx_id],
                None => !self@.contains_key(tx_id),
            },
    {
        self.sessions.get(&tx_id)
    }

    /// Enters `session` for the transaction unless it has one already: the
    /// first session published for an id stays, a later one is dropped.
    /// Returns whether `session` was entered.
    pub fn publish(&mut self, tx_id: u64, session: S) -> (entered: bool)
        ensures
            entered == !old(self)@.contains_key(tx_id),
            final(self)@ == Self::published(old(self)@, tx_id, session),
    {
        if self.sessions.contains_key(&tx_id) {
            false
        } else {
            self.sessions.insert(tx_id, session);
            true
        }
    }

    /// The registry after [`Registry::publish`].
    pub open spec fn published(sessions: Map<u64, S>, tx_id: u64, session: S) -> Map<u64, S> {
        if sessions.contains_key(tx_id) {
            sessions
        } else {
            sessions.insert(tx_id, session)
        }
    }

    /// Sets the session of the transaction, in place of the one it had.
    pub fn store(&mut self, tx_id: u64, session: S)
        ensures
            final(self)@ == old(self)@.insert(tx_id, session),
    {
        self.sessions.insert(tx_id, session);
    }

    /// Takes the session of the transaction out of the registry. Without a
    /// session nothing changes.
    pub fn remove(&mut self, tx_id: u64) -> (session: Option<S>)
        ensures
            final(self)@ == old(self)@.remove(tx_id),
            session == if old(self)@.contains_key(tx_id) {
                Some(old(self)@[tx_id])
            } else {
                None
            },
    {
        self.sessions.remove(&tx_id)
    }

    /// The number of open sessions.
    pub fn len(&self) -> (n: usize)
        ensures
            n == self@.len(),
            self@.dom().finite(),
    {
        self.sessions.len()
    }
}

/// One change of a registry.
pub enum Change<S> {
    Publish(u64, S),
    Store(u64, S),
    Remove(u64),
}

impl<S> Change<S> {
    /// The registry after the change.
    pub open spec fn apply(self, sessions: Map<u64, S>) -> Map<u64, S> {
        match self {
            Change::Publish(tx_id, session) => Registry::published(sessions, tx_id, session),
            Change::Store(tx_id, session) => sessions.insert(tx_id, session),
            Change::Remove(tx_id) => sessions.remove(tx_id),
        }
    }

    /// Whether the change replaces or removes the session of `tx_id`.
    pub open spec fn ends(self, tx_id: u64) -> bool {
        match self {
            Change::Publish(_, _) => false,
            Change::Store(id, _) => id == tx_id,
            Change::Remove(id) => id == tx_id,
        }
    }
}

/// The registry after the changes, one after the other.
pub open spec fn after_changes<S>(sessions: Map<u64, S>, changes: Seq<Change<S>>) -> Map<u64, S>
    decreases changes.len(),
{
    if changes.len() == 0 {
        sessions
    } else {
        changes.last().apply(after_changes(sessions, changes.drop_last()))
    }
}

/// A transaction keeps its session until the session is replaced or
/// removed under its own id: whatever else is published, replaced or
/// removed in between, and whoever else publishes for the same id, every
/// look finds the session that was there first. So all that a transaction
/// sends goes through one session, in the order in which it is sent.
pub proof fn lemma_session_stays_until_ended<S>(
    sessions: Map<u64, S>,
    changes: Seq<Change<S>>,
    tx_id: u64,
)
    requires
        sessions.contains_key(tx_id),
        forall|i: int| 0 <= i < changes.len() ==> !(#[trigger] changes[i]).ends(tx_id),
    ensures
        after_changes(sessions, changes).contains_key(tx_id),
        after_changes(sessions, changes)[tx_id] == sessions[tx_id],
    decreases changes.len(),
{
    if changes.len() > 0 {
        let before = changes.drop_last();
        assert(forall|i: int| 0 <= i < before.len() ==> before[i] == changes[i]);
        lemma_session_stays_until_ended(sessions, before, tx_id);
        assert(!changes.last().ends(tx_id));
    }
}

/// Of the sessions published for one id the first stays: a second one
/// changes nothing, so a race to create the session of a new transaction has
/// one survivor.
pub proof fn lemma_first_publisher_wins<S>(sessions: Map<u64, S>, tx_id: u64, first: S, second: S)
    ensures
        Registry::published(Registry::published(sessions, tx_id, first), tx_id, second)
            == Registry::published(sessions, tx_id, first),
        !sessions.contains_key(tx_id) ==> Registry::published(
            Registry::published(sessions, tx_id, first),
            tx_id,
            second,
        )[tx_id] == first,
        sessions.contains_key(tx_id) ==> Registry::published(sessions, tx_id, first)
            == sessions,
{
}

/// Transactions with distinct ids share nothing: to publish, to replace or
/// to remove the session of one leaves the other with the session it had,
/// or with none.
pub proof fn lemma_transactions_share_nothing<S>(
    sessions: Map<u64, S>,
    tx_id: u64,
    other: u64,
    session: S,
)
    requires
        tx_id != other,
    ensures
        Registry::published(sessions, tx_id, session).contains_key(other) == sessions.contains_key(
            other,
        ),
        Registry::published(sessions, tx_id, session)[other] == sessions[other],
        sessions.insert(tx_id, session).contains_key(other) == sessions.contains_key(other),
        sessions.insert(tx_id, session)[other] == sessions[other],
        sessions.remove(tx_id).contains_key(other) == sessions.contains_key(other),
        sessions.remove(tx_id)[other] == sessions[other],
{
}

/// A removed session leaves no trace: the id has no session afterwards, to
/// remove it again changes nothing, and the next session published for the
/// id is entered as for an id never seen.
pub proof fn lemma_removal_is_complete<S>(sessions: Map<u64, S>, tx_id: u64, next: S)
    ensures
        !sessions.remove(tx_id).contains_key(tx_id),
        sessions.remove(tx_id).remove(tx_id) == sessions.remove(tx_id),
        Registry::published(sessions.remove(tx_id), tx_id, next)[tx_id] == next,
{
    assert(sessions.remove(tx_id).remove(tx_id) =~= sessions.remove(tx_id));
}

} // verus!
