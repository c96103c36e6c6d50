//! The session registry: at most one live session per session key.

use vstd::prelude::*;
use crate::adapter::{validates_to, OpenRequest, SerialSessionConfig};
use crate::error::SessionError;
use crate::teardown::{teardown_script, Teardown, TeardownStep};

verus! {

/// Whether some entry is stored under `key`.
spec fn has_key<S>(entries: Seq<(String, S)>, key: Seq<char>) -> bool {
    exists|i: int| 0 <= i < entries.len() && (#[trigger] entries[i]).0@ == key
}

/// The position of an entry stored under `key`.
spec fn index_of<S>(entries: Seq<(String, S)>, key: Seq<char>) -> int {
    choose|i: int| 0 <= i < entries.len() && (#[trigger] entries[i]).0@ == key
}

/// Whether no key occurs twice.
spec fn distinct_keys<S>(entries: Seq<(String, S)>) -> bool {
    forall|i: int, j: int|
        0 <= i < j < entries.len() ==> (#[trigger] entries[i]).0@ != (#[trigger] entries[j]).0@
}

/// The map from key to session that a list of entries stands for.
spec fn entries_map<S>(entries: Seq<(String, S)>) -> Map<Seq<char>, S> {
    Map::new(|k: Seq<char>| has_key(entries, k), |k: Seq<char>| entries[index_of(entries, k)].1)
}

/// With distinct keys, the entry at a position is the one its key maps to.
proof fn lemma_entry_at<S>(entries: Seq<(String, S)>, i: int)
    requires
        distinct_keys(entries),
        0 <= i < entries.len(),
    ensures
        has_key(entries, entries[i].0@),
        index_of(entries, entries[i].0@) == i,
        entries_map(entries).contains_key(entries[i].0@),
        entries_map(entries)[entries[i].0@] == entries[i].1,
{
    let k = entries[i].0@;
    assert(has_key(entries, k));
    let j = index_of(entries, k);
    assert(0 <= j < entries.len() && entries[j].0@ == k);
    if j != i {
        if j < i {
            assert(entries[j].0@ != entries[i].0@);
        } else {
            assert(entries[i].0@ != entries[j].0@);
        }
    }
}

/// Appending an entry under a fresh key inserts it into the map.
proof fn lemma_push_entry<S>(entries: Seq<(String, S)>, key: String, session: S)
    requires
        distinct_keys(entries),
        !has_key(entries, key@),
    ensures
        distinct_keys(entries.push((key, session))),
        entries_map(entries.push((key, session))) == entries_map(entries).insert(key@, session),
{
    let grown = entries.push((key, session));
    assert(distinct_keys(grown)) by {
        assert forall|i: int, j: int| 0 <= i < j < grown.len() implies (#[trigger] grown[i]).0@
            != (#[trigger] grown[j]).0@ by {
            if j < entries.len() {
                assert(entries[i].0@ != entries[j].0@);
            } else {
                assert(grown[i] == entries[i]);
                assert(!has_key(entries, key@));
            }
        }
    }
    let before = entries_map(entries);
    let after = entries_map(grown);
    assert forall|k: Seq<char>| after.contains_key(k) <==> before.insert(
        key@,
        session,
    ).contains_key(k) by {
        if has_key(grown, k) {
            let i = index_of(grown, k);
            if i < entries.len() {
                assert(entries[i] == grown[i]);
                assert(has_key(entries, k));
            }
        }
        if has_key(entries, k) {
            let i = index_of(entries, k);
            assert(grown[i] == entries[i]);
            assert(has_key(grown, k));
        }
        if k == key@ {
            assert(grown[entries.len() as int].0@ == k);
            assert(has_key(grown, k));
        }
    }
    assert forall|k: Seq<char>| after.contains_key(k) implies after[k] == before.insert(
        key@,
        session,
    )[k] by {
        let i = index_of(grown, k);
        lemma_entry_at(grown, i);
        if i < entries.len() {
            assert(grown[i] == entries[i]);
            lemma_entry_at(entries, i);
        }
    }
    assert(after =~= before.insert(key@, session));
}

/// Taking an entry out removes its key from the map.
proof fn lemma_remove_entry<S>(entries: Seq<(String, S)>, at: int)
    requires
        distinct_keys(entries),
        0 <= at < entries.len(),
    ensures
        distinct_keys(entries.remove(at)),
        !has_key(entries.remove(at), entries[at].0@),
        entries_map(entries.remove(at)) == entries_map(entries).remove(entries[at].0@),
{
    let key = entries[at].0@;
    let rest = entries.remove(at);
    assert forall|i: int| 0 <= i < rest.len() implies #[trigger] rest[i] == entries[if i < at {
        i
    } else {
        i + 1
    }] by {}
    assert(distinct_keys(rest)) by {
        assert forall|i: int, j: int| 0 <= i < j < rest.len() implies (#[trigger] rest[i]).0@ != (
        #[trigger] rest[j]).0@ by {
            let a = if i < at { i } else { i + 1 };
            let b = if j < at { j } else { j + 1 };
            assert(rest[i] == entries[a]);
            assert(rest[j] == entries[b]);
            assert(entries[a].0@ != entries[b].0@);
        }
    }
    assert(!has_key(rest, key)) by {
        if has_key(rest, key) {
            let i = index_of(rest, key);
            let a = if i < at { i } else { i + 1 };
            assert(rest[i] == entries[a]);
            if a < at {
                assert(entries[a].0@ != entries[at].0@);
            } else {
                assert(entries[at].0@ != entries[a].0@);
            }
        }
    }
    let before = entries_map(entries);
    let after = entries_map(rest);
    assert forall|k: Seq<char>| after.contains_key(k) <==> before.remove(key).contains_key(k) by {
        if has_key(rest, k) {
            let i = index_of(rest, k);
            let a = if i < at { i } else { i + 1 };
            assert(rest[i] == entries[a]);
            assert(has_key(entries, k));
        }
        if has_key(entries, k) && k != key {
            let a = index_of(entries, k);
            let i = if a < at { a } else { a - 1 };
            assert(rest[i] == entries[a]);
            assert(has_key(rest, k));
        }
    }
    assert forall|k: Seq<char>| after.contains_key(k) implies after[k] == before.remove(key)[k] by {
        let i = index_of(rest, k);
        let a = if i < at { i } else { i + 1 };
        assert(rest[i] == entries[a]);
        lemma_entry_at(rest, i);
        lemma_entry_at(entries, a);
    }
    assert(after =~= before.remove(key));
}

/// The session that a command for `key` goes to.
pub open spec fn session_at<'a, S>(sessions: Map<Seq<char>, S>, key: Seq<char>) -> Result<
    &'a S,
    SessionError,
> {
    if sessions.contains_key(key) {
        Ok(&sessions[key])
    } else {
        Err(SessionError::NotConnected)
    }
}

/// Maps each session key to at most one session.
pub struct SessionRegistry<S> {
    entries: Vec<(String, S)>,
}

impl<S> View for SessionRegistry<S> {
    type V = Map<Seq<char>, S>;

    closed spec fn view(&self) -> Map<Seq<char>, S> {
        entries_map(self.entries@)
    }
}

impl<S> Default for SessionRegistry<S> {
    /// A registry without sessions.
    fn default() -> (r: Self)
        ensures
            r@ == Map::<Seq<char>, S>::empty(),
    {
        SessionRegistry::new()
    }
}

impl<S> SessionRegistry<S> {
    #[verifier::type_invariant]
    closed spec fn one_session_per_key(&self) -> bool {
        distinct_keys(self.entries@)
    }

    /// A registry without sessions.
    pub fn new() -> (r: Self)
        ensures
            r@ == Map::<Seq<char>, S>::empty(),
    {
        let r = SessionRegistry { entries: Vec::new() };
        assert(r@ =~= Map::<Seq<char>, S>::empty());
        r
    }

    /// The position of the entry stored under `key`, if there is one.
    fn position(&self, key: &String) -> (r: Option<usize>)
        ensures
            match r {
                Some(i) => i < self.entries@.len() && self.entries@[i as int].0@ == key@,
                None => !has_key(self.entries@, key@),
            },
    {
        let mut i: usize = 0;
        while i < self.entries.len()
            invariant
                i <= self.entries@.len(),
                forall|j: int| 0 <= j < i ==> (#[trigger] self.entries@[j]).0@ != key@,
            decreases self.entries@.len() - i,
        {
            if self.entries[i].0 == *key {
                return Some(i);
            }
            i = i + 1;
        }
        None
    }

    /// Whether a session is registered under `key`.
    pub fn is_open(&self, key: &str) -> (r: bool)
        ensures
            r == self@.contains_key(key@),
    {
        let owned = key.to_owned();
        self.position(&owned).is_some()
    }

    /// The session registered under `key`; without one the key is not
    /// connected.
    pub fn session(&self, key: &str) -> (r: Result<&S, SessionError>)
        ensures
            r == session_at(self@, key@),
    {
        let owned = key.to_owned();
        match self.position(&owned) {
            Some(i) => {
                proof {
                    use_type_invariant(self);
                    lemma_entry_at(self.entries@, i as int);
                }
                Ok(&self.entries[i].1)
            },
            None => Err(SessionError::NotConnected),
        }
    }

    /// Takes the session registered under `key` out of the registry. Without
    /// such a session nothing changes.
    pub fn take(&mut self, key: &str) -> (r: Option<S>)
        ensures
            final(self)@ == old(self)@.remove(key@),
            r == if old(self)@.contains_key(key@) {
                Some(old(self)@[key@])
            } else {
                None
            },
    {
        let owned = key.to_owned();
        match self.position(&owned) {
            Some(i) => {
                proof {
                    use_type_invariant(&*self);
                    lemma_entry_at(self.entries@, i as int);
                    lemma_remove_entry(self.entries@, i as int);
                }
                let mut entries: Vec<(String, S)> = Vec::new();
                core::mem::swap(&mut self.entries, &mut entries);
                let entry = entries.remove(i);
                core::mem::swap(&mut self.entries, &mut entries);
                Some(entry.1)
            },
            None => {
                assert(self@ =~= self@.remove(key@));
                None
            },
        }
    }

    /// Registers `session` under `key` and hands back the session that held
    /// the key before, if any.
    pub fn register(&mut self, key: &str, session: S) -> (r: Option<S>)
        ensures
            final(self)@ == old(self)@.insert(key@, session),
            r == if old(self)@.contains_key(key@) {
                Some(old(self)@[key@])
            } else {
                None
            },
    {
        let displaced = self.take(key);
        let owned = key.to_owned();
        proof {
            use_type_invariant(&*self);
            assert(!self@.contains_key(key@));
            lemma_push_entry(self.entries@, owned, session);
            assert(old(self)@.remove(key@).insert(key@, session) =~= old(self)@.insert(
                key@,
                session,
            ));
        }
        let mut entries: Vec<(String, S)> = Vec::new();
        core::mem::swap(&mut self.entries, &mut entries);
        entries.push((owned, session));
        core::mem::swap(&mut self.entries, &mut entries);
        displaced
    }
}

/// What opening a session begins with.
#[derive(Debug)]
pub struct OpenPlan<S> {
    /// The session that held the key, to be torn down before anything else.
    pub displaced: Option<Teardown<S>>,
    /// The validated settings to open the port with, or why none is opened.
    pub outcome: Result<SerialSessionConfig, SessionError>,
}

/// How a command that was meant for a session fared.
#[derive(Debug, PartialEq, Eq)]
pub enum Delivery<T> {
    /// The queue of the session is closed: the command was not taken.
    QueueClosed,
    /// The command was queued, and the reply channel closed without an answer.
    ReplyLost,
    /// The write loop answered.
    Replied(Result<T, SessionError>),
}

/// The session that `key` maps to, as one to tear down.
pub open spec fn displaced_from<S>(
    sessions: Map<Seq<char>, S>,
    key: Seq<char>,
    wait_for_completion: bool,
) -> Option<Teardown<S>> {
    if sessions.contains_key(key) {
        Some(Teardown { session: sessions[key], wait_for_completion })
    } else {
        None
    }
}

/// The answer that the caller of a command gets: a closed queue and a lost
/// reply are failures of their own; an answer of the write loop is passed on.
pub open spec fn answer_of<T>(delivery: Delivery<T>) -> Result<T, SessionError> {
    match delivery {
        Delivery::QueueClosed => Err(SessionError::WriterUnavailable),
        Delivery::ReplyLost => Err(SessionError::NoResponse),
        Delivery::Replied(answer) => answer,
    }
}

/// Turns the fate of a command into the answer for its caller.
pub fn conclude<T>(delivery: Delivery<T>) -> (r: Result<T, SessionError>)
    ensures
        r == answer_of(delivery),
{
    match delivery {
        Delivery::QueueClosed => Err(SessionError::WriterUnavailable),
        Delivery::ReplyLost => Err(SessionError::NoResponse),
        Delivery::Replied(answer) => answer,
    }
}

impl<S> SessionRegistry<S> {
    /// Begins carrying out a request to open a session under `key`. The key
    /// is vacated: a session that held it is handed out to be torn down, with
    /// the caller waiting until both its workers have finished. Then the
    /// settings are validated; the port is opened only if they are accepted.
    pub fn begin_open(&mut self, key: &str, request: OpenRequest) -> (r: OpenPlan<S>)
        ensures
            final(self)@ == old(self)@.remove(key@),
            r.displaced == displaced_from(old(self)@, key@, true),
            request@.port.len() > 0,
            validates_to(request@, r.outcome),
    {
        let displaced = match self.take(key) {
            Some(session) => Some(Teardown { session, wait_for_completion: true }),
            None => None,
        };
        let outcome = request.validate();
        OpenPlan { displaced, outcome }
    }

    /// Closes the session under `key` at the host's request: it leaves the
    /// registry at once and is handed out to be torn down without the caller
    /// waiting. Without such a session nothing changes.
    pub fn close(&mut self, key: &str) -> (r: Option<Teardown<S>>)
        ensures
            final(self)@ == old(self)@.remove(key@),
            r == displaced_from(old(self)@, key@, false),
    {
        match self.take(key) {
            Some(session) => Some(Teardown { session, wait_for_completion: false }),
            None => None,
        }
    }
}

/// Opening under a key that holds a session hands that session out for a
/// teardown in which the caller waits for both workers, and leaves the key
/// vacant. So the new session displaces nothing when it is registered, and
/// the registry then holds it in place of the old one.
pub proof fn law_reopen_displaces_first<S>(sessions: Map<Seq<char>, S>, key: Seq<char>, fresh: S)
    requires
        sessions.contains_key(key),
    ensures
        displaced_from(sessions, key, true) == Some(
            Teardown { session: sessions[key], wait_for_completion: true },
        ),
        !teardown_script(true).contains(TeardownStep::Detach),
        teardown_script(true).contains(TeardownStep::JoinWriter),
        teardown_script(true).contains(TeardownStep::JoinReader),
        !sessions.remove(key).contains_key(key),
        displaced_from(sessions.remove(key), key, true) is None,
        sessions.remove(key).insert(key, fresh) == sessions.insert(key, fresh),
{
    let script = teardown_script(true);
    assert(script[3] == TeardownStep::JoinWriter);
    assert(script[4] == TeardownStep::JoinReader);
    assert(sessions.remove(key).insert(key, fresh) =~= sessions.insert(key, fresh));
}

/// Once a key is closed no session is open under it, and a command for it
/// fails as not connected. Closing it again changes nothing and hands out
/// nothing.
pub proof fn law_closed_key_is_not_connected<S>(sessions: Map<Seq<char>, S>, key: Seq<char>)
    ensures
        !sessions.remove(key).contains_key(key),
        session_at(sessions.remove(key), key) == Err::<&S, SessionError>(
            SessionError::NotConnected,
        ),
        displaced_from(sessions.remove(key), key, false) is None,
        sessions.remove(key).remove(key) == sessions.remove(key),
{
    assert(sessions.remove(key).remove(key) =~= sessions.remove(key));
}

/// Sessions under different keys do not touch each other: vacating or
/// closing one key, or registering a session under it, leaves the session
/// under every other key open and the same, and a command for the other key
/// goes where it went before.
pub proof fn law_keys_are_independent<S>(
    sessions: Map<Seq<char>, S>,
    key: Seq<char>,
    other: Seq<char>,
    fresh: S,
)
    requires
        key != other,
    ensures
        sessions.remove(key).contains_key(other) == sessions.contains_key(other),
        sessions.insert(key, fresh).contains_key(other) == sessions.contains_key(other),
        session_at(sessions.remove(key), other) == session_at(sessions, other),
        session_at(sessions.insert(key, fresh), other) == session_at(sessions, other),
{
}

} // verus!
