//! The session registry: which sessions are live, under which identifiers,
//! and which identifiers have ever been handed out. It decides the outcome of
//! open, write and close; the caller performs the I/O that a decision allows
//! (spawning, writing to a backend, releasing it) outside the registry's lock.

use std::collections::{HashMap, HashSet};
use vstd::prelude::*;
use crate::ssh_conn::SshConn;

verus! {

broadcast use vstd::std_specs::hash::group_hash_axioms;

/// The backend of one session. `P` is the local pseudo-terminal's handles.
pub enum SessionEnum<P> {
    TypePty(P),
    TypeSsh(SshConn),
}

/// Why an operation on a session failed.
pub enum SessionError {
    /// No live session has this identifier.
    NotFound,
    /// The session's backend does not carry out this operation.
    Unsupported,
    /// The backend's input refused the bytes; the text is the system's reason.
    WriteFailed(String),
}

/// Why opening a session failed.
pub enum OpenError {
    /// The backend could not be started; the text is the system's reason.
    Spawn(String),
    /// The identifier drawn for the session was handed out before.
    IdInUse,
}

/// What a write to `id` reaches in a registry holding `m`: the local
/// backend, or the reason there is none.
pub open spec fn target_of<P>(m: Map<u128, SessionEnum<P>>, id: u128) -> Result<P, SessionError> {
    if !m.contains_key(id) {
        Err(SessionError::NotFound)
    } else {
        match m[id] {
            SessionEnum::TypePty(p) => Ok(p),
            SessionEnum::TypeSsh(_) => Err(SessionError::Unsupported),
        }
    }
}

/// The registry of live sessions.
pub struct AppState<P> {
    session: HashMap<u128, SessionEnum<P>>,
    issued: HashSet<u128>,
}

impl<P> AppState<P> {
    /// The live sessions by identifier.
    pub closed spec fn sessions(&self) -> Map<u128, SessionEnum<P>> {
        self.session@
    }

    /// Every identifier handed out so far, live or closed.
    pub closed spec fn issued(&self) -> Set<u128> {
        self.issued@
    }

    /// Every live session's identifier was handed out by this registry.
    pub open spec fn wf(&self) -> bool {
        self.sessions().dom().subset_of(self.issued())
    }

    /// An empty registry that has handed out no identifier.
    pub fn new() -> (r: Self)
        ensures
            r.wf(),
            r.sessions() == Map::<u128, SessionEnum<P>>::empty(),
            r.issued() == Set::<u128>::empty(),
    {
        AppState { session: HashMap::new(), issued: HashSet::new() }
    }

    /// The number of live sessions.
    pub fn len(&self) -> (r: usize)
        ensures
            r == self.sessions().len(),
    {
        self.session.len()
    }

    /// Whether a live session has this identifier.
    pub fn contains(&self, id: u128) -> (r: bool)
        ensures
            r == self.sessions().contains_key(id),
    {
        self.session.contains_key(&id)
    }

    /// Registers the outcome of starting a backend under `id`. A failed start,
    /// or an identifier handed out before, leaves the registry as it was.
    pub fn insert_session(&mut self, id: u128, spawned: Result<SessionEnum<P>, String>) -> (r: Result<
        u128,
        OpenError,
    >)
        requires
            old(self).wf(),
        ensures
            final(self).wf(),
            match spawned {
                Err(e) => {
                    &&& r == Err::<u128, OpenError>(OpenError::Spawn(e))
                    &&& final(self).sessions() == old(self).sessions()
                    &&& final(self).issued() == old(self).issued()
                },
                Ok(b) => if old(self).issued().contains(id) {
                    &&& r == Err::<u128, OpenError>(OpenError::IdInUse)
                    &&& final(self).sessions() == old(self).sessions()
                    &&& final(self).issued() == old(self).issued()
                } else {
                    &&& r == Ok::<u128, OpenError>(id)
                    &&& final(self).sessions() == old(self).sessions().insert(id, b)
                    &&& final(self).issued() == old(self).issued().insert(id)
                },
            },
    {
        match spawned {
            Err(e) => Err(OpenError::Spawn(e)),
            Ok(b) => {
                if self.issued.contains(&id) {
                    Err(OpenError::IdInUse)
                } else {
                    self.issued.insert(id);
                    self.session.insert(id, b);
                    Ok(id)
                }
            },
        }
    }

    /// Opens a session for a started local backend under `id`, an identifier
    /// the caller drew at random. A failed start, or an identifier handed out
    /// before, leaves the registry as it was.
    pub fn open_local_pty(&mut self, id: u128, spawned: Result<P, String>) -> (r: Result<
        u128,
        OpenError,
    >)
        requires
            old(self).wf(),
        ensures
            final(self).wf(),
            match spawned {
                Err(e) => {
                    &&& r == Err::<u128, OpenError>(OpenError::Spawn(e))
                    &&& final(self).sessions() == old(self).sessions()
                    &&& final(self).issued() == old(self).issued()
                },
                Ok(p) => if old(self).issued().contains(id) {
                    &&& r == Err::<u128, OpenError>(OpenError::IdInUse)
                    &&& final(self).sessions() == old(self).sessions()
                    &&& final(self).issued() == old(self).issued()
                } else {
                    &&& r == Ok::<u128, OpenError>(id)
                    &&& final(self).sessions() == old(self).sessions().insert(
                        id,
                        SessionEnum::TypePty(p),
                    )
                    &&& final(self).issued() == old(self).issued().insert(id)
                },
            },
    {
        match spawned {
            Err(e) => Err(OpenError::Spawn(e)),
            Ok(p) => self.insert_session(id, Ok(SessionEnum::TypePty(p))),
        }
    }

    /// The local backend that a write to `id` goes to. Nothing changes: on an
    /// error no I/O is to be done.
    pub fn write_target(&self, id: u128) -> (r: Result<&P, SessionError>)
        ensures
            match r {
                Ok(p) => target_of(self.sessions(), id) == Ok::<P, SessionError>(*p),
                Err(e) => target_of(self.sessions(), id) == Err::<P, SessionError>(e),
            },
    {
        match self.session.get(&id) {
            None => Err(SessionError::NotFound),
            Some(SessionEnum::TypePty(p)) => Ok(p),
            Some(SessionEnum::TypeSsh(_)) => Err(SessionError::Unsupported),
        }
    }

    /// The outcome of a write that `write_target` allowed, from what the
    /// backend's input reported: its refusal becomes `WriteFailed`.
    pub fn write_outcome(written: Result<(), String>) -> (r: Result<(), SessionError>)
        ensures
            match written {
                Ok(()) => r == Ok::<(), SessionError>(()),
                Err(e) => r == Err::<(), SessionError>(SessionError::WriteFailed(e)),
            },
    {
        match written {
            Ok(()) => Ok(()),
            Err(e) => Err(SessionError::WriteFailed(e)),
        }
    }

    /// Closes `id`: removes it and hands its backend back to be released.
    /// Closing an identifier that is not live changes nothing and is no
    /// error. The identifier is never handed out again.
    pub fn close_session(&mut self, id: u128) -> (r: Option<SessionEnum<P>>)
        requires
            old(self).wf(),
        ensures
            final(self).wf(),
            final(self).sessions() == old(self).sessions().remove(id),
            final(self).issued() == old(self).issued(),
            match r {
                Some(b) => old(self).sessions().contains_key(id) && b == old(self).sessions()[id],
                None => !old(self).sessions().contains_key(id),
            },
    {
        self.session.remove(&id)
    }

    /// Closes every session, as at shutdown.
    pub fn close_all(&mut self)
        requires
            old(self).wf(),
        ensures
            final(self).wf(),
            final(self).sessions() == Map::<u128, SessionEnum<P>>::empty(),
            final(self).issued() == old(self).issued(),
    {
        self.session.clear();
    }
}

/// An identifier that a registry has handed out differs from every one it
/// hands out later: an open succeeds only with an identifier outside the
/// issued set, which grows with each open and never shrinks.
pub proof fn lemma_ids_never_reused<P>(
    before: AppState<P>,
    after: AppState<P>,
    earlier: u128,
    later: u128,
)
    requires
        before.issued().contains(earlier),
        before.issued().subset_of(after.issued()),
        !after.issued().contains(later),
    ensures
        earlier != later,
{
}

/// A write to an identifier that a well-formed registry never handed out
/// finds no session.
pub proof fn lemma_never_issued_not_found<P>(s: AppState<P>, id: u128)
    requires
        s.wf(),
        !s.issued().contains(id),
    ensures
        target_of(s.sessions(), id) == Err::<P, SessionError>(SessionError::NotFound),
{
}

/// A write to an identifier after it was closed finds no session.
pub proof fn lemma_closed_not_found<P>(m: Map<u128, SessionEnum<P>>, id: u128)
    ensures
        target_of(m.remove(id), id) == Err::<P, SessionError>(SessionError::NotFound),
{
}

/// Closing twice is closing once: the second close finds nothing to remove
/// and leaves the sessions as the first left them.
pub proof fn lemma_close_idempotent<P>(m: Map<u128, SessionEnum<P>>, id: u128)
    ensures
        !m.remove(id).contains_key(id),
        m.remove(id).remove(id) == m.remove(id),
{
    assert(m.remove(id).remove(id) =~= m.remove(id));
}

} // verus!
