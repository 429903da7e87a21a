//! The process-wide session cell: either locked, or unlocked with a key, the
//! store handle opened with it, its generation and its expiry deadline.
//!
//! The cell is generic over the store handle, so it holds whatever the host
//! opens the store with. Every transition hands the retired handle back to
//! the caller to close, with its key already wiped; the cell itself never
//! keeps two handles.

use vstd::prelude::*;

use crate::secret::{zeroed, SecretKey};

verus! {

/// Errors of session-gated operations.
#[derive(Debug, Clone, Copy, PartialEq, Eq, Structural)]
pub enum SessionError {
    /// No session is unlocked, so there is no store to use.
    SessionLocked,
}

/// The message of a session error.
pub open spec fn session_error_message(e: SessionError) -> Seq<char> {
    match e {
        SessionError::SessionLocked => "The database is locked. Please sign in first."@,
    }
}

impl SessionError {
    /// A human-readable message for the error. It never holds key or token
    /// material.
    pub fn message(&self) -> (r: &'static str)
        ensures
            r@ == session_error_message(*self),
    {
        match self {
            SessionError::SessionLocked => "The database is locked. Please sign in first.",
        }
    }
}

/// The state of the session.
pub enum SessionState<H> {
    Locked,
    Unlocked { key: SecretKey, handle: H, generation: u64, deadline: i64 },
}

/// A session taken out of the cell: the handle to close, the key (already
/// wiped) and the generation it was opened at.
pub struct ClosedSession<H> {
    pub handle: H,
    pub key: SecretKey,
    pub generation: u64,
}

/// What `unlock` hands back: the generation of the new session, and the
/// session it superseded, if one was open.
pub struct UnlockOutcome<H> {
    pub generation: u64,
    pub superseded: Option<ClosedSession<H>>,
}

/// A read-only view of the cell, without key or handle.
#[derive(Debug, Clone, Copy, PartialEq, Eq, Structural)]
pub struct SessionSnapshot {
    pub unlocked: bool,
    pub generation: u64,
    pub deadline: Option<i64>,
}

/// The mathematical state of the cell: its session and its generation counter.
pub struct SessionModel<H> {
    pub state: SessionState<H>,
    pub generation: u64,
}

impl<H> SessionModel<H> {
    /// The state right after `unlock(key, handle, deadline)`.
    pub open spec fn after_unlock(self, key: SecretKey, handle: H, deadline: i64) -> Self {
        let g = (self.generation + 1) as u64;
        SessionModel {
            state: SessionState::Unlocked { key, handle, generation: g, deadline },
            generation: g,
        }
    }

    /// The state right after `lock()`.
    pub open spec fn after_lock(self) -> Self {
        SessionModel { state: SessionState::Locked, generation: self.generation }
    }

    /// Whether a monitor spawned at `generation` locks this state when it fires.
    pub open spec fn expires_at(self, generation: u64) -> bool {
        match self.state {
            SessionState::Locked => false,
            SessionState::Unlocked { generation: g, .. } => g == generation,
        }
    }

    /// The state right after a monitor spawned at `generation` fires.
    pub open spec fn after_expire(self, generation: u64) -> Self {
        if self.expires_at(generation) {
            self.after_lock()
        } else {
            self
        }
    }

    /// The open store handle, if any.
    pub open spec fn handle(self) -> Option<H> {
        match self.state {
            SessionState::Locked => None,
            SessionState::Unlocked { handle, .. } => Some(handle),
        }
    }

    /// The key of the open session, if any.
    pub open spec fn key(self) -> Option<Seq<u8>> {
        match self.state {
            SessionState::Locked => None,
            SessionState::Unlocked { key, .. } => Some(key@),
        }
    }

    /// Whether no session is open.
    pub open spec fn is_locked(self) -> bool {
        match &self.state {
            SessionState::Locked => true,
            SessionState::Unlocked { .. } => false,
        }
    }
}

/// `r` is what retiring the session `state` hands back: nothing where it was
/// locked, else its handle and generation with its key wiped.
pub open spec fn retired<H>(state: SessionState<H>, r: Option<ClosedSession<H>>) -> bool {
    match state {
        SessionState::Locked => r is None,
        SessionState::Unlocked { key, handle, generation, .. } => match r {
            Some(c) => c.handle == handle && c.generation == generation && c.key@ == zeroed(
                key@.len(),
            ),
            None => false,
        },
    }
}

/// Locking right after an unlock leaves the cell locked, with no key left in
/// it and the generation of that unlock; what `lock` hands back is the handle
/// of that unlock with a key of zeros only.
pub proof fn lemma_unlock_then_lock<H>(
    s: SessionModel<H>,
    key: SecretKey,
    handle: H,
    deadline: i64,
    closed: Option<ClosedSession<H>>,
)
    requires
        s.generation < u64::MAX,
        retired(s.after_unlock(key, handle, deadline).state, closed),
    ensures
        s.after_unlock(key, handle, deadline).after_lock().is_locked(),
        s.after_unlock(key, handle, deadline).after_lock().key() is None,
        s.after_unlock(key, handle, deadline).after_lock().handle() is None,
        s.after_unlock(key, handle, deadline).after_lock().generation == s.generation + 1,
        closed matches Some(c) && c.handle == handle && c.key@ == zeroed(key@.len()),
{
}

/// Two unlocks in a row leave one open handle, the second; the first is
/// handed back to be closed, its key wiped.
pub proof fn lemma_second_unlock_supersedes<H>(
    s: SessionModel<H>,
    key1: SecretKey,
    handle1: H,
    deadline1: i64,
    key2: SecretKey,
    handle2: H,
    deadline2: i64,
    superseded: Option<ClosedSession<H>>,
)
    requires
        s.generation < u64::MAX - 1,
        retired(s.after_unlock(key1, handle1, deadline1).state, superseded),
    ensures
        ({
            let t = s.after_unlock(key1, handle1, deadline1).after_unlock(key2, handle2, deadline2);
            &&& t.handle() == Some(handle2)
            &&& t.key() == Some(key2@)
            &&& t.generation == s.generation + 2
        }),
        superseded matches Some(c) && c.handle == handle1 && c.key@ == zeroed(key1@.len()),
{
}

/// A monitor spawned at a generation that a later unlock has passed does
/// nothing when it fires: the new session stays open.
pub proof fn lemma_stale_monitor_is_inert<H>(
    s: SessionModel<H>,
    monitor_generation: u64,
    key: SecretKey,
    handle: H,
    deadline: i64,
)
    requires
        s.generation < u64::MAX,
        monitor_generation <= s.generation,
    ensures
        !s.after_unlock(key, handle, deadline).expires_at(monitor_generation),
        s.after_unlock(key, handle, deadline).after_expire(monitor_generation) == s.after_unlock(
            key,
            handle,
            deadline,
        ),
{
}

/// The session cell.
pub struct SharedSessionState<H> {
    state: SessionState<H>,
    generation: u64,
}

impl<H> View for SharedSessionState<H> {
    type V = SessionModel<H>;

    closed spec fn view(&self) -> SessionModel<H> {
        SessionModel { state: self.state, generation: self.generation }
    }
}

/// Wipes the key of a session taken out of the cell.
fn retire<H>(state: SessionState<H>) -> (r: Option<ClosedSession<H>>)
    ensures
        retired(state, r),
{
    match state {
        SessionState::Locked => None,
        SessionState::Unlocked { key, handle, generation, .. } => {
            let mut key = key;
            key.wipe();
            Some(ClosedSession { handle, key, generation })
        },
    }
}

impl<H> SharedSessionState<H> {
    #[verifier::type_invariant]
    spec fn inv(&self) -> bool {
        match self.state {
            SessionState::Locked => true,
            SessionState::Unlocked { generation, .. } => generation == self.generation,
        }
    }

    /// The cell at process start: locked, at generation 0.
    pub fn new() -> (r: Self)
        ensures
            r@.state is Locked,
            r@.generation == 0,
    {
        SharedSessionState { state: SessionState::Locked, generation: 0 }
    }

    /// The current generation: the number of unlocks so far.
    pub fn generation(&self) -> (r: u64)
        ensures
            r == self@.generation,
    {
        self.generation
    }

    /// Whether no session is open.
    pub fn is_locked(&self) -> (r: bool)
        ensures
            r == self@.is_locked(),
    {
        match &self.state {
            SessionState::Locked => true,
            SessionState::Unlocked { .. } => false,
        }
    }

    /// The key of the open session, if any.
    pub fn key(&self) -> (r: Option<&SecretKey>)
        ensures
            match r {
                Some(k) => self@.key() == Some(k@),
                None => self@.is_locked(),
            },
    {
        match &self.state {
            SessionState::Locked => None,
            SessionState::Unlocked { key, .. } => Some(key),
        }
    }

    /// Opens a session with `key` and the store `handle` opened with it, and
    /// advances the generation. A session that was open is superseded: it is
    /// handed back, key wiped, for its handle to be closed.
    pub fn unlock(&mut self, key: SecretKey, handle: H, deadline: i64) -> (r: UnlockOutcome<H>)
        requires
            old(self)@.generation < u64::MAX,
        ensures
            final(self)@ == old(self)@.after_unlock(key, handle, deadline),
            r.generation == final(self)@.generation,
            r.generation == old(self)@.generation + 1,
            retired(old(self)@.state, r.superseded),
    {
        proof {
            use_type_invariant(&*self);
        }
        let generation = self.generation + 1;
        let mut previous = SharedSessionState {
            state: SessionState::Unlocked { key, handle, generation, deadline },
            generation,
        };
        std::mem::swap(self, &mut previous);
        let superseded = retire(previous.state);
        UnlockOutcome { generation, superseded }
    }

    /// Closes the open session, if any: its key is wiped and its handle is
    /// handed back to be closed. The generation is kept.
    pub fn lock(&mut self) -> (r: Option<ClosedSession<H>>)
        ensures
            final(self)@ == old(self)@.after_lock(),
            retired(old(self)@.state, r),
    {
        let generation = self.generation;
        let mut previous = SharedSessionState { state: SessionState::Locked, generation };
        std::mem::swap(self, &mut previous);
        retire(previous.state)
    }

    /// What a monitor spawned at `generation` does when it fires: it locks
    /// the session only if that session is still the one of `generation`.
    pub fn expire(&mut self, generation: u64) -> (r: Option<ClosedSession<H>>)
        ensures
            final(self)@ == old(self)@.after_expire(generation),
            if old(self)@.expires_at(generation) {
                retired(old(self)@.state, r)
            } else {
                r is None
            },
    {
        let current = match &self.state {
            SessionState::Locked => false,
            SessionState::Unlocked { generation: g, .. } => *g == generation,
        };
        if current {
            self.lock()
        } else {
            None
        }
    }

    /// A read-only view of the cell.
    pub fn snapshot(&self) -> (r: SessionSnapshot)
        ensures
            r.unlocked == !self@.is_locked(),
            r.generation == self@.generation,
            match self@.state {
                SessionState::Locked => r.deadline is None,
                SessionState::Unlocked { deadline, .. } => r.deadline == Some(deadline),
            },
    {
        match &self.state {
            SessionState::Locked => SessionSnapshot {
                unlocked: false,
                generation: self.generation,
                deadline: None,
            },
            SessionState::Unlocked { deadline, .. } => SessionSnapshot {
                unlocked: true,
                generation: self.generation,
                deadline: Some(*deadline),
            },
        }
    }

    /// Runs `f` on the open store handle; fails with `SessionLocked` where
    /// no session is open.
    pub fn with_store<R, F: FnOnce(&H) -> R>(&self, f: F) -> (r: Result<R, SessionError>)
        requires
            forall|h: &H| f.requires((h,)),
        ensures
            match r {
                Ok(v) => self@.handle() matches Some(h) && f.ensures((&h,), v),
                Err(e) => self@.is_locked() && e == SessionError::SessionLocked,
            },
    {
        match &self.state {
            SessionState::Locked => Err(SessionError::SessionLocked),
            SessionState::Unlocked { handle, .. } => Ok(f(handle)),
        }
    }
}

} // verus!
