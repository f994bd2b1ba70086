//! The bounded session pool: idle/in-use accounting, the recycle policy, and
//! the laws that make checkout safe — no session is held by two callers, no
//! discarded session ever comes back, and only a session whose clear
//! sequence completed cleanly is reused.
//!
//! The generic queueing and suspension of waiting acquirers belong to the
//! calling layer's pooling primitive; this model is the policy and the
//! bookkeeping it must respect.

use vstd::prelude::*;

verus! {

use vstd::set::group_set_axioms;
use crate::config::ConnectionConfig;
use crate::config::ConnectionConfigModel;
use crate::session::SessionWrapper;
use crate::session::SelectState;
use crate::session::ImapError;

broadcast use group_set_axioms;

/// One pooled session: the wrapper plus the pool's identity tag for it.
#[derive(Debug)]
pub struct PooledSession {
    pub id: u64,
    pub session: SessionWrapper,
}

/// Mathematical model of a pooled session.
pub struct PooledSessionModel {
    pub id: u64,
    pub state: SelectState,
}

impl View for PooledSession {
    type V = PooledSessionModel;

    open spec fn view(&self) -> PooledSessionModel {
        PooledSessionModel { id: self.id, state: self.session@ }
    }
}

impl DeepView for PooledSession {
    type V = PooledSessionModel;

    open spec fn deep_view(&self) -> PooledSessionModel {
        self.view()
    }
}

/// Mathematical model of the pool: its fixed capacity, the idle sessions in
/// order, the number checked out, the ids currently lent, and the ids
/// retired for good.
pub struct PoolModel {
    pub capacity: int,
    pub next_id: u64,
    pub idle: Seq<PooledSessionModel>,
    pub in_use: int,
    pub lent: Set<u64>,
    pub retired: Set<u64>,
}

impl PoolModel {
    /// Well-formedness: the partition respects capacity; every idle session
    /// is unselected, uniquely identified, and neither lent nor retired;
    /// lent ids are live and never retired.
    pub open spec fn wf(self) -> bool {
        &&& 0 <= self.in_use
        &&& self.idle.len() + self.in_use <= self.capacity
        &&& self.lent.finite()
        &&& self.in_use == self.lent.len()
        &&& forall|i: int|
            0 <= i < self.idle.len() ==> (#[trigger] self.idle[i]).state
                == SelectState::Unselected
        &&& forall|i: int| 0 <= i < self.idle.len() ==> (#[trigger] self.idle[i]).id < self.next_id
        &&& forall|i: int, j: int|
            0 <= i < j < self.idle.len() ==> self.idle[i].id != self.idle[j].id
        &&& forall|i: int|
            0 <= i < self.idle.len() ==> !self.lent.contains((#[trigger] self.idle[i]).id)
                && !self.retired.contains(self.idle[i].id)
        &&& forall|id: u64| #[trigger] self.lent.contains(id) ==> id < self.next_id
        &&& forall|id: u64| #[trigger] self.lent.contains(id) ==> !self.retired.contains(id)
        &&& forall|id: u64| #[trigger] self.retired.contains(id) ==> id < self.next_id
    }
}

/// Whether a returned session may rejoin the idle set: only one whose clear
/// sequence completed — a failed clear discards the session even when its
/// rejection left the model usable, since the server's real state can no
/// longer be trusted — and which that sequence proved unselected.
pub open spec fn spec_reusable(s: PooledSessionModel, clear_completed: bool) -> bool {
    clear_completed && s.state == SelectState::Unselected
}

/// The pool after a session comes back: one that recycling proved reusable
/// rejoins the idle set; any other is retired for good.
pub open spec fn spec_release(m: PoolModel, s: PooledSessionModel, clear_completed: bool) -> PoolModel {
    if spec_reusable(s, clear_completed) {
        PoolModel { idle: m.idle.push(s), in_use: m.in_use - 1, lent: m.lent.remove(s.id), ..m }
    } else {
        PoolModel {
            in_use: m.in_use - 1,
            lent: m.lent.remove(s.id),
            retired: m.retired.insert(s.id),
            ..m
        }
    }
}

/// The pool after an acquisition attempt: the most recently idled session is
/// lent out, if any is idle; otherwise nothing changes.
pub open spec fn spec_acquire(m: PoolModel) -> PoolModel {
    if m.idle.len() > 0 {
        PoolModel {
            idle: m.idle.drop_last(),
            in_use: m.in_use + 1,
            lent: m.lent.insert(m.idle.last().id),
            ..m
        }
    } else {
        m
    }
}

/// The session an acquisition reuses, if any is idle.
pub open spec fn spec_acquire_reused(m: PoolModel) -> Option<PooledSessionModel> {
    if m.idle.len() > 0 {
        Some(m.idle.last())
    } else {
        None
    }
}

/// The pool after a freshly created session is installed, checked out to the
/// caller that demanded it.
pub open spec fn spec_install(m: PoolModel) -> PoolModel {
    PoolModel {
        next_id: (m.next_id + 1) as u64,
        in_use: m.in_use + 1,
        lent: m.lent.insert(m.next_id),
        ..m
    }
}

/// What an acquisition attempt yields: an idle session, reused; a demand for
/// a fresh one, capacity permitting; or nothing, the pool being exhausted.
#[derive(Debug)]
pub enum AcquireOutcome {
    Reused(PooledSession),
    NeedsCreate,
    Exhausted,
}

/// The idle/in-use bookkeeping of one bounded pool.
pub struct Pool {
    capacity: usize,
    next_id: u64,
    idle: Vec<PooledSession>,
    in_use: usize,
    lent: Ghost<Set<u64>>,
    retired: Ghost<Set<u64>>,
}

impl View for Pool {
    type V = PoolModel;

    closed spec fn view(&self) -> PoolModel {
        PoolModel {
            capacity: self.capacity as int,
            next_id: self.next_id,
            idle: self.idle.deep_view(),
            in_use: self.in_use as int,
            lent: self.lent@,
            retired: self.retired@,
        }
    }
}

impl Pool {
    /// An empty pool of the given capacity: no session exists yet; they are
    /// created lazily, on demand.
    pub fn new(capacity: usize) -> (p: Self)
        ensures
            p@.wf(),
            p@.capacity == capacity as int,
            p@.next_id == 0,
            p@.idle.len() == 0,
            p@.in_use == 0,
            p@.lent == Set::<u64>::empty(),
            p@.retired == Set::<u64>::empty(),
    {
        let p = Pool {
            capacity,
            next_id: 0,
            idle: Vec::new(),
            in_use: 0,
            lent: Ghost(Set::empty()),
            retired: Ghost(Set::empty()),
        };
        proof {
            assert(p@.idle =~= Seq::<PooledSessionModel>::empty());
        }
        p
    }

    /// The configured maximum number of live sessions.
    pub fn capacity(&self) -> (c: usize)
        ensures
            c as int == self@.capacity,
    {
        self.capacity
    }

    /// How many sessions are checked out right now.
    pub fn in_use(&self) -> (n: usize)
        ensures
            n as int == self@.in_use,
    {
        self.in_use
    }

    /// How many sessions sit idle right now.
    pub fn idle_count(&self) -> (n: usize)
        ensures
            n as int == self@.idle.len(),
    {
        self.idle.len()
    }

    /// One acquisition attempt. Reuses the most recently idled session if
    /// any — always unselected, never a retired one; otherwise asks the
    /// caller to create a replacement if capacity allows, and reports
    /// exhaustion if not.
    pub fn acquire(&mut self) -> (r: AcquireOutcome)
        requires
            old(self)@.wf(),
        ensures
            final(self)@ == spec_acquire(old(self)@),
            final(self)@.wf(),
            old(self)@.idle.len() > 0 ==> (r matches AcquireOutcome::Reused(s) && s@ == old(
                self,
            )@.idle.last() && s@.state == SelectState::Unselected && !old(self)@.retired.contains(
                s@.id,
            )),
            old(self)@.idle.len() == 0 && old(self)@.in_use < old(self)@.capacity ==> r
                matches AcquireOutcome::NeedsCreate,
            old(self)@.idle.len() == 0 && old(self)@.in_use >= old(self)@.capacity ==> r
                matches AcquireOutcome::Exhausted,
    {
        let ghost m0 = self@;
        match self.idle.pop() {
            Some(s) => {
                self.in_use = self.in_use + 1;
                proof {
                    self.lent@ = self.lent@.insert(s.id);
                }
                proof {
                    assert(self@.idle =~= m0.idle.drop_last());
                    assert(s@ == m0.idle.last());
                    assert(self@ == spec_acquire(m0));
                }
                AcquireOutcome::Reused(s)
            },
            None => {
                proof {
                    assert(self@.idle =~= m0.idle);
                    assert(self@ == spec_acquire(m0));
                }
                if self.in_use < self.capacity {
                    AcquireOutcome::NeedsCreate
                } else {
                    AcquireOutcome::Exhausted
                }
            },
        }
    }

    /// Installs a freshly created, authenticated session, checked out to the
    /// caller whose demand created it.
    pub fn install(&mut self, s: SessionWrapper) -> (h: PooledSession)
        requires
            old(self)@.wf(),
            old(self)@.idle.len() + old(self)@.in_use < old(self)@.capacity,
            old(self)@.next_id < u64::MAX,
        ensures
            final(self)@ == spec_install(old(self)@),
            final(self)@.wf(),
            h@.id == old(self)@.next_id,
            h.session == s,
    {
        let ghost m0 = self@;
        let id = self.next_id;
        self.next_id = self.next_id + 1;
        self.in_use = self.in_use + 1;
        proof {
            self.lent@ = self.lent@.insert(id);
        }
        proof {
            assert(self@.idle =~= m0.idle);
            assert(self@ == spec_install(m0));
        }
        PooledSession { id, session: s }
    }

    /// Takes back a checked-out session together with the outcome of its
    /// clear sequence. Only one whose clear completed and left it unselected
    /// rejoins the idle set; any other — a failed clear above all — is
    /// retired, its id never handed out again, and the accounting reflects
    /// its removal at once.
    pub fn release(&mut self, s: PooledSession, clear_completed: bool) -> (r: Result<
        (),
        ImapError,
    >)
        requires
            old(self)@.wf(),
            old(self)@.lent.contains(s@.id),
        ensures
            final(self)@ == spec_release(old(self)@, s@, clear_completed),
            final(self)@.wf(),
            r matches Ok(()) <==> spec_reusable(s@, clear_completed),
            !spec_reusable(s@, clear_completed) ==> r == Err::<(), ImapError>(ImapError::Recycle),
    {
        let ghost m0 = self@;
        proof {
            assert(m0.lent.len() >= 1);
        }
        self.in_use = self.in_use - 1;
        proof {
            self.lent@ = self.lent@.remove(s.id);
        }
        let clean = clear_completed && match s.session.select_state() {
            SelectState::Unselected => true,
            _ => false,
        };
        if clean {
            let ghost sm = s@;
            self.idle.push(s);
            proof {
                assert(self@.idle =~= m0.idle.push(sm));
                assert(self@ == spec_release(m0, sm, clear_completed));
            }
            Ok(())
        } else {
            proof {
                self.retired@ = self.retired@.insert(s.id);
            }
            proof {
                assert(self@.idle =~= m0.idle);
                assert(self@ == spec_release(m0, s@, clear_completed));
            }
            Err(ImapError::Recycle)
        }
    }
}

/// Law (exclusive checkout): a well-formed pool never has more sessions
/// checked out than its capacity, however many callers contend.
pub proof fn lemma_exclusive_checkout(m: PoolModel)
    requires
        m.wf(),
    ensures
        0 <= m.in_use,
        m.in_use + m.idle.len() <= m.capacity,
        m.in_use <= m.capacity,
{
}

/// Law (recycle then reuse): releasing a session whose clear sequence
/// completed and left it unselected keeps the pool well formed, and the
/// next acquisition reuses that very session, in the unselected state.
pub proof fn lemma_recycle_then_reuse(m: PoolModel, s: PooledSessionModel)
    requires
        m.wf(),
        m.lent.contains(s.id),
        s.state == SelectState::Unselected,
    ensures
        spec_release(m, s, true).wf(),
        spec_acquire_reused(spec_release(m, s, true)) == Some(s),
{
    let m1 = spec_release(m, s, true);
    assert(m1.idle.last() == s);
    assert forall|i: int| 0 <= i < m1.idle.len() implies (#[trigger] m1.idle[i]).state
        == SelectState::Unselected by {
        if i < m.idle.len() {
            assert(m1.idle[i] == m.idle[i]);
        }
    }
}

/// Law (recycle failure discards): a session whose clear sequence failed —
/// whatever state that failure left the model in — or that kept a residual
/// selection is retired: the accounting reflects its removal at once, and
/// the idle set is untouched, so no subsequent acquisition returns it.
pub proof fn lemma_recycle_failure_discards(
    m: PoolModel,
    s: PooledSessionModel,
    clear_completed: bool,
)
    requires
        m.wf(),
        m.lent.contains(s.id),
        !spec_reusable(s, clear_completed),
    ensures
        spec_release(m, s, clear_completed).wf(),
        spec_release(m, s, clear_completed).retired.contains(s.id),
        spec_release(m, s, clear_completed).in_use == m.in_use - 1,
        spec_release(m, s, clear_completed).idle == m.idle,
{
}

/// Law: an acquisition from a well-formed pool never hands out a retired
/// session.
pub proof fn lemma_retired_never_reused(m: PoolModel, id: u64)
    requires
        m.wf(),
        m.retired.contains(id),
    ensures
        spec_acquire_reused(m) matches Some(s) ==> s.id != id,
{
}

/// Law: no transition shrinks the retired set — retirement is permanent.
pub proof fn lemma_retirement_permanent(
    m: PoolModel,
    s: PooledSessionModel,
    clear_completed: bool,
)
    ensures
        m.retired.subset_of(spec_release(m, s, clear_completed).retired),
        m.retired == spec_acquire(m).retired,
        m.retired == spec_install(m).retired,
{
}

/// The pool's policy object: it fixes the connection configuration every
/// created session uses, and judges a returned session before reuse.
#[derive(Debug)]
pub struct Manager {
    config: ConnectionConfig,
}

impl View for Manager {
    type V = ConnectionConfigModel;

    closed spec fn view(&self) -> ConnectionConfigModel {
        self.config@
    }
}

impl Manager {
    /// A policy object for one pool, with its fixed connection
    /// configuration.
    pub fn new(config: ConnectionConfig) -> (m: Self)
        ensures
            m@ == config@,
    {
        Manager { config }
    }

    /// The connection configuration every created session uses.
    pub fn config(&self) -> (c: &ConnectionConfig)
        ensures
            c@ == self@,
    {
        &self.config
    }

    /// The recycle verdict for a returned session: reusable only if its
    /// clear sequence completed — any clear failure discards the session,
    /// even one whose protocol rejection left the model usable, since the
    /// server's real state can then no longer be trusted — and if that
    /// sequence left it unselected. The failure stays inside the pool.
    pub fn recycle_check(&self, s: &SessionWrapper, clear_completed: bool) -> (r: Result<
        (),
        Error,
    >)
        ensures
            r matches Ok(()) <==> (clear_completed && s@ == SelectState::Unselected),
            !(clear_completed && s@ == SelectState::Unselected) ==> r == Err::<(), Error>(
                Error::ClientError(ImapError::Recycle),
            ),
    {
        if !clear_completed {
            return Err(Error::ClientError(ImapError::Recycle));
        }
        match s.select_state() {
            SelectState::Unselected => Ok(()),
            _ => Err(Error::ClientError(ImapError::Recycle)),
        }
    }
}

/// A pool-level error, wrapping the session error that caused it.
#[derive(Debug, Clone, Copy, PartialEq, Eq, Structural)]
pub enum Error {
    ClientError(ImapError),
}

} // verus!
