use vstd::prelude::*;

verus! {

/// The accounting of the bounded permit pool that caps how many transfers
/// stream at once. A task must be granted a permit before it streams and
/// gives the permit back on every exit path; the pool itself never lets the
/// outstanding count pass the bound. The waiting is the caller's affair —
/// a refused grant means "ask again once a permit has come back".
#[derive(Clone, Copy, PartialEq, Eq, Structural, Debug)]
pub struct ConcurrencyLimiter {
    /// The bound: how many permits may be out at once.
    pub max_permits: usize,
    /// How many permits are out right now.
    pub outstanding: usize,
}

impl ConcurrencyLimiter {
    /// The pool is lawful when the permits out never pass the bound, and
    /// the bound admits at least one transfer.
    pub open spec fn wf(self) -> bool {
        &&& self.max_permits >= 1
        &&& self.outstanding <= self.max_permits
    }

    /// A fresh pool with every permit available.
    pub fn new(max_permits: usize) -> (l: ConcurrencyLimiter)
        requires
            max_permits >= 1,
        ensures
            l.wf(),
            l.max_permits == max_permits,
            l.outstanding == 0,
    {
        ConcurrencyLimiter { max_permits, outstanding: 0 }
    }

    /// Grants a permit exactly when one is free: the grant succeeds if and
    /// only if fewer than `max_permits` were out, and a granted permit is
    /// counted at once.
    pub fn try_acquire(&mut self) -> (granted: bool)
        requires
            old(self).wf(),
        ensures
            final(self).wf(),
            granted <==> old(self).outstanding < old(self).max_permits,
            granted ==> final(self).outstanding == old(self).outstanding + 1,
            !granted ==> final(self).outstanding == old(self).outstanding,
            final(self).max_permits == old(self).max_permits,
    {
        if self.outstanding < self.max_permits {
            self.outstanding = self.outstanding + 1;
            true
        } else {
            false
        }
    }

    /// Takes a permit back. Each permit is released exactly once, so a
    /// release only ever meets an outstanding count of at least one.
    pub fn release(&mut self)
        requires
            old(self).wf(),
            old(self).outstanding >= 1,
        ensures
            final(self).wf(),
            final(self).outstanding == old(self).outstanding - 1,
            final(self).max_permits == old(self).max_permits,
    {
        self.outstanding = self.outstanding - 1;
    }
}

/// One step of the pool's history: a task asks for a permit, or gives one
/// back.
pub enum PermitEvent {
    /// A task asks for a permit; the pool grants it only when one is free.
    Acquire,
    /// A task gives its permit back.
    Release,
}

/// The pool after one event: an acquire is granted only when a permit is
/// free, a release of a permit that is out takes it back.
pub open spec fn apply_permit_event(l: ConcurrencyLimiter, e: PermitEvent) -> ConcurrencyLimiter {
    match e {
        PermitEvent::Acquire => if l.outstanding < l.max_permits {
            ConcurrencyLimiter { outstanding: (l.outstanding + 1) as usize, ..l }
        } else {
            l
        },
        PermitEvent::Release => if l.outstanding >= 1 {
            ConcurrencyLimiter { outstanding: (l.outstanding - 1) as usize, ..l }
        } else {
            l
        },
    }
}

/// The pool after a whole history of events, first to last.
pub open spec fn apply_permit_events(l: ConcurrencyLimiter, s: Seq<PermitEvent>) -> ConcurrencyLimiter
    decreases s.len(),
{
    if s.len() == 0 {
        l
    } else {
        apply_permit_events(apply_permit_event(l, s[0]), s.drop_first())
    }
}

/// Concurrency bound: however many tasks ask, and in whatever order they
/// acquire and release, the pool never has more than `max_permits` permits
/// out — so at no instant do more than that many transfers stream.
pub proof fn lemma_concurrency_bound(l: ConcurrencyLimiter, s: Seq<PermitEvent>)
    requires
        l.wf(),
    ensures
        apply_permit_events(l, s).wf(),
        apply_permit_events(l, s).outstanding <= l.max_permits,
        apply_permit_events(l, s).max_permits == l.max_permits,
    decreases s.len(),
{
    if s.len() > 0 {
        lemma_concurrency_bound(apply_permit_event(l, s[0]), s.drop_first());
    }
}

} // verus!
