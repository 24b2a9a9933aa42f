use crate::dial::DialOutcome;
use crate::entry::IdleConn;
use crate::error::PoolError;
use vstd::prelude::*;

verus! {

/// The pool as a mathematical value: the registry of idle connections, oldest
/// release first, the number of connections that the pool owns (idle, leased
/// out, being probed, or still being dialled), and the largest number it may
/// own, where zero stands for no limit.
pub struct PoolModel<C> {
    pub idle: Seq<IdleConn<C>>,
    pub active: nat,
    pub max_size: nat,
}

/// The entries of `entries` that outlive a sweep at `now`, in their order.
/// An expired entry does not; another one does if its probe succeeded, and it
/// then holds the connection as the probe left it.  `probes` has one item per
/// entry: `Some` of the probed connection, or `None` for a failed probe (the
/// item of an expired entry is not looked at).
pub open spec fn survivors<C>(
    entries: Seq<IdleConn<C>>,
    idle_timeout: Option<u64>,
    max_lifetime: Option<u64>,
    now: u64,
    probes: Seq<Option<C>>,
) -> Seq<IdleConn<C>>
    recommends
        probes.len() == entries.len(),
    decreases entries.len(),
{
    if entries.len() == 0 {
        Seq::empty()
    } else {
        let earlier = survivors(entries.drop_last(), idle_timeout, max_lifetime, now, probes.drop_last());
        let entry = entries.last();
        if entry.expired(idle_timeout, max_lifetime, now) {
            earlier
        } else {
            match probes.last() {
                Some(conn) => earlier.push(entry.holding(conn)),
                None => earlier,
            }
        }
    }
}

impl<C> PoolModel<C> {
    /// A pool that owns nothing yet.
    pub open spec fn empty(max_size: nat) -> Self {
        PoolModel { idle: Seq::empty(), active: 0, max_size }
    }

    /// What holds of a pool at every moment: no more connections are idle than
    /// the pool owns, a pool with a limit owns no more than the limit, and the
    /// counter holds the count.
    pub open spec fn inv(self) -> bool {
        &&& self.idle.len() <= self.active
        &&& self.max_size > 0 ==> self.active <= self.max_size
        &&& self.active <= u32::MAX
        &&& self.max_size <= u32::MAX
    }

    /// The number of connections that the pool owns and that are not idle.
    pub open spec fn leased(self) -> int {
        self.active - self.idle.len()
    }

    /// Whether the pool may open no further connection: it has a limit and
    /// owns as many as that.  A pool without a limit is never full.
    pub open spec fn at_capacity(self) -> bool {
        self.max_size > 0 && self.active >= self.max_size
    }

    /// Whether an acquisition can be made: one that has to count a place for
    /// a new connection needs a counter that is not at its end.  Only a pool
    /// without a limit that owns `u32::MAX` connections, none of them idle,
    /// is left out.
    pub open spec fn can_get(self) -> bool {
        self.idle.len() > 0 || self.max_size > 0 || self.active < u32::MAX
    }

    pub open spec fn push_back(self, entry: IdleConn<C>) -> Self {
        PoolModel { idle: self.idle.push(entry), active: self.active, max_size: self.max_size }
    }

    pub open spec fn pop_front(self) -> Self {
        PoolModel { idle: self.idle.drop_first(), active: self.active, max_size: self.max_size }
    }

    pub open spec fn incr_active(self) -> Self {
        PoolModel { idle: self.idle, active: self.active + 1, max_size: self.max_size }
    }

    pub open spec fn decr_active(self) -> Self {
        PoolModel { idle: self.idle, active: (self.active - 1) as nat, max_size: self.max_size }
    }

    /// The first half of an acquisition: the oldest idle entry leaves the
    /// registry; or, with none idle and room left, a place is counted for the
    /// connection about to be dialled; or nothing changes.
    pub open spec fn begin_get(self) -> Self {
        if self.idle.len() > 0 {
            self.pop_front()
        } else if self.at_capacity() {
            self
        } else {
            self.incr_active()
        }
    }

    /// The second half, after a dial: a connection fills the place counted for
    /// it, a failed or timed-out dial gives the place up.
    pub open spec fn finish_get<E>(self, outcome: DialOutcome<C, E>) -> Self {
        match outcome {
            DialOutcome::Connected(_) => self,
            _ => self.decr_active(),
        }
    }

    /// A release at `now`: the entry joins the tail of the registry.
    pub open spec fn put(self, entry: IdleConn<C>, now: u64) -> Self {
        self.push_back(entry.touched(now))
    }

    /// The first half of one visit of a sweep at `now`: the oldest idle entry
    /// leaves the registry, for good if it has expired.
    pub open spec fn begin_check(self, idle_timeout: Option<u64>, max_lifetime: Option<u64>, now: u64) -> Self {
        if self.idle.len() == 0 {
            self
        } else if self.idle[0].expired(idle_timeout, max_lifetime, now) {
            self.pop_front().decr_active()
        } else {
            self.pop_front()
        }
    }

    /// The second half, after the probe: a healthy entry joins the tail of the
    /// registry as it is, another one is given up.
    pub open spec fn finish_check(self, entry: IdleConn<C>, healthy: bool) -> Self {
        if healthy {
            self.push_back(entry)
        } else {
            self.decr_active()
        }
    }

    /// The pool after a whole acquisition whose dial, if there is one, ends
    /// with `outcome`.
    pub open spec fn get<E>(self, outcome: DialOutcome<C, E>) -> Self {
        if self.idle.len() > 0 || self.at_capacity() {
            self.begin_get()
        } else {
            self.begin_get().finish_get(outcome)
        }
    }

    /// What that acquisition, finished at `now`, hands out.
    pub open spec fn get_result<E>(self, outcome: DialOutcome<C, E>, now: u64) -> Result<IdleConn<C>, PoolError<E>> {
        if self.idle.len() > 0 {
            Ok(self.idle[0])
        } else if self.at_capacity() {
            Err(PoolError::CapacityExceeded)
        } else {
            match outcome {
                DialOutcome::Connected(conn) => Ok(IdleConn::fresh(conn, now)),
                DialOutcome::Failed(e) => Err(PoolError::ConnectFailed(e)),
                DialOutcome::TimedOut => Err(PoolError::AcquireTimeout),
            }
        }
    }

    /// The pool after a whole sweep at `now` over the entries idle at its
    /// start, `probes` as for [`survivors`].
    pub open spec fn check(
        self,
        idle_timeout: Option<u64>,
        max_lifetime: Option<u64>,
        now: u64,
        probes: Seq<Option<C>>,
    ) -> Self {
        let kept = survivors(self.idle, idle_timeout, max_lifetime, now, probes);
        PoolModel {
            idle: kept,
            active: (self.active - (self.idle.len() - kept.len())) as nat,
            max_size: self.max_size,
        }
    }
}

} // verus!
