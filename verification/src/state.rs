use crate::dial::DialOutcome;
use crate::entry::IdleConn;
use crate::error::PoolError;
use crate::model::PoolModel;
use std::collections::VecDeque;
use vstd::prelude::*;

verus! {

/// What an acquisition does after its first half.
pub enum GetStep<C> {
    /// An idle entry was taken from the registry: it is the lease.
    Reuse(IdleConn<C>),
    /// Nothing was idle and the pool is full: the acquisition fails.
    Reject,
    /// Nothing was idle and a place was counted: a connection is to be dialled
    /// and the result reported with `finish_get`.
    Dial,
}

/// What one visit of a sweep does after its first half.
pub enum CheckStep<C> {
    /// The registry is empty: the sweep is over.
    Done,
    /// The oldest entry had expired and is gone.
    Evicted,
    /// The oldest entry is to be probed and the result reported with
    /// `finish_check`.
    Probe(IdleConn<C>),
}

/// The state that all users of one pool share: the registry of idle
/// connections and the count of the connections that the pool owns.
pub struct PoolInternals<C> {
    conns: VecDeque<IdleConn<C>>,
    active: u32,
    max_size: u32,
}

impl<C> View for PoolInternals<C> {
    type V = PoolModel<C>;

    closed spec fn view(&self) -> PoolModel<C> {
        PoolModel { idle: self.conns@, active: self.active as nat, max_size: self.max_size as nat }
    }
}

impl<C> PoolInternals<C> {
    #[verifier::type_invariant]
    spec fn wf(self) -> bool {
        self@.inv()
    }

    /// A pool that owns nothing and may own `max_size` connections; zero
    /// stands for no limit.
    pub fn new(max_size: u32) -> (pool: Self)
        ensures
            pool@ == PoolModel::<C>::empty(max_size as nat),
            pool@.inv(),
    {
        PoolInternals { conns: VecDeque::new(), active: 0, max_size }
    }

    /// The number of connections that the pool may own; zero stands for no
    /// limit.
    pub fn max_size(&self) -> (n: u32)
        ensures
            n == self@.max_size,
    {
        self.max_size
    }

    /// The number of connections that the pool owns.
    pub fn active(&self) -> (n: u32)
        ensures
            n == self@.active,
            self@.inv(),
    {
        proof {
            use_type_invariant(self);
        }
        self.active
    }

    /// The number of idle connections.
    pub fn idle_count(&self) -> (n: usize)
        ensures
            n == self@.idle.len(),
            self@.inv(),
    {
        proof {
            use_type_invariant(self);
        }
        self.conns.len()
    }

    /// The number of connections that the pool owns and that are not idle.
    pub fn leased(&self) -> (n: u32)
        ensures
            n == self@.leased(),
            self@.inv(),
    {
        proof {
            use_type_invariant(self);
        }
        let idle = self.conns.len();
        self.active - (idle as u32)
    }

    /// Whether the pool may open no further connection: it has a limit and
    /// owns as many as that.
    pub fn exceed_limit(&self) -> (full: bool)
        ensures
            full == self@.at_capacity(),
            self@.inv(),
    {
        proof {
            use_type_invariant(self);
        }
        self.max_size > 0 && self.active >= self.max_size
    }

    fn pop_front(&mut self) -> (front: Option<IdleConn<C>>)
        ensures
            old(self)@.idle.len() > 0 ==> front == Some(old(self)@.idle[0]) && final(self)@ == old(self)@.pop_front(),
            old(self)@.idle.len() == 0 ==> front.is_none() && final(self)@ == old(self)@,
            final(self)@.inv(),
    {
        proof {
            use_type_invariant(&*self);
        }
        let mut conns = VecDeque::new();
        core::mem::swap(&mut conns, &mut self.conns);
        let front = conns.pop_front();
        self.conns = conns;
        front
    }

    fn push_back(&mut self, entry: IdleConn<C>)
        requires
            old(self)@.leased() > 0,
        ensures
            final(self)@ == old(self)@.push_back(entry),
            final(self)@.inv(),
    {
        proof {
            use_type_invariant(&*self);
        }
        let mut conns = VecDeque::new();
        core::mem::swap(&mut conns, &mut self.conns);
        conns.push_back(entry);
        self.conns = conns;
    }

    fn incr_active(&mut self)
        requires
            !old(self)@.at_capacity(),
            old(self)@.active < u32::MAX,
        ensures
            final(self)@ == old(self)@.incr_active(),
            final(self)@.inv(),
    {
        proof {
            use_type_invariant(&*self);
        }
        self.active = self.active + 1;
    }

    fn decr_active(&mut self)
        requires
            old(self)@.leased() > 0,
        ensures
            final(self)@ == old(self)@.decr_active(),
            final(self)@.inv(),
    {
        proof {
            use_type_invariant(&*self);
        }
        self.active = self.active - 1;
    }

    /// The first half of an acquisition, to be made in one piece: takes the
    /// oldest idle entry; or, with none idle, refuses if the pool is full and
    /// otherwise counts a place for the connection that the caller now dials.
    /// The counter must be able to count that place.
    pub fn begin_get(&mut self) -> (step: GetStep<C>)
        requires
            old(self)@.can_get(),
        ensures
            final(self)@ == old(self)@.begin_get(),
            final(self)@.inv(),
            match step {
                GetStep::Reuse(entry) => old(self)@.idle.len() > 0 && entry == old(self)@.idle[0],
                GetStep::Reject => old(self)@.idle.len() == 0 && old(self)@.at_capacity(),
                GetStep::Dial => old(self)@.idle.len() == 0 && !old(self)@.at_capacity(),
            },
    {
        match self.pop_front() {
            Some(entry) => GetStep::Reuse(entry),
            None => {
                if self.exceed_limit() {
                    GetStep::Reject
                } else {
                    self.incr_active();
                    GetStep::Dial
                }
            },
        }
    }

    /// The second half of an acquisition that dialled, finished at `now`: a
    /// connection becomes an entry opened and last visited at `now`; after a
    /// failed or timed-out dial the place counted for it is given up.
    pub fn finish_get<E>(&mut self, outcome: DialOutcome<C, E>, now: u64) -> (lease: Result<IdleConn<C>, PoolError<E>>)
        requires
            old(self)@.leased() > 0,
        ensures
            final(self)@ == old(self)@.finish_get(outcome),
            final(self)@.inv(),
            lease == match outcome {
                DialOutcome::Connected(conn) => Ok::<IdleConn<C>, PoolError<E>>(IdleConn::fresh(conn, now)),
                DialOutcome::Failed(e) => Err(PoolError::ConnectFailed(e)),
                DialOutcome::TimedOut => Err(PoolError::AcquireTimeout),
            },
    {
        match outcome {
            DialOutcome::Connected(conn) => {
                proof {
                    use_type_invariant(&*self);
                }
                Ok(IdleConn::new(conn, now))
            },
            DialOutcome::Failed(e) => {
                self.decr_active();
                Err(PoolError::ConnectFailed(e))
            },
            DialOutcome::TimedOut => {
                self.decr_active();
                Err(PoolError::AcquireTimeout)
            },
        }
    }

    /// Releases `entry` at `now`: it joins the tail of the registry, last
    /// visited at `now`.  The count of owned connections stays.
    pub fn put(&mut self, entry: IdleConn<C>, now: u64)
        requires
            old(self)@.leased() > 0,
        ensures
            final(self)@ == old(self)@.put(entry, now),
            final(self)@.inv(),
    {
        let mut entry = entry;
        entry.last_visited = now;
        self.push_back(entry);
    }

    /// The first half of one visit of a sweep at `now`: takes the oldest idle
    /// entry, evicts it if it has expired and hands it out for a probe
    /// otherwise.
    pub fn begin_check(&mut self, idle_timeout: Option<u64>, max_lifetime: Option<u64>, now: u64) -> (step: CheckStep<C>)
        ensures
            final(self)@ == old(self)@.begin_check(idle_timeout, max_lifetime, now),
            final(self)@.inv(),
            match step {
                CheckStep::Done => old(self)@.idle.len() == 0,
                CheckStep::Evicted => old(self)@.idle.len() > 0 && old(self)@.idle[0].expired(
                    idle_timeout,
                    max_lifetime,
                    now,
                ),
                CheckStep::Probe(entry) => old(self)@.idle.len() > 0 && entry == old(self)@.idle[0]
                    && !entry.expired(idle_timeout, max_lifetime, now),
            },
    {
        proof {
            use_type_invariant(&*self);
        }
        match self.pop_front() {
            None => CheckStep::Done,
            Some(entry) => {
                if entry.exceed_idle_timeout(idle_timeout, now) || entry.exceed_max_lifetime(max_lifetime, now) {
                    self.decr_active();
                    CheckStep::Evicted
                } else {
                    CheckStep::Probe(entry)
                }
            },
        }
    }

    /// The second half of that visit: a healthy entry joins the tail of the
    /// registry unchanged, an unhealthy one is dropped and no longer counted.
    pub fn finish_check(&mut self, entry: IdleConn<C>, healthy: bool)
        requires
            old(self)@.leased() > 0,
        ensures
            final(self)@ == old(self)@.finish_check(entry, healthy),
            final(self)@.inv(),
    {
        if healthy {
            self.push_back(entry);
        } else {
            self.decr_active();
        }
    }
}

} // verus!
