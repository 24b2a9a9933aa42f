use crate::builder::Builder;
use crate::clock::Clock;
use crate::dial::DialOutcome;
use crate::entry::IdleConn;
use crate::error::PoolError;
use crate::manager::ManageConnection;
use crate::model::{survivors, PoolModel};
use crate::state::{CheckStep, GetStep, PoolInternals};
use vstd::prelude::*;

verus! {

/// A connection leased from a pool.  It is handed back with `Pool::put`, which
/// takes it by value: a lease cannot be released twice.
pub struct Connection<M: ManageConnection> {
    entry: IdleConn<M::Connection>,
}

impl<M: ManageConnection> View for Connection<M> {
    type V = IdleConn<M::Connection>;

    closed spec fn view(&self) -> IdleConn<M::Connection> {
        self.entry
    }
}

impl<M: ManageConnection> std::ops::Deref for Connection<M> {
    type Target = M::Connection;

    fn deref(&self) -> (conn: &M::Connection)
        ensures
            *conn == self@.conn,
    {
        &self.entry.conn
    }
}

impl<M: ManageConnection> Connection<M> {
    /// The connection, to use it and change it.
    pub fn get_mut(&mut self) -> (conn: &mut M::Connection)
        ensures
            *conn == old(self)@.conn,
            final(self)@ == old(self)@.holding(*final(conn)),
    {
        &mut self.entry.conn
    }

    /// The instant at which the connection was opened.
    pub fn created(&self) -> (at: u64)
        ensures
            at == self@.created,
    {
        self.entry.created
    }

    /// The instant at which the connection was last handed back to the pool,
    /// or opened if it never was.
    pub fn last_visited(&self) -> (at: u64)
        ensures
            at == self@.last_visited,
    {
        self.entry.last_visited
    }
}

/// A pool of connections for one owner, which dials and probes with a
/// blocking manager.
pub struct Pool<M: ManageConnection> {
    internals: PoolInternals<M::Connection>,
    config: Builder<M>,
    manager: M,
    clock: Clock,
}

impl<M: ManageConnection> View for Pool<M> {
    type V = PoolModel<M::Connection>;

    closed spec fn view(&self) -> PoolModel<M::Connection> {
        self.internals@
    }
}

impl<M: ManageConnection> Pool<M> {
    /// The tunables that the pool was built with.
    pub closed spec fn config(&self) -> Builder<M> {
        self.config
    }

    /// The manager that the pool was built with.
    pub closed spec fn manager(&self) -> M {
        self.manager
    }

    /// Whether `other` is this pool but for its connections.
    pub open spec fn same_settings(&self, other: &Self) -> bool {
        self.config() == other.config() && self.manager() == other.manager()
    }

    pub(crate) fn assemble(config: Builder<M>, manager: M, internals: PoolInternals<M::Connection>, clock: Clock) -> (pool: Self)
        ensures
            pool@ == internals@,
            pool.config() == config,
            pool.manager() == manager,
    {
        Pool { internals, config, manager, clock }
    }

    /// Creates a new connection pool with a default configuration.
    pub fn new(manager: M) -> (pool: Pool<M>)
        ensures
            pool@ == PoolModel::<M::Connection>::empty(0),
            pool.config().defaults(),
            pool.manager() == manager,
    {
        Pool::builder().build(manager)
    }

    /// Returns a builder type to configure a new pool.
    pub fn builder() -> (builder: Builder<M>)
        ensures
            builder.defaults(),
    {
        Builder::new()
    }

    /// The shared state of the pool, to read it.
    pub fn interval(&self) -> (internals: &PoolInternals<M::Connection>)
        ensures
            internals@ == self@,
    {
        &self.internals
    }

    /// The number of idle connections.
    pub fn idle_count(&self) -> (n: usize)
        ensures
            n == self@.idle.len(),
    {
        self.internals.idle_count()
    }

    /// Whether the pool may open no further connection: it has a limit and
    /// owns as many as that.
    pub fn exceed_limit(&self) -> (full: bool)
        ensures
            full == self@.at_capacity(),
    {
        self.internals.exceed_limit()
    }

    /// Whether `conn` has been idle at `now` for longer than the pool lets a
    /// connection idle.
    pub fn exceed_idle_timeout(&self, conn: &IdleConn<M::Connection>, now: u64) -> (late: bool)
        ensures
            late == crate::entry::overdue(self.config().idle_timeout, conn.last_visited, now),
    {
        conn.exceed_idle_timeout(self.config.idle_timeout, now)
    }

    /// Whether `conn` is older at `now` than the pool lets a connection get.
    pub fn exceed_max_lifetime(&self, conn: &IdleConn<M::Connection>, now: u64) -> (late: bool)
        ensures
            late == crate::entry::overdue(self.config().max_lifetime, conn.created, now),
    {
        conn.exceed_max_lifetime(self.config.max_lifetime, now)
    }

    /// The present instant of the pool's clock, in microseconds since the
    /// pool was built.
    pub fn now(&self) -> u64 {
        self.clock.now()
    }

    /// Retrieves a connection from the pool, allowing a dial the connection
    /// timeout that the pool was built with.
    ///
    /// See [`Pool::get_timeout`].
    pub fn get(&mut self) -> (lease: Result<Connection<M>, PoolError<M::Error>>)
        requires
            old(self)@.can_get(),
        ensures
            final(self).same_settings(old(self)),
            final(self)@.inv(),
            old(self)@.idle.len() > 0 ==> leased_entry(lease) == Ok::<IdleConn<M::Connection>, PoolError<M::Error>>(
                old(self)@.idle[0],
            ) && final(self)@ == old(self)@.pop_front(),
            old(self)@.idle.len() == 0 && old(self)@.at_capacity() ==> (lease matches Err(
                PoolError::CapacityExceeded,
            )) && final(self)@ == old(self)@,
            exists|dialed: Result<M::Connection, M::Error>, started: u64, finished: u64|
                {
                    let outcome = #[trigger] DialOutcome::of(
                        dialed,
                        old(self).config().connection_timeout,
                        started,
                        finished,
                    );
                    &&& final(self)@ == old(self)@.get(outcome)
                    &&& leased_entry(lease) == old(self)@.get_result(outcome, finished)
                },
    {
        let connection_timeout = self.config.connection_timeout;
        self.get_timeout(connection_timeout)
    }

    /// Retrieves a connection from the pool, allowing a dial `connection_timeout`
    /// microseconds; `None` and zero allow it any time.
    ///
    /// The oldest idle connection is handed out if there is one.  Otherwise a
    /// pool that is full fails with `CapacityExceeded`, and one that is not
    /// dials: with a connection made in time the pool owns one more, with an
    /// error or an overrun it is as before and the call fails with
    /// `ConnectFailed` or `AcquireTimeout`.  What the manager returns and how
    /// long it takes is not the pool's to decide: the call is the acquisition
    /// of the model for some result of the dial and some two readings of the
    /// clock.  [`PoolInternals::finish_get`] and [`DialOutcome::classify`] say
    /// what comes of each.
    ///
    /// A pool without a limit that owns `u32::MAX` connections, none of them
    /// idle, cannot count another: the call is not for it.
    pub fn get_timeout(&mut self, connection_timeout: Option<u64>) -> (lease: Result<Connection<M>, PoolError<M::Error>>)
        requires
            old(self)@.can_get(),
        ensures
            final(self).same_settings(old(self)),
            final(self)@.inv(),
            old(self)@.idle.len() > 0 ==> leased_entry(lease) == Ok::<IdleConn<M::Connection>, PoolError<M::Error>>(
                old(self)@.idle[0],
            ) && final(self)@ == old(self)@.pop_front(),
            old(self)@.idle.len() == 0 && old(self)@.at_capacity() ==> (lease matches Err(
                PoolError::CapacityExceeded,
            )) && final(self)@ == old(self)@,
            exists|dialed: Result<M::Connection, M::Error>, started: u64, finished: u64|
                {
                    let outcome = #[trigger] DialOutcome::of(dialed, connection_timeout, started, finished);
                    &&& final(self)@ == old(self)@.get(outcome)
                    &&& leased_entry(lease) == old(self)@.get_result(outcome, finished)
                },
    {
        match self.internals.begin_get() {
            GetStep::Reuse(entry) => {
                let lease = Ok(Connection { entry });
                proof {
                    lemma_get_without_dial(old(self)@, connection_timeout, lease);
                }
                lease
            },
            GetStep::Reject => {
                let lease = Err(PoolError::CapacityExceeded);
                proof {
                    lemma_get_without_dial(old(self)@, connection_timeout, lease);
                }
                lease
            },
            GetStep::Dial => {
                let started = self.clock.now();
                let dialed = self.manager.connect();
                let finished = self.clock.now();
                let outcome = DialOutcome::classify(dialed, connection_timeout, started, finished);
                let settled = self.internals.finish_get(outcome, finished);
                proof {
                    assert(old(self)@.incr_active().decr_active() == old(self)@);
                }
                let lease = match settled {
                    Ok(entry) => Ok(Connection { entry }),
                    Err(e) => Err(e),
                };
                proof {
                    assert(outcome == DialOutcome::of(dialed, connection_timeout, started, finished));
                    assert(leased_entry(lease) == old(self)@.get_result(outcome, finished));
                }
                lease
            },
        }
    }

    /// Hands `conn` back to the pool at the present instant of its clock.
    ///
    /// See [`Pool::put_at`].
    pub fn put(&mut self, conn: Connection<M>)
        requires
            old(self)@.leased() > 0,
        ensures
            final(self).same_settings(old(self)),
            final(self)@.inv(),
            exists|now: u64| final(self)@ == #[trigger] old(self)@.put(conn@, now),
    {
        let now = self.clock.now();
        self.put_at(conn, now);
    }

    /// Hands `conn` back to the pool at `now`: it joins the tail of the
    /// registry, last visited at `now`, and the pool owns as many connections
    /// as before.  The lease must be one of this pool.
    pub fn put_at(&mut self, conn: Connection<M>, now: u64)
        requires
            old(self)@.leased() > 0,
        ensures
            final(self).same_settings(old(self)),
            final(self)@.inv(),
            final(self)@ == old(self)@.put(conn@, now),
    {
        self.internals.put(conn.entry, now);
    }

    /// Sweeps the idle connections at the present instant of the pool's
    /// clock.
    ///
    /// See [`Pool::check_at`].
    pub fn check(&mut self)
        ensures
            final(self).same_settings(old(self)),
            final(self)@.inv(),
            exists|now: u64, probes: Seq<Option<M::Connection>>|
                {
                    &&& probes.len() == old(self)@.idle.len()
                    &&& final(self)@ == #[trigger] old(self)@.check(
                        old(self).config().idle_timeout,
                        old(self).config().max_lifetime,
                        now,
                        probes,
                    )
                },
    {
        let now = self.clock.now();
        self.check_at(now);
    }

    /// Sweeps the idle connections at `now`: visits each connection that is
    /// idle at the start once, oldest release first.  One that has idled or
    /// lived too long is evicted; another one is probed by the manager, and
    /// stays, behind those not yet visited, if the probe succeeds, and is
    /// evicted if it fails.  The pool owns fewer connections by the number
    /// evicted.  What a probe finds is not the pool's to decide: the call is
    /// the sweep of the model for some results of the probes.
    /// [`PoolInternals::finish_check`] says what comes of each.
    pub fn check_at(&mut self, now: u64)
        ensures
            final(self).same_settings(old(self)),
            final(self)@.inv(),
            exists|probes: Seq<Option<M::Connection>>|
                {
                    &&& probes.len() == old(self)@.idle.len()
                    &&& final(self)@ == #[trigger] old(self)@.check(
                        old(self).config().idle_timeout,
                        old(self).config().max_lifetime,
                        now,
                        probes,
                    )
                },
    {
        let idle_timeout = self.config.idle_timeout;
        let max_lifetime = self.config.max_lifetime;
        let n = self.internals.idle_count();
        let ghost before = self@;
        let ghost mut probes: Seq<Option<M::Connection>> = Seq::empty();
        let mut visited: usize = 0;
        proof {
            assert(before.idle.skip(0) =~= before.idle);
            assert(before.idle.take(0) =~= Seq::empty());
        }
        while visited < n
            invariant
                visited <= n,
                n == before.idle.len(),
                before.inv(),
                before == old(self)@,
                idle_timeout == old(self).config().idle_timeout,
                max_lifetime == old(self).config().max_lifetime,
                self.same_settings(old(self)),
                self@.inv(),
                probes.len() == visited,
                self@.max_size == before.max_size,
                self@.idle == before.idle.skip(visited as int) + survivors(
                    before.idle.take(visited as int),
                    idle_timeout,
                    max_lifetime,
                    now,
                    probes,
                ),
                self@.leased() == before.leased(),
            decreases n - visited,
        {
            let ghost earlier = probes;
            let ghost kept = survivors(before.idle.take(visited as int), idle_timeout, max_lifetime, now, earlier);
            let ghost rest = before.idle.skip(visited as int);
            let ghost seen = before.idle.take(visited as int + 1);
            proof {
                assert(rest.len() > 0);
                assert(self@.idle[0] == rest[0]);
                assert(seen.drop_last() =~= before.idle.take(visited as int));
                assert(seen.last() == before.idle[visited as int]);
                assert((rest + kept).drop_first() =~= before.idle.skip(visited as int + 1) + kept);
            }
            match self.internals.begin_check(idle_timeout, max_lifetime, now) {
                // The entries not yet visited are still there: the registry is not empty.
                CheckStep::Done => {},
                CheckStep::Evicted => {
                    proof {
                        probes = earlier.push(None);
                    }
                },
                CheckStep::Probe(entry) => {
                    let mut entry = entry;
                    let healthy = self.manager.check(&mut entry.conn).is_ok();
                    proof {
                        probes = earlier.push(if healthy { Some(entry.conn) } else { None });
                    }
                    self.internals.finish_check(entry, healthy);
                    proof {
                        assert((before.idle.skip(visited as int + 1) + kept).push(entry)
                            =~= before.idle.skip(visited as int + 1) + kept.push(entry));
                    }
                },
            }
            proof {
                assert(probes.drop_last() =~= earlier);
            }
            visited = visited + 1;
        }
        proof {
            assert(before.idle.take(n as int) =~= before.idle);
            assert(before.idle.skip(n as int) =~= Seq::empty());
            let kept = survivors(before.idle, idle_timeout, max_lifetime, now, probes);
            assert(self@.idle =~= kept);
            assert(self@ == before.check(idle_timeout, max_lifetime, now, probes));
        }
    }
}

/// An acquisition that finds a connection idle, or the pool full, is the
/// acquisition of the model whatever a dial would have given.
proof fn lemma_get_without_dial<M: ManageConnection>(
    before: PoolModel<M::Connection>,
    connection_timeout: Option<u64>,
    lease: Result<Connection<M>, PoolError<M::Error>>,
)
    requires
        before.idle.len() > 0 || before.at_capacity(),
        before.idle.len() > 0 ==> leased_entry(lease) == Ok::<IdleConn<M::Connection>, PoolError<M::Error>>(
            before.idle[0],
        ),
        before.idle.len() == 0 ==> lease matches Err(PoolError::CapacityExceeded),
    ensures
        exists|dialed: Result<M::Connection, M::Error>, started: u64, finished: u64|
            {
                let outcome = #[trigger] DialOutcome::of(dialed, connection_timeout, started, finished);
                &&& before.begin_get() == before.get(outcome)
                &&& leased_entry(lease) == before.get_result(outcome, finished)
            },
{
    let dialed = arbitrary::<Result<M::Connection, M::Error>>();
    let outcome = DialOutcome::of(dialed, connection_timeout, 0, 0);
    assert(leased_entry(lease) == before.get_result(outcome, 0));
}

/// The entry under a lease, or the error in its place.
pub open spec fn leased_entry<M: ManageConnection>(lease: Result<Connection<M>, PoolError<M::Error>>) -> Result<
    IdleConn<M::Connection>,
    PoolError<M::Error>,
> {
    match lease {
        Ok(conn) => Ok(conn@),
        Err(e) => Err(e),
    }
}

} // verus!
