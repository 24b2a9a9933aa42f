use crate::clock::Clock;
use crate::manager::ManageConnection;
use crate::pool::Pool;
use crate::state::PoolInternals;
use crate::model::PoolModel;
use std::marker::PhantomData;
use vstd::prelude::*;

verus! {

/// Thirty minutes.
pub const DEFAULT_MAX_LIFETIME: u64 = 1_800_000_000;

/// Three minutes.
pub const DEFAULT_IDLE_TIMEOUT: u64 = 180_000_000;

/// Three seconds.
pub const DEFAULT_CONNECTION_TIMEOUT: u64 = 3_000_000;

/// Three seconds.
pub const DEFAULT_CHECK_INTERVAL: u64 = 3_000_000;

/// A builder for a connection pool: the tunables of a pool, fixed once the
/// pool is built.  Durations are in microseconds; an absent duration, and
/// one of zero, switches off what it bounds.
#[derive(Debug)]
pub struct Builder<M> {
    pub max_lifetime: Option<u64>,
    pub idle_timeout: Option<u64>,
    pub connection_timeout: Option<u64>,
    pub check_interval: Option<u64>,
    pub max_size: u32,
    pub marker: PhantomData<M>,
}

impl<M> Builder<M> {
    /// Whether these are the tunables of a pool with no limit of size, whose
    /// connections live thirty minutes at most and idle three, which allows
    /// three seconds for a dial and sweeps every three seconds.
    pub open spec fn defaults(self) -> bool {
        &&& self.max_lifetime == Some(DEFAULT_MAX_LIFETIME)
        &&& self.idle_timeout == Some(DEFAULT_IDLE_TIMEOUT)
        &&& self.connection_timeout == Some(DEFAULT_CONNECTION_TIMEOUT)
        &&& self.check_interval == Some(DEFAULT_CHECK_INTERVAL)
        &&& self.max_size == 0
    }

    /// Whether two builders hold the same tunables.
    pub open spec fn same(self, other: Self) -> bool {
        &&& self.max_lifetime == other.max_lifetime
        &&& self.idle_timeout == other.idle_timeout
        &&& self.connection_timeout == other.connection_timeout
        &&& self.check_interval == other.check_interval
        &&& self.max_size == other.max_size
    }

    /// Constructs a new `Builder` with the default tunables.
    pub fn new() -> (builder: Self)
        ensures
            builder.defaults(),
    {
        Builder {
            max_lifetime: Some(DEFAULT_MAX_LIFETIME),
            idle_timeout: Some(DEFAULT_IDLE_TIMEOUT),
            connection_timeout: Some(DEFAULT_CONNECTION_TIMEOUT),
            check_interval: Some(DEFAULT_CHECK_INTERVAL),
            max_size: 0,
            marker: PhantomData,
        }
    }

    /// Sets the maximum lifetime of connections in the pool: a connection
    /// older than this is evicted by the next sweep that finds it idle.
    pub fn max_lifetime(self, max_lifetime: Option<u64>) -> (builder: Self)
        ensures
            builder.max_lifetime == max_lifetime,
            builder.idle_timeout == self.idle_timeout,
            builder.connection_timeout == self.connection_timeout,
            builder.check_interval == self.check_interval,
            builder.max_size == self.max_size,
    {
        let mut builder = self;
        builder.max_lifetime = max_lifetime;
        builder
    }

    /// Sets the idle timeout used by the pool: a connection idle for longer
    /// than this is evicted by the next sweep.
    pub fn idle_timeout(self, idle_timeout: Option<u64>) -> (builder: Self)
        ensures
            builder.max_lifetime == self.max_lifetime,
            builder.idle_timeout == idle_timeout,
            builder.connection_timeout == self.connection_timeout,
            builder.check_interval == self.check_interval,
            builder.max_size == self.max_size,
    {
        let mut builder = self;
        builder.idle_timeout = idle_timeout;
        builder
    }

    /// Sets the connection timeout used by the pool: the time that `Pool::get`
    /// allows for opening a connection.
    pub fn connection_timeout(self, connection_timeout: Option<u64>) -> (builder: Self)
        ensures
            builder.max_lifetime == self.max_lifetime,
            builder.idle_timeout == self.idle_timeout,
            builder.connection_timeout == connection_timeout,
            builder.check_interval == self.check_interval,
            builder.max_size == self.max_size,
    {
        let mut builder = self;
        builder.connection_timeout = connection_timeout;
        builder
    }

    /// Sets the time between two sweeps of the idle connections.  Without one,
    /// or with one of zero, no sweep is made on a timer.
    pub fn check_interval(self, check_interval: Option<u64>) -> (builder: Self)
        ensures
            builder.max_lifetime == self.max_lifetime,
            builder.idle_timeout == self.idle_timeout,
            builder.connection_timeout == self.connection_timeout,
            builder.check_interval == check_interval,
            builder.max_size == self.max_size,
    {
        let mut builder = self;
        builder.check_interval = check_interval;
        builder
    }

    /// Sets the maximum number of connections managed by the pool; zero
    /// stands for no limit.
    pub fn max_size(self, max_size: u32) -> (builder: Self)
        ensures
            builder.max_lifetime == self.max_lifetime,
            builder.idle_timeout == self.idle_timeout,
            builder.connection_timeout == self.connection_timeout,
            builder.check_interval == self.check_interval,
            builder.max_size == max_size,
    {
        let mut builder = self;
        builder.max_size = max_size;
        builder
    }

    /// A builder with the same tunables.
    pub fn duplicate(&self) -> (builder: Self)
        ensures
            builder.same(*self),
    {
        Builder {
            max_lifetime: self.max_lifetime,
            idle_timeout: self.idle_timeout,
            connection_timeout: self.connection_timeout,
            check_interval: self.check_interval,
            max_size: self.max_size,
            marker: PhantomData,
        }
    }
}

impl<M> Default for Builder<M> {
    fn default() -> (builder: Self)
        ensures
            builder.defaults(),
    {
        Builder::new()
    }
}

impl<M: ManageConnection> Builder<M> {
    /// Returns a new pool with these tunables that opens its connections
    /// with `manager`.  The pool owns no connection yet.
    pub fn build(&self, manager: M) -> (pool: Pool<M>)
        ensures
            pool@ == PoolModel::<M::Connection>::empty(self.max_size as nat),
            pool.config().same(*self),
            pool.manager() == manager,
    {
        Pool::assemble(self.duplicate(), manager, PoolInternals::new(self.max_size), Clock::start())
    }
}

} // verus!
