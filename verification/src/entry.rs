use vstd::prelude::*;

verus! {

/// The limit that `limit` sets, if it sets one: an absent limit and a limit
/// of zero set none.  This is the one place where zero is given its meaning.
pub open spec fn effective(limit: Option<u64>) -> Option<u64> {
    match limit {
        Some(d) => if d > 0 {
            Some(d)
        } else {
            None
        },
        None => None,
    }
}

/// Whether a limit of `limit` microseconds, counted from the instant `since`,
/// has run out at the instant `now`: whether `now` is later than `since` by
/// more than the limit.  Where no limit is set, none runs out.
pub open spec fn overdue(limit: Option<u64>, since: u64, now: u64) -> bool {
    match effective(limit) {
        Some(d) => since + d < now,
        None => false,
    }
}

/// Computes [`effective`].
pub fn limit_of(limit: Option<u64>) -> (set: Option<u64>)
    ensures
        set == effective(limit),
{
    match limit {
        Some(d) => if d > 0 {
            Some(d)
        } else {
            None
        },
        None => None,
    }
}

/// Decides [`overdue`] without overflowing.
pub fn is_overdue(limit: Option<u64>, since: u64, now: u64) -> (late: bool)
    ensures
        late == overdue(limit, since, now),
{
    match limit_of(limit) {
        Some(d) => now > since && now - since > d,
        None => false,
    }
}

/// A connection that the pool owns, with the instants (in microseconds of the
/// pool's clock) at which it was opened and last handed back.
#[derive(Debug)]
pub struct IdleConn<C> {
    pub conn: C,
    pub created: u64,
    pub last_visited: u64,
}

impl<C> IdleConn<C> {
    /// The entry of a connection opened at `now`.
    pub open spec fn fresh(conn: C, now: u64) -> Self {
        IdleConn { conn, created: now, last_visited: now }
    }

    /// This entry, handed back at `now`.
    pub open spec fn touched(self, now: u64) -> Self {
        IdleConn { conn: self.conn, created: self.created, last_visited: now }
    }

    /// This entry around another state of its connection.
    pub open spec fn holding(self, conn: C) -> Self {
        IdleConn { conn, created: self.created, last_visited: self.last_visited }
    }

    /// Whether the entry must be evicted at `now`: it sat idle for longer than
    /// `idle_timeout`, or it is older than `max_lifetime`.
    pub open spec fn expired(self, idle_timeout: Option<u64>, max_lifetime: Option<u64>, now: u64) -> bool {
        overdue(idle_timeout, self.last_visited, now) || overdue(max_lifetime, self.created, now)
    }

    /// The entry of a connection opened at `now`.
    pub fn new(conn: C, now: u64) -> (entry: Self)
        ensures
            entry == Self::fresh(conn, now),
    {
        IdleConn { conn, created: now, last_visited: now }
    }

    /// Whether the entry has been idle at `now` for longer than `idle_timeout`.
    pub fn exceed_idle_timeout(&self, idle_timeout: Option<u64>, now: u64) -> (late: bool)
        ensures
            late == overdue(idle_timeout, self.last_visited, now),
    {
        is_overdue(idle_timeout, self.last_visited, now)
    }

    /// Whether the entry is older at `now` than `max_lifetime`.
    pub fn exceed_max_lifetime(&self, max_lifetime: Option<u64>, now: u64) -> (late: bool)
        ensures
            late == overdue(max_lifetime, self.created, now),
    {
        is_overdue(max_lifetime, self.created, now)
    }
}

} // verus!
