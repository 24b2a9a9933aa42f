use crate::dial::DialOutcome;
use crate::entry::IdleConn;
use crate::error::PoolError;
use crate::model::{survivors, PoolModel};
use vstd::prelude::*;

verus! {

/// One transition of the shared state, as the users of a pool and its sweep
/// make them, in any order and interleaved at will.
pub enum Transition<C> {
    /// The first half of an acquisition.
    BeginGet,
    /// The second half of an acquisition that dialled; `connected` tells
    /// whether the dial gave a connection.
    FinishGet { connected: bool },
    /// A release.
    Put { entry: IdleConn<C>, now: u64 },
    /// The first half of one visit of a sweep.
    BeginCheck { idle_timeout: Option<u64>, max_lifetime: Option<u64>, now: u64 },
    /// The second half of one visit of a sweep.
    FinishCheck { entry: IdleConn<C>, healthy: bool },
}

impl<C> PoolModel<C> {
    /// The pool after `transition`.  A transition that hands something back to
    /// the pool needs a connection that is out of the registry, and an
    /// acquisition needs a counter that can count it; a transition that lacks
    /// what it needs cannot be made, and the pool stays as it is.
    pub open spec fn step(self, transition: Transition<C>) -> Self {
        match transition {
            Transition::BeginGet => if self.can_get() {
                self.begin_get()
            } else {
                self
            },
            Transition::FinishGet { connected } => if self.leased() > 0 && !connected {
                self.decr_active()
            } else {
                self
            },
            Transition::Put { entry, now } => if self.leased() > 0 {
                self.put(entry, now)
            } else {
                self
            },
            Transition::BeginCheck { idle_timeout, max_lifetime, now } => self.begin_check(
                idle_timeout,
                max_lifetime,
                now,
            ),
            Transition::FinishCheck { entry, healthy } => if self.leased() > 0 {
                self.finish_check(entry, healthy)
            } else {
                self
            },
        }
    }

    /// The pool after the transitions of `run`, first to last.
    pub open spec fn after(self, run: Seq<Transition<C>>) -> Self
        decreases run.len(),
    {
        if run.len() == 0 {
            self
        } else {
            self.after(run.drop_last()).step(run.last())
        }
    }
}

/// Every transition keeps the invariant of the pool.
pub proof fn lemma_step_keeps_invariant<C>(pool: PoolModel<C>, transition: Transition<C>)
    requires
        pool.inv(),
    ensures
        pool.step(transition).inv(),
        pool.step(transition).max_size == pool.max_size,
{
}

/// The invariant of the pool holds after every run of transitions, so at
/// every point at which the pool can be observed.
pub proof fn lemma_run_keeps_invariant<C>(pool: PoolModel<C>, run: Seq<Transition<C>>)
    requires
        pool.inv(),
    ensures
        pool.after(run).inv(),
        pool.after(run).max_size == pool.max_size,
    decreases run.len(),
{
    if run.len() > 0 {
        lemma_run_keeps_invariant(pool, run.drop_last());
        lemma_step_keeps_invariant(pool.after(run.drop_last()), run.last());
    }
}

/// Whatever is acquired and released, and in whatever order, a pool with a
/// limit never owns more connections than the limit.
pub proof fn lemma_active_never_exceeds_max_size<C>(pool: PoolModel<C>, run: Seq<Transition<C>>)
    requires
        pool.inv(),
        pool.max_size > 0,
    ensures
        pool.after(run).active <= pool.max_size,
{
    lemma_run_keeps_invariant(pool, run);
}

/// Whatever is acquired and released, and in whatever order, the registry
/// never holds more connections than the pool owns.
pub proof fn lemma_idle_never_exceeds_active<C>(pool: PoolModel<C>, run: Seq<Transition<C>>)
    requires
        pool.inv(),
    ensures
        pool.after(run).idle.len() <= pool.after(run).active,
{
    lemma_run_keeps_invariant(pool, run);
}

/// A whole acquisition is its two halves, the second made only after a dial.
pub proof fn lemma_get_is_its_halves<C, E>(pool: PoolModel<C>, outcome: DialOutcome<C, E>)
    requires
        pool.inv(),
        pool.can_get(),
    ensures
        pool.get(outcome).inv(),
        pool.idle.len() > 0 || pool.at_capacity() ==> pool.get(outcome) == pool.step(Transition::BeginGet),
        pool.idle.len() == 0 && !pool.at_capacity() ==> pool.get(outcome) == pool.step(Transition::BeginGet).step(
            Transition::FinishGet { connected: outcome is Connected },
        ),
{
}

/// An acquisition is refused for want of room exactly when nothing is idle
/// and the pool has a limit and owns as many connections as that; a pool
/// without a limit refuses none.
pub proof fn lemma_get_refuses_only_at_the_limit<C, E>(pool: PoolModel<C>, outcome: DialOutcome<C, E>, now: u64)
    ensures
        pool.get_result(outcome, now) == Err::<IdleConn<C>, PoolError<E>>(PoolError::CapacityExceeded) <==> pool.idle.len()
            == 0 && pool.max_size > 0 && pool.active >= pool.max_size,
        pool.at_capacity() <==> pool.max_size > 0 && pool.active >= pool.max_size,
        pool.max_size == 0 ==> !pool.at_capacity(),
{
}

/// An acquisition changes the count of owned connections only when it dials
/// with success, and then by one; a refused or failed one changes nothing.
pub proof fn lemma_get_counts<C, E>(pool: PoolModel<C>, outcome: DialOutcome<C, E>, now: u64)
    requires
        pool.inv(),
        pool.can_get(),
    ensures
        pool.get_result(outcome, now) is Ok ==> pool.get(outcome).leased() == pool.leased() + 1,
        pool.get_result(outcome, now) is Err ==> pool.get(outcome) == pool,
        pool.idle.len() > 0 ==> pool.get(outcome).active == pool.active,
        pool.idle.len() == 0 && pool.get_result(outcome, now) is Ok ==> pool.get(outcome).active == pool.active + 1,
{
    if pool.idle.len() == 0 && !pool.at_capacity() {
        match outcome {
            DialOutcome::Connected(_) => {},
            _ => {
                assert(pool.incr_active().decr_active() == pool);
            },
        }
    }
}

/// A release uses up exactly one lease: it leaves the count of owned
/// connections alone and moves one connection into the registry.  A pool
/// with no connection out accepts no release.
pub proof fn lemma_put_uses_up_one_lease<C>(pool: PoolModel<C>, entry: IdleConn<C>, now: u64)
    requires
        pool.inv(),
    ensures
        pool.put(entry, now).active == pool.active,
        pool.put(entry, now).leased() == pool.leased() - 1,
        pool.leased() == 0 ==> pool.step(Transition::Put { entry, now }) == pool,
{
}

/// An entry that is released is the last that the registry hands out again,
/// after those that were idle before it, and it comes back with the
/// connection and the age that it had.  Released into an empty registry it is
/// what the next acquisition gets, and no dial is made.
pub proof fn lemma_put_then_get_round_trip<C>(pool: PoolModel<C>, entry: IdleConn<C>, now: u64)
    requires
        pool.inv(),
        pool.leased() > 0,
    ensures
        pool.put(entry, now).idle.len() == pool.idle.len() + 1,
        pool.put(entry, now).idle.last() == entry.touched(now),
        pool.put(entry, now).idle.take(pool.idle.len() as int) == pool.idle,
        pool.idle.len() == 0 ==> {
            &&& pool.put(entry, now).idle[0].conn == entry.conn
            &&& pool.put(entry, now).idle[0].created == entry.created
            &&& pool.put(entry, now).begin_get() == pool
        },
{
    let after = pool.put(entry, now);
    assert(after.idle.take(pool.idle.len() as int) =~= pool.idle);
    if pool.idle.len() == 0 {
        assert(after.begin_get().idle =~= pool.idle);
    }
}

/// A sweep keeps no more entries than it visits.
pub proof fn lemma_survivors_len<C>(
    entries: Seq<IdleConn<C>>,
    idle_timeout: Option<u64>,
    max_lifetime: Option<u64>,
    now: u64,
    probes: Seq<Option<C>>,
)
    ensures
        survivors(entries, idle_timeout, max_lifetime, now, probes).len() <= entries.len(),
    decreases entries.len(),
{
    if entries.len() > 0 {
        lemma_survivors_len(entries.drop_last(), idle_timeout, max_lifetime, now, probes.drop_last());
    }
}

/// No entry that a sweep keeps had expired when the sweep was made, and each
/// has the age of an entry that was idle before.
pub proof fn lemma_survivors_not_expired<C>(
    entries: Seq<IdleConn<C>>,
    idle_timeout: Option<u64>,
    max_lifetime: Option<u64>,
    now: u64,
    probes: Seq<Option<C>>,
)
    ensures
        forall|i: int|
            0 <= i < survivors(entries, idle_timeout, max_lifetime, now, probes).len() ==> {
                let kept = #[trigger] survivors(entries, idle_timeout, max_lifetime, now, probes)[i];
                &&& !kept.expired(idle_timeout, max_lifetime, now)
                &&& exists|j: int|
                    0 <= j < entries.len() && (#[trigger] entries[j]).created == kept.created
                        && entries[j].last_visited == kept.last_visited
            },
    decreases entries.len(),
{
    if entries.len() > 0 {
        let front = entries.drop_last();
        lemma_survivors_not_expired(front, idle_timeout, max_lifetime, now, probes.drop_last());
        let earlier = survivors(front, idle_timeout, max_lifetime, now, probes.drop_last());
        let all = survivors(entries, idle_timeout, max_lifetime, now, probes);
        assert forall|i: int| 0 <= i < all.len() implies {
            let kept = #[trigger] all[i];
            &&& !kept.expired(idle_timeout, max_lifetime, now)
            &&& exists|j: int|
                0 <= j < entries.len() && (#[trigger] entries[j]).created == kept.created
                    && entries[j].last_visited == kept.last_visited
        } by {
            if i < earlier.len() {
                let kept = earlier[i];
                let j = choose|j: int|
                    0 <= j < front.len() && (#[trigger] front[j]).created == kept.created
                        && front[j].last_visited == kept.last_visited;
                assert(entries[j] == front[j]);
            } else {
                assert(entries[entries.len() - 1] == entries.last());
            }
        }
    }
}

/// A sweep made when every idle entry has expired empties the registry: the
/// pool then owns only what is out of it.
pub proof fn lemma_sweep_evicts_all_expired<C>(
    entries: Seq<IdleConn<C>>,
    idle_timeout: Option<u64>,
    max_lifetime: Option<u64>,
    now: u64,
    probes: Seq<Option<C>>,
)
    requires
        forall|i: int| 0 <= i < entries.len() ==> (#[trigger] entries[i]).expired(idle_timeout, max_lifetime, now),
    ensures
        survivors(entries, idle_timeout, max_lifetime, now, probes).len() == 0,
    decreases entries.len(),
{
    if entries.len() > 0 {
        lemma_sweep_evicts_all_expired(entries.drop_last(), idle_timeout, max_lifetime, now, probes.drop_last());
    }
}

/// A sweep made when nothing has expired and every probe succeeds keeps
/// every entry, in its place and with its age.
pub proof fn lemma_sweep_keeps_all_healthy<C>(
    entries: Seq<IdleConn<C>>,
    idle_timeout: Option<u64>,
    max_lifetime: Option<u64>,
    now: u64,
    probes: Seq<Option<C>>,
)
    requires
        probes.len() == entries.len(),
        forall|i: int| 0 <= i < entries.len() ==> !(#[trigger] entries[i]).expired(idle_timeout, max_lifetime, now),
        forall|i: int| 0 <= i < probes.len() ==> (#[trigger] probes[i]) is Some,
    ensures
        survivors(entries, idle_timeout, max_lifetime, now, probes).len() == entries.len(),
        forall|i: int|
            0 <= i < entries.len() ==> (#[trigger] survivors(entries, idle_timeout, max_lifetime, now, probes)[i])
                == entries[i].holding(probes[i]->0),
    decreases entries.len(),
{
    if entries.len() > 0 {
        lemma_sweep_keeps_all_healthy(entries.drop_last(), idle_timeout, max_lifetime, now, probes.drop_last());
    }
}

/// A whole sweep keeps the invariant of the pool and leaves alone what is out
/// of the registry: the pool owns fewer connections by the number evicted.
pub proof fn lemma_check_keeps_invariant<C>(
    pool: PoolModel<C>,
    idle_timeout: Option<u64>,
    max_lifetime: Option<u64>,
    now: u64,
    probes: Seq<Option<C>>,
)
    requires
        pool.inv(),
    ensures
        pool.check(idle_timeout, max_lifetime, now, probes).inv(),
        pool.check(idle_timeout, max_lifetime, now, probes).leased() == pool.leased(),
        pool.check(idle_timeout, max_lifetime, now, probes).idle.len() <= pool.idle.len(),
        pool.check(idle_timeout, max_lifetime, now, probes).active <= pool.active,
{
    lemma_survivors_len(pool.idle, idle_timeout, max_lifetime, now, probes);
}

/// The transitions of one visit of a sweep at `now` to `entry`, whose probe,
/// if one is made, gives `probe`.
pub open spec fn visit<C>(
    entry: IdleConn<C>,
    idle_timeout: Option<u64>,
    max_lifetime: Option<u64>,
    now: u64,
    probe: Option<C>,
) -> Seq<Transition<C>> {
    let begin = Transition::BeginCheck { idle_timeout, max_lifetime, now };
    if entry.expired(idle_timeout, max_lifetime, now) {
        seq![begin]
    } else {
        match probe {
            Some(conn) => seq![begin, Transition::FinishCheck { entry: entry.holding(conn), healthy: true }],
            None => seq![begin, Transition::FinishCheck { entry, healthy: false }],
        }
    }
}

/// The transitions of a sweep at `now` over `entries`, one visit after the
/// other, `probes` as for [`survivors`].
pub open spec fn visits<C>(
    entries: Seq<IdleConn<C>>,
    idle_timeout: Option<u64>,
    max_lifetime: Option<u64>,
    now: u64,
    probes: Seq<Option<C>>,
) -> Seq<Transition<C>>
    decreases entries.len(),
{
    if entries.len() == 0 {
        Seq::empty()
    } else {
        visits(entries.drop_last(), idle_timeout, max_lifetime, now, probes.drop_last()) + visit(
            entries.last(),
            idle_timeout,
            max_lifetime,
            now,
            probes.last(),
        )
    }
}

/// A run made of two runs leads where the second leads from where the first
/// led.
pub proof fn lemma_run_in_two_parts<C>(pool: PoolModel<C>, first: Seq<Transition<C>>, second: Seq<Transition<C>>)
    ensures
        pool.after(first + second) == pool.after(first).after(second),
    decreases second.len(),
{
    if second.len() == 0 {
        assert(first + second =~= first);
    } else {
        lemma_run_in_two_parts(pool, first, second.drop_last());
        assert((first + second).drop_last() =~= first + second.drop_last());
        assert((first + second).last() == second.last());
    }
}

/// A run of one transition is that transition.
pub proof fn lemma_run_of_one<C>(pool: PoolModel<C>, only: Transition<C>)
    ensures
        pool.after(seq![only]) == pool.step(only),
{
    let run = seq![only];
    assert(run.drop_last() =~= Seq::empty());
    assert(pool.after(run.drop_last()) == pool);
}

/// A run of two transitions is the one, then the other.
pub proof fn lemma_run_of_two<C>(pool: PoolModel<C>, first: Transition<C>, second: Transition<C>)
    ensures
        pool.after(seq![first, second]) == pool.step(first).step(second),
{
    let run = seq![first, second];
    assert(run.drop_last() =~= seq![first]);
    lemma_run_of_one(pool, first);
}

/// Where a sweep stands after its first `done` visits: the entries not yet
/// visited are still at the head of the registry, those kept so far behind
/// them, and every eviction has been counted.
proof fn lemma_sweep_so_far<C>(
    pool: PoolModel<C>,
    idle_timeout: Option<u64>,
    max_lifetime: Option<u64>,
    now: u64,
    probes: Seq<Option<C>>,
    done: int,
)
    requires
        pool.inv(),
        probes.len() == pool.idle.len(),
        0 <= done <= pool.idle.len(),
    ensures
        ({
            let kept = survivors(pool.idle.take(done), idle_timeout, max_lifetime, now, probes.take(done));
            let reached = pool.after(visits(pool.idle.take(done), idle_timeout, max_lifetime, now, probes.take(done)));
            &&& reached.idle == pool.idle.skip(done) + kept
            &&& reached.active == pool.active - (done - kept.len())
            &&& reached.max_size == pool.max_size
            &&& reached.inv()
        }),
    decreases done,
{
    let seen = pool.idle.take(done);
    let asked = probes.take(done);
    lemma_run_keeps_invariant(pool, visits(seen, idle_timeout, max_lifetime, now, asked));
    if done == 0 {
        assert(pool.idle.skip(0) + Seq::<IdleConn<C>>::empty() =~= pool.idle);
    } else {
        lemma_sweep_so_far(pool, idle_timeout, max_lifetime, now, probes, done - 1);
        let before = pool.idle.take(done - 1);
        let asked_before = probes.take(done - 1);
        assert(seen.drop_last() =~= before);
        assert(asked.drop_last() =~= asked_before);
        let kept = survivors(before, idle_timeout, max_lifetime, now, asked_before);
        let earlier = visits(before, idle_timeout, max_lifetime, now, asked_before);
        let entry = seen.last();
        let probe = asked.last();
        let this = visit(entry, idle_timeout, max_lifetime, now, probe);
        lemma_run_in_two_parts(pool, earlier, this);
        let at = pool.after(earlier);
        let rest = pool.idle.skip(done);
        assert(at.idle[0] == entry);
        assert(at.idle.drop_first() =~= rest + kept);
        let begin = Transition::BeginCheck { idle_timeout, max_lifetime, now };
        let begun = at.step(begin);
        lemma_run_of_one(at, begin);
        if !entry.expired(idle_timeout, max_lifetime, now) {
            assert(begun.leased() > 0);
            match probe {
                Some(conn) => {
                    lemma_run_of_two(at, begin, Transition::FinishCheck { entry: entry.holding(conn), healthy: true });
                    assert((rest + kept).push(entry.holding(conn)) =~= rest + kept.push(entry.holding(conn)));
                },
                None => {
                    lemma_run_of_two(at, begin, Transition::FinishCheck { entry, healthy: false });
                },
            }
        }
    }
}

/// A whole sweep is the run of its visits: what the steps of a sweep make of
/// the pool, one entry after the other, is the pool that the sweep is said
/// to leave.
pub proof fn lemma_check_is_the_run_of_its_visits<C>(
    pool: PoolModel<C>,
    idle_timeout: Option<u64>,
    max_lifetime: Option<u64>,
    now: u64,
    probes: Seq<Option<C>>,
)
    requires
        pool.inv(),
        probes.len() == pool.idle.len(),
    ensures
        pool.after(visits(pool.idle, idle_timeout, max_lifetime, now, probes)) == pool.check(
            idle_timeout,
            max_lifetime,
            now,
            probes,
        ),
{
    let n = pool.idle.len() as int;
    lemma_sweep_so_far(pool, idle_timeout, max_lifetime, now, probes, n);
    assert(pool.idle.take(n) =~= pool.idle);
    assert(probes.take(n) =~= probes);
    let kept = survivors(pool.idle, idle_timeout, max_lifetime, now, probes);
    assert(pool.idle.skip(n) + kept =~= kept);
}

} // verus!
