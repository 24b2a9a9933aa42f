use mpool::{CheckStep, DialOutcome, GetStep, IdleConn, PoolError, PoolInternals};

fn dial(pool: &mut PoolInternals<u32>, conn: u32, now: u64) -> IdleConn<u32> {
    assert!(matches!(pool.begin_get(), GetStep::Dial));
    pool.finish_get(DialOutcome::<u32, String>::Connected(conn), now).unwrap()
}

#[test]
fn new_state_is_empty() {
    let pool = PoolInternals::<u32>::new(7);
    assert_eq!(pool.max_size(), 7);
    assert_eq!(pool.active(), 0);
    assert_eq!(pool.idle_count(), 0);
    assert_eq!(pool.leased(), 0);
    assert!(!pool.exceed_limit());
}

#[test]
fn begin_get_counts_a_place_before_the_dial() {
    let mut pool = PoolInternals::<u32>::new(2);
    assert!(matches!(pool.begin_get(), GetStep::Dial));
    assert_eq!(pool.active(), 1);
    assert!(matches!(pool.begin_get(), GetStep::Dial));
    assert_eq!(pool.active(), 2);
    // two dials are under way and the pool is full: a third acquirer is refused
    assert!(pool.exceed_limit());
    assert!(matches!(pool.begin_get(), GetStep::Reject));
    assert_eq!(pool.active(), 2);
}

#[test]
fn finish_get_makes_an_entry_opened_now() {
    let mut pool = PoolInternals::<u32>::new(1);
    assert!(matches!(pool.begin_get(), GetStep::Dial));
    let entry = pool.finish_get(DialOutcome::<u32, String>::Connected(9), 1234).unwrap();
    assert_eq!(entry.conn, 9);
    assert_eq!(entry.created, 1234);
    assert_eq!(entry.last_visited, 1234);
    assert_eq!(pool.active(), 1);
    assert_eq!(pool.leased(), 1);
}

#[test]
fn finish_get_gives_the_place_up_after_a_failure() {
    let mut pool = PoolInternals::<u32>::new(1);
    assert!(matches!(pool.begin_get(), GetStep::Dial));
    match pool.finish_get(DialOutcome::<u32, String>::Failed("no route".to_string()), 5) {
        Err(PoolError::ConnectFailed(e)) => assert_eq!(e, "no route"),
        _ => panic!("expected ConnectFailed"),
    }
    assert_eq!(pool.active(), 0);
    assert!(matches!(pool.begin_get(), GetStep::Dial));
    assert!(matches!(
        pool.finish_get(DialOutcome::<u32, String>::TimedOut, 6),
        Err(PoolError::AcquireTimeout)
    ));
    assert_eq!(pool.active(), 0);
    assert!(!pool.exceed_limit());
}

#[test]
fn registry_is_first_in_first_out() {
    let mut pool = PoolInternals::<u32>::new(0);
    let a = dial(&mut pool, 1, 0);
    let b = dial(&mut pool, 2, 0);
    let c = dial(&mut pool, 3, 0);
    pool.put(b, 10);
    pool.put(c, 11);
    pool.put(a, 12);
    assert_eq!(pool.idle_count(), 3);
    assert_eq!(pool.active(), 3);
    let order: Vec<(u32, u64)> = (0..3)
        .map(|_| match pool.begin_get() {
            GetStep::Reuse(e) => (e.conn, e.last_visited),
            _ => panic!("expected an idle entry"),
        })
        .collect();
    assert_eq!(order, vec![(2, 10), (3, 11), (1, 12)]);
    assert_eq!(pool.active(), 3);
    assert_eq!(pool.leased(), 3);
}

#[test]
fn put_keeps_the_age_and_refreshes_the_visit() {
    let mut pool = PoolInternals::<u32>::new(0);
    let a = dial(&mut pool, 1, 100);
    pool.put(a, 250);
    match pool.begin_get() {
        GetStep::Reuse(e) => {
            assert_eq!(e.conn, 1);
            assert_eq!(e.created, 100);
            assert_eq!(e.last_visited, 250);
        }
        _ => panic!("expected an idle entry"),
    }
}

#[test]
fn begin_check_on_an_empty_registry_is_done() {
    let mut pool = PoolInternals::<u32>::new(0);
    assert!(matches!(pool.begin_check(Some(1), Some(1), 100), CheckStep::Done));
    let a = dial(&mut pool, 1, 0);
    // a leased connection is not swept
    assert!(matches!(pool.begin_check(Some(1), Some(1), 100), CheckStep::Done));
    assert_eq!(pool.active(), 1);
    pool.put(a, 0);
}

#[test]
fn begin_check_evicts_by_idle_time_and_by_age() {
    let mut pool = PoolInternals::<u32>::new(0);
    let a = dial(&mut pool, 1, 0);
    let b = dial(&mut pool, 2, 90);
    let c = dial(&mut pool, 3, 90);
    pool.put(a, 95);
    pool.put(b, 50);
    pool.put(c, 95);
    // a: idle 5, old 100; b: idle 50, old 10; c: idle 5, old 10
    assert!(matches!(pool.begin_check(Some(10), Some(99), 100), CheckStep::Evicted));
    assert_eq!(pool.active(), 2);
    assert!(matches!(pool.begin_check(Some(10), Some(99), 100), CheckStep::Evicted));
    assert_eq!(pool.active(), 1);
    match pool.begin_check(Some(10), Some(99), 100) {
        CheckStep::Probe(e) => {
            assert_eq!(e.conn, 3);
            assert_eq!(pool.idle_count(), 0);
            assert_eq!(pool.active(), 1);
            pool.finish_check(e, true);
        }
        _ => panic!("expected a probe"),
    }
    assert_eq!(pool.idle_count(), 1);
    assert_eq!(pool.active(), 1);
}

#[test]
fn finish_check_requeues_at_the_tail_without_a_visit() {
    let mut pool = PoolInternals::<u32>::new(0);
    let a = dial(&mut pool, 1, 0);
    let b = dial(&mut pool, 2, 0);
    pool.put(a, 10);
    pool.put(b, 20);
    match pool.begin_check(None, None, 30) {
        CheckStep::Probe(e) => pool.finish_check(e, true),
        _ => panic!("expected a probe"),
    }
    match pool.begin_get() {
        GetStep::Reuse(e) => assert_eq!(e.conn, 2),
        _ => panic!("expected an idle entry"),
    }
    match pool.begin_get() {
        GetStep::Reuse(e) => {
            assert_eq!(e.conn, 1);
            assert_eq!(e.last_visited, 10);
        }
        _ => panic!("expected an idle entry"),
    }
}

#[test]
fn finish_check_drops_an_unhealthy_connection() {
    let mut pool = PoolInternals::<u32>::new(1);
    let a = dial(&mut pool, 1, 0);
    pool.put(a, 0);
    match pool.begin_check(None, None, 30) {
        CheckStep::Probe(e) => pool.finish_check(e, false),
        _ => panic!("expected a probe"),
    }
    assert_eq!(pool.active(), 0);
    assert_eq!(pool.idle_count(), 0);
    assert!(matches!(pool.begin_get(), GetStep::Dial));
}

#[test]
fn invariants_hold_along_a_mixed_run() {
    let mut pool = PoolInternals::<u32>::new(3);
    let mut out: Vec<IdleConn<u32>> = vec![];
    let mut next = 0;
    for round in 0..200u64 {
        match round % 7 {
            0 | 1 | 4 => match pool.begin_get() {
                GetStep::Reuse(e) => out.push(e),
                GetStep::Dial => {
                    let outcome = if round % 3 == 0 {
                        DialOutcome::<u32, String>::Failed("down".to_string())
                    } else {
                        next += 1;
                        DialOutcome::Connected(next)
                    };
                    if let Ok(e) = pool.finish_get(outcome, round) {
                        out.push(e);
                    }
                }
                GetStep::Reject => assert_eq!(pool.active(), 3),
            },
            2 | 5 => {
                if let Some(e) = out.pop() {
                    pool.put(e, round);
                }
            }
            _ => {
                let n = pool.idle_count();
                for _ in 0..n {
                    match pool.begin_check(Some(4), Some(40), round) {
                        CheckStep::Done => break,
                        CheckStep::Evicted => {}
                        CheckStep::Probe(e) => {
                            let healthy = e.conn % 2 == 0;
                            pool.finish_check(e, healthy)
                        }
                    }
                }
            }
        }
        assert!(pool.active() <= 3);
        assert!(pool.idle_count() as u32 <= pool.active());
        assert_eq!(pool.leased() as usize, out.len());
    }
}

#[test]
fn state_without_a_limit_is_never_full() {
    let mut pool = PoolInternals::<u32>::new(0);
    assert!(!pool.exceed_limit());
    for n in 0..1_000 {
        let _ = dial(&mut pool, n, 0);
        assert!(!pool.exceed_limit());
    }
    assert_eq!(pool.active(), 1_000);
    assert!(matches!(pool.begin_get(), GetStep::Dial));
}

#[test]
fn state_with_a_limit_is_full_at_the_limit_and_not_before() {
    let mut pool = PoolInternals::<u32>::new(3);
    let a = dial(&mut pool, 1, 0);
    let _b = dial(&mut pool, 2, 0);
    assert!(!pool.exceed_limit());
    let _c = dial(&mut pool, 3, 0);
    assert!(pool.exceed_limit());
    // full, but an idle entry is still handed out
    pool.put(a, 1);
    assert!(pool.exceed_limit());
    assert!(matches!(pool.begin_get(), GetStep::Reuse(_)));
    assert!(matches!(pool.begin_get(), GetStep::Reject));
    assert_eq!(pool.active(), 3);
}
