use std::sync::atomic::{AtomicBool, AtomicU32, Ordering};
use std::sync::Arc;
use std::time::{Duration, Instant};

use mpool::{ManageConnection, Pool, PoolError};

/// Lets `d` pass.
fn pause(d: Duration) {
    let start = Instant::now();
    while start.elapsed() < d {
        std::hint::spin_loop();
    }
}

#[derive(Debug, PartialEq)]
struct FakeConnection;

#[derive(Default)]
struct FakeManager {
    sleep: Option<Duration>,
}

impl ManageConnection for FakeManager {
    type Connection = FakeConnection;
    type Error = String;

    fn connect(&self) -> Result<FakeConnection, String> {
        if let Some(d) = self.sleep {
            pause(d);
        }
        Ok(FakeConnection)
    }

    fn check(&self, _conn: &mut FakeConnection) -> Result<(), String> {
        Ok(())
    }
}

fn micros(d: Duration) -> u64 {
    d.as_micros() as u64
}

#[test]
fn test_max_size_ok() {
    let manager = FakeManager::default();
    let mut pool = Pool::builder().max_size(5).build(manager);
    let mut conns = vec![];
    for _ in 0..5 {
        conns.push(pool.get().unwrap());
    }
    assert_eq!(pool.interval().active(), 5);
    assert!(pool.get().is_err());
    assert_eq!(pool.interval().active(), 5);
}

#[test]
fn test_drop_conn() {
    let manager = FakeManager::default();
    let mut pool = Pool::builder().max_size(2).build(manager);

    let conn1 = pool.get().unwrap();
    assert_eq!(pool.interval().active(), 1);
    let conn2 = pool.get().unwrap();
    assert_eq!(pool.interval().active(), 2);
    pool.put(conn1);
    assert_eq!(pool.interval().active(), 2);
    pool.put(conn2);
    assert_eq!(pool.interval().active(), 2);
    let _ = pool.get().unwrap();
    assert_eq!(pool.interval().active(), 2);
}

#[test]
fn test_get_timeout() {
    let manager = FakeManager { sleep: Some(Duration::from_millis(200)) };

    let mut pool = Pool::builder()
        .connection_timeout(Some(micros(Duration::from_millis(100))))
        .build(manager);

    assert!(pool.get().is_err());
    assert!(pool.get_timeout(Some(micros(Duration::from_millis(300)))).is_ok());
}

#[test]
fn test_idle_timeout() {
    let manager = FakeManager::default();
    let mut pool = Pool::builder()
        .idle_timeout(Some(micros(Duration::from_secs(1))))
        .check_interval(Some(micros(Duration::from_secs(1))))
        .build(manager);

    let mut conns = vec![];
    for _ in 0..5 {
        conns.push(pool.get().unwrap());
    }
    for conn in conns {
        pool.put(conn);
    }
    pause(Duration::from_secs(2));
    pool.check();
    assert_eq!(pool.interval().active(), 0);
}

#[test]
fn test_max_lifetime() {
    let manager = FakeManager::default();
    let mut pool = Pool::builder()
        .max_lifetime(Some(micros(Duration::from_secs(1))))
        .check_interval(Some(micros(Duration::from_secs(1))))
        .build(manager);

    let mut conns = vec![];
    for _ in 0..5 {
        conns.push(pool.get().unwrap());
    }
    for conn in conns {
        pool.put(conn);
    }
    pause(Duration::from_secs(2));
    pool.check();
    assert_eq!(pool.interval().active(), 0);
}

/// A connection that can be told apart from every other.
#[derive(Debug, PartialEq)]
struct Numbered(u32);

/// Opens numbered connections; fails to open while `refuse` is set, and
/// fails a probe of every connection whose number is odd while `sick` is set.
#[derive(Default)]
struct Counting {
    opened: AtomicU32,
    probed: Arc<AtomicU32>,
    refuse: AtomicBool,
    sick: Arc<AtomicBool>,
}

impl ManageConnection for Counting {
    type Connection = Numbered;
    type Error = String;

    fn connect(&self) -> Result<Numbered, String> {
        if self.refuse.load(Ordering::SeqCst) {
            return Err("refused".to_string());
        }
        Ok(Numbered(self.opened.fetch_add(1, Ordering::SeqCst)))
    }

    fn check(&self, conn: &mut Numbered) -> Result<(), String> {
        self.probed.fetch_add(1, Ordering::SeqCst);
        if self.sick.load(Ordering::SeqCst) && conn.0 % 2 == 1 {
            Err("broken".to_string())
        } else {
            Ok(())
        }
    }
}

#[test]
fn new_pool_has_the_default_tunables_and_owns_nothing() {
    let pool = Pool::new(FakeManager::default());
    assert_eq!(pool.interval().active(), 0);
    assert_eq!(pool.interval().max_size(), 0);
    assert_eq!(pool.idle_count(), 0);
    assert!(!pool.exceed_limit());
}

#[test]
fn sixth_get_fails_with_capacity_exceeded_and_releases_evict_nothing() {
    let mut pool = Pool::builder().max_size(5).build(Counting::default());
    let mut conns = vec![];
    for _ in 0..5 {
        conns.push(pool.get().unwrap());
    }
    assert!(pool.exceed_limit());
    match pool.get() {
        Err(PoolError::CapacityExceeded) => {}
        other => panic!("expected CapacityExceeded, got {:?}", other.map(|c| c.created())),
    }
    assert_eq!(pool.interval().active(), 5);
    for conn in conns {
        pool.put(conn);
    }
    assert_eq!(pool.interval().active(), 5);
    assert_eq!(pool.idle_count(), 5);
    assert_eq!(pool.interval().leased(), 0);
}

#[test]
fn get_reuses_an_idle_connection_without_dialling() {
    let mut pool = Pool::builder().max_size(2).build(Counting::default());
    let first = pool.get().unwrap();
    let second = pool.get().unwrap();
    assert_eq!(pool.interval().active(), 2);
    pool.put(first);
    pool.put(second);
    let again = pool.get().unwrap();
    assert_eq!(pool.interval().active(), 2);
    assert_eq!(*again, Numbered(0));
    assert_eq!(pool.interval().idle_count(), 1);
    pool.put(again);
    let mut pool = pool;
    assert_eq!(*pool.get().unwrap(), Numbered(1));
}

#[test]
fn released_connection_is_the_one_acquired_next() {
    let mut pool = Pool::builder().max_size(3).build(Counting::default());
    let mut lease = pool.get().unwrap();
    *lease.get_mut() = Numbered(77);
    let created = lease.created();
    pool.put_at(lease, 1_000);
    let back = pool.get().unwrap();
    assert_eq!(*back, Numbered(77));
    assert_eq!(back.created(), created);
    assert_eq!(back.last_visited(), 1_000);
    assert_eq!(pool.interval().active(), 1);
}

#[test]
fn failed_dial_is_reported_verbatim_and_counts_nothing() {
    let manager = Counting::default();
    manager.refuse.store(true, Ordering::SeqCst);
    let mut pool = Pool::builder().max_size(1).build(manager);
    match pool.get() {
        Err(PoolError::ConnectFailed(e)) => assert_eq!(e, "refused"),
        other => panic!("expected ConnectFailed, got {:?}", other.map(|c| c.created())),
    }
    assert_eq!(pool.interval().active(), 0);
    assert_eq!(pool.interval().leased(), 0);
}

#[test]
fn slow_dial_times_out_and_counts_nothing() {
    let manager = FakeManager { sleep: Some(Duration::from_millis(50)) };
    let mut pool = Pool::builder().max_size(1).connection_timeout(Some(1_000)).build(manager);
    assert!(matches!(pool.get(), Err(PoolError::AcquireTimeout)));
    assert_eq!(pool.interval().active(), 0);
    // the place given up can be taken again
    assert!(pool.get_timeout(None).is_ok());
    assert_eq!(pool.interval().active(), 1);
}

#[test]
fn zero_or_absent_connection_timeout_waits_for_the_dial() {
    let manager = FakeManager { sleep: Some(Duration::from_millis(20)) };
    let mut pool = Pool::builder().connection_timeout(Some(0)).build(manager);
    assert!(pool.get().is_ok());
    assert!(pool.get_timeout(None).is_ok());
    assert!(pool.get_timeout(Some(0)).is_ok());
    assert_eq!(pool.interval().active(), 3);
}

#[test]
fn unbounded_pool_keeps_dialling() {
    let mut pool = Pool::new(Counting::default());
    let mut conns = vec![];
    for _ in 0..100 {
        conns.push(pool.get().unwrap());
    }
    assert_eq!(pool.interval().active(), 100);
    assert!(!pool.exceed_limit());
}

#[test]
fn sweep_at_evicts_what_idled_too_long() {
    let mut pool = Pool::builder()
        .idle_timeout(Some(1_000_000))
        .max_lifetime(None)
        .build(Counting::default());
    let a = pool.get().unwrap();
    let b = pool.get().unwrap();
    let c = pool.get().unwrap();
    pool.put_at(a, 10_000_000);
    pool.put_at(b, 10_500_000);
    // 10_000_000 + 1_000_000 < 11_000_001, 10_500_000 + 1_000_000 is not
    pool.check_at(11_000_001);
    assert_eq!(pool.interval().active(), 2);
    assert_eq!(pool.idle_count(), 1);
    assert_eq!(pool.interval().leased(), 1);
    pool.put_at(c, 11_000_001);
    assert_eq!(*pool.get().unwrap(), Numbered(1));
    assert_eq!(*pool.get().unwrap(), Numbered(2));
}

#[test]
fn sweep_at_the_very_limit_evicts_nothing() {
    let mut pool = Pool::builder()
        .idle_timeout(Some(1_000_000))
        .max_lifetime(None)
        .build(Counting::default());
    let a = pool.get().unwrap();
    pool.put_at(a, 5_000_000);
    pool.check_at(6_000_000);
    assert_eq!(pool.interval().active(), 1);
    pool.check_at(6_000_001);
    assert_eq!(pool.interval().active(), 0);
}

#[test]
fn sweep_at_evicts_what_lived_too_long() {
    let mut pool = Pool::builder()
        .idle_timeout(None)
        .max_lifetime(Some(1_000_000))
        .build(Counting::default());
    let mut conns = vec![];
    for _ in 0..5 {
        conns.push(pool.get().unwrap());
    }
    let youngest = conns.iter().map(|c| c.created()).max().unwrap();
    for conn in conns {
        pool.put_at(conn, youngest);
    }
    pool.check_at(youngest);
    assert_eq!(pool.interval().active(), 5);
    pool.check_at(youngest + 1_000_001);
    assert_eq!(pool.interval().active(), 0);
    assert_eq!(pool.idle_count(), 0);
}

#[test]
fn zero_limits_switch_eviction_off() {
    let mut pool = Pool::builder()
        .idle_timeout(Some(0))
        .max_lifetime(Some(0))
        .build(Counting::default());
    let a = pool.get().unwrap();
    pool.put_at(a, 0);
    pool.check_at(u64::MAX);
    assert_eq!(pool.interval().active(), 1);
    assert_eq!(pool.idle_count(), 1);
}

#[test]
fn sweep_probes_each_idle_connection_once_and_evicts_the_broken() {
    let manager = Counting::default();
    let probed = manager.probed.clone();
    let sick = manager.sick.clone();
    let mut pool = Pool::builder().idle_timeout(None).max_lifetime(None).build(manager);
    let mut conns = vec![];
    for _ in 0..4 {
        conns.push(pool.get().unwrap());
    }
    let held = conns.pop().unwrap();
    for conn in conns {
        pool.put_at(conn, 0);
    }
    pool.check_at(1);
    assert_eq!(pool.interval().active(), 4);
    assert_eq!(pool.idle_count(), 3);
    assert_eq!(probed.load(Ordering::SeqCst), 3);
    // connection 1 fails its probe, 0 and 2 stay in their order
    sick.store(true, Ordering::SeqCst);
    pool.check_at(2);
    assert_eq!(probed.load(Ordering::SeqCst), 6);
    assert_eq!(pool.interval().active(), 3);
    assert_eq!(pool.idle_count(), 2);
    assert_eq!(pool.interval().leased(), 1);
    assert_eq!(*pool.get().unwrap(), Numbered(0));
    assert_eq!(*pool.get().unwrap(), Numbered(2));
    assert_eq!(*held, Numbered(3));
}

#[test]
fn clock_of_the_pool_does_not_run_backwards() {
    let pool = Pool::new(FakeManager::default());
    let a = pool.now();
    pause(Duration::from_millis(5));
    let b = pool.now();
    assert!(b >= a + 5_000);
}
