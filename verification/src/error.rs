use vstd::prelude::*;

verus! {

/// Why the pool handed out no connection.
#[derive(Debug)]
pub enum PoolError<E> {
    /// No connection was idle and the pool already holds as many as it may.
    CapacityExceeded,
    /// Opening a connection took longer than the time allowed for it.
    AcquireTimeout,
    /// The manager could not open a connection; its error is carried as it came.
    ConnectFailed(E),
}

} // verus!
