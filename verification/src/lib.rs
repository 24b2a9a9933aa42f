//! A generic connection pool.
//!
//! The pool keeps a bounded set of reusable connections to one resource and
//! knows nothing of the resource's protocol: an implementor of
//! [`ManageConnection`] opens connections and checks their health.
//!
//! The heart of the crate is [`PoolInternals`], the registry of idle
//! connections together with the count of live ones.  Every transition of it
//! is specified over [`PoolModel`], its mathematical view, and the invariants
//! of the pool are proved for every run of transitions in [`laws`].  [`Pool`]
//! drives the transitions for a blocking [`ManageConnection`]; a caller that
//! dials or probes elsewhere (on an executor, under a lock) drives them itself,
//! one step at a time.
//!
//! All instants and durations are microseconds of one monotonic clock.

pub mod builder;
pub mod clock;
pub mod dial;
pub mod entry;
pub mod error;
pub mod laws;
pub mod manager;
pub mod model;
pub mod pool;
pub mod state;

pub use crate::builder::Builder;
pub use crate::dial::DialOutcome;
pub use crate::entry::IdleConn;
pub use crate::error::PoolError;
pub use crate::laws::Transition;
pub use crate::manager::ManageConnection;
pub use crate::model::PoolModel;
pub use crate::pool::{Connection, Pool};
pub use crate::state::{CheckStep, GetStep, PoolInternals};
