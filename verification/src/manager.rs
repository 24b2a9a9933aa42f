use vstd::prelude::*;

verus! {

/// What the pool needs from a resource: a way to open a connection and a way
/// to tell whether one is still good.  The pool promises nothing of either
/// and is verified for whatever they return.
pub trait ManageConnection: Send + Sync + 'static {
    /// The connection type this manager deals with.
    type Connection: Send + 'static;

    /// The error of a connection that could not be opened or is broken.
    type Error;

    /// Attempts to create a new connection.
    fn connect(&self) -> (dialed: Result<Self::Connection, Self::Error>);

    /// Checks whether an idle connection is still valid; an error has the
    /// connection evicted.
    fn check(&self, conn: &mut Self::Connection) -> (checked: Result<(), Self::Error>);
}

} // verus!
