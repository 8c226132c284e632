//! A builder for a server that will dispatch decoded messages.
//!
//! The codec itself holds no method registry; registering handlers
//! binds it to the host's notion of a callable method and lives with
//! the dispatch layer.

use vstd::prelude::*;

verus! {

/// Builds a [`Server`].
pub struct ServerBuilder {}

impl ServerBuilder {
    /// A builder with nothing registered.
    pub fn new() -> (r: Self)
        ensures
            r == (ServerBuilder {  }),
    {
        Self {  }
    }

    /// Finish building.
    pub fn build(self) -> (r: Server)
        ensures
            r == (Server {  }),
    {
        Server {  }
    }
}

impl Default for ServerBuilder {
    fn default() -> (r: Self)
        ensures
            r == (ServerBuilder {  }),
    {
        Self::new()
    }
}

/// A server over the message codec.
pub struct Server {}

} // verus!
