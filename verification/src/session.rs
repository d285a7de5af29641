//! What registries need to know of the connections, clients and servers
//! that they hold.

use crate::connection::{Connection, ConnectionState};
use vstd::prelude::*;

verus! {

/// A connection as a client, a server or a registry sees it.
pub trait SessionHandle {
    spec fn closing(&self) -> bool;

    spec fn authenticated(&self) -> bool;

    /// Whether the connection is closing or closed.
    fn is_closing(&self) -> (b: bool)
        ensures
            b == self.closing(),
    ;

    /// Whether the peer has authenticated.
    fn is_authenticated(&self) -> (b: bool)
        ensures
            b == self.authenticated(),
    ;
}

impl<R, C> SessionHandle for Connection<R, C> {
    open spec fn closing(&self) -> bool {
        self@.closing
    }

    open spec fn authenticated(&self) -> bool {
        self@.state == ConnectionState::Authenticated
    }

    fn is_closing(&self) -> (b: bool) {
        Connection::is_closing(self)
    }

    fn is_authenticated(&self) -> (b: bool) {
        Connection::is_authenticated(self)
    }
}

/// A client as a registry sees it.
pub trait ClientHandle {
    spec fn connected(&self) -> bool;

    spec fn authenticated(&self) -> bool;

    /// Whether the client has a connection that is not closing.
    fn is_connected(&self) -> (b: bool)
        ensures
            b == self.connected(),
    ;

    /// Whether the client has a connection whose peer has authenticated.
    fn is_authenticated(&self) -> (b: bool)
        ensures
            b == self.authenticated(),
    ;
}

/// A server as a registry sees it.
pub trait ServerHandle {
    spec fn running(&self) -> bool;

    spec fn holds_connection(&self) -> bool;

    spec fn active_connection(&self) -> bool;

    /// Whether the server is listening.
    fn is_running(&self) -> (b: bool)
        ensures
            b == self.running(),
    ;

    /// Whether the server has accepted a connection and not given it up.
    fn has_connection(&self) -> (b: bool)
        ensures
            b == self.holds_connection(),
    ;

    /// Whether the server has a connection that is not closing.
    fn has_active_connection(&self) -> (b: bool)
        ensures
            b == self.active_connection(),
    ;
}

} // verus!
