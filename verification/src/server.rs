//! The server of one session: it listens, accepts a single connection, and
//! stops listening.
//!
//! The server decides; binding, accepting, the TLS handshake and the timers
//! are its driver's. `H` is the driver's handle on a connection.

use crate::error::{SocketError, SocketResult};
use crate::protocol::PacketType;
use crate::session::{ServerHandle, SessionHandle};
use crate::tls::{is_fingerprint_text, lower_text, FingerprintVerifier};
use vstd::prelude::*;
use vstd::slice::slice_to_vec;
use vstd::string::StringExecFns;

verus! {

/// Seconds that the TLS handshake with an accepted peer may take.
pub const TLS_HANDSHAKE_TIMEOUT_SECS: u64 = 5;

/// The longest payload that is shown with a received packet.
pub const DISPLAY_PAYLOAD_LIMIT: usize = 1024;

/// How long a server waits, and where it listens.
#[derive(Debug, Clone)]
pub struct ConnectionServerConfig {
    /// Seconds to wait for the one connection.
    pub connection_timeout_secs: u64,
    /// Seconds without a packet after which the session ends.
    pub idle_timeout_secs: u64,
    pub bind_address: String,
}

impl Default for ConnectionServerConfig {
    fn default() -> (c: Self)
        ensures
            c.connection_timeout_secs == 30,
            c.idle_timeout_secs == 300,
            c.bind_address@ == "0.0.0.0:0"@,
    {
        ConnectionServerConfig {
            connection_timeout_secs: 30,
            idle_timeout_secs: 300,
            bind_address: String::from_str("0.0.0.0:0"),
        }
    }
}

/// What a server tells whoever watches it.
#[derive(Debug)]
pub enum ConnectionEvent {
    Connected { id: String, address: String },
    Disconnected { id: String, reason: String },
    DataReceived { id: String, packet_type: PacketType, data: Vec<u8> },
}

/// The payload as it is shown with a received packet: nothing in place of
/// one that is longer than the limit.
pub open spec fn display_data(payload: Seq<u8>) -> Seq<u8> {
    if payload.len() > DISPLAY_PAYLOAD_LIMIT {
        Seq::<u8>::empty()
    } else {
        payload
    }
}

/// The event for a packet that was received. Chunks of file data are not
/// shown: there are too many of them.
pub fn data_received_event(conn_id: &str, packet_type: PacketType, payload: &[u8]) -> (event:
    Option<ConnectionEvent>)
    ensures
        match event {
            Some(ConnectionEvent::DataReceived { id, packet_type: t, data }) => packet_type
                != PacketType::FileChunk && id@ == conn_id@ && t == packet_type && data@
                == display_data(payload@),
            Some(_) => false,
            None => packet_type == PacketType::FileChunk,
        },
{
    if packet_type == PacketType::FileChunk {
        return None;
    }
    let data = if payload.len() > DISPLAY_PAYLOAD_LIMIT {
        Vec::new()
    } else {
        slice_to_vec(payload)
    };
    Some(ConnectionEvent::DataReceived { id: String::from_str(conn_id), packet_type, data })
}

/// The event for a session that has ended.
pub fn disconnected_event(conn_id: &str) -> (event: ConnectionEvent)
    ensures
        event matches ConnectionEvent::Disconnected { id, reason } && id@ == conn_id@ && reason@
            == "Session ended"@,
{
    ConnectionEvent::Disconnected {
        id: String::from_str(conn_id),
        reason: String::from_str("Session ended"),
    }
}

/// How an attempt to accept a connection ended.
#[derive(Debug, Clone, Copy, PartialEq, Eq, Structural)]
pub enum AcceptResult {
    Accepted,
    Failed,
    TimedOut,
}

/// What to do with the outcome of an accept.
#[derive(Debug, Clone, Copy, PartialEq, Eq, Structural)]
pub enum AcceptPlan {
    /// Run the TLS handshake within the given seconds; a handshake that
    /// fails or takes longer ends the session before it began.
    Handshake { timeout_secs: u64 },
    /// Go on without TLS: the server has no certificate to pin.
    Plain,
    /// Nobody connected.
    Abandon,
}

/// What to do about a request to start.
#[derive(Debug)]
pub enum StartPlan {
    /// The server is listening already, on this port.
    AlreadyRunning { port: u16 },
    /// Bind this address, then report the port with `listening`.
    Bind { address: String },
}

/// A server as contracts see it.
pub struct ServerView<H> {
    pub connection_timeout_secs: u64,
    pub idle_timeout_secs: u64,
    pub bind_address: Seq<char>,
    /// The fingerprint that a client's certificate must have.
    pub pinned: Option<Seq<char>>,
    pub connection: Option<H>,
    pub running: bool,
    pub port: u16,
}

/// The state of one server: its configuration, the pin for its client,
/// whether and where it listens, and the connection it has.
pub struct SocketServer<H> {
    config: ConnectionServerConfig,
    verifier: Option<FingerprintVerifier>,
    connection: Option<H>,
    is_running: bool,
    listening_port: u16,
}

impl<H> View for SocketServer<H> {
    type V = ServerView<H>;

    closed spec fn view(&self) -> ServerView<H> {
        ServerView {
            connection_timeout_secs: self.config.connection_timeout_secs,
            idle_timeout_secs: self.config.idle_timeout_secs,
            bind_address: self.config.bind_address@,
            pinned: match self.verifier {
                Some(v) => Some(v.expected_fingerprint@),
                None => None,
            },
            connection: self.connection,
            running: self.is_running,
            port: self.listening_port,
        }
    }
}

/// The pin that a server keeps of the fingerprint it is given: the
/// fingerprint in lower case, or none if it is not a fingerprint.
pub open spec fn pin_of(fingerprint: Seq<char>) -> Option<Seq<char>> {
    if is_fingerprint_text(fingerprint) {
        Some(lower_text(fingerprint))
    } else {
        None
    }
}

impl<H: SessionHandle> SocketServer<H> {
    /// A server with the default configuration that expects the client with
    /// the given fingerprint.
    pub fn new(expected_fingerprint: String) -> (s: Self)
        ensures
            s@ == (ServerView::<H> {
                connection_timeout_secs: 30,
                idle_timeout_secs: 300,
                bind_address: "0.0.0.0:0"@,
                pinned: pin_of(expected_fingerprint@),
                connection: None,
                running: false,
                port: 0,
            }),
    {
        Self::with_config(expected_fingerprint, ConnectionServerConfig::default())
    }

    /// A server that expects the client with the given fingerprint. It
    /// neither listens nor has a connection yet.
    pub fn with_config(expected_fingerprint: String, config: ConnectionServerConfig) -> (s: Self)
        ensures
            s@ == (ServerView::<H> {
                connection_timeout_secs: config.connection_timeout_secs,
                idle_timeout_secs: config.idle_timeout_secs,
                bind_address: config.bind_address@,
                pinned: pin_of(expected_fingerprint@),
                connection: None,
                running: false,
                port: 0,
            }),
    {
        let verifier = match FingerprintVerifier::new(expected_fingerprint) {
            Ok(v) => Some(v),
            Err(_) => None,
        };
        SocketServer { config, verifier, connection: None, is_running: false, listening_port: 0 }
    }

    /// The verifier for the client's certificate, if the server has a pin.
    pub fn client_verifier(&self) -> (v: &Option<FingerprintVerifier>)
        ensures
            match *v {
                Some(f) => self@.pinned == Some(f.expected_fingerprint@),
                None => self@.pinned is None,
            },
    {
        &self.verifier
    }

    pub fn port(&self) -> (p: u16)
        ensures
            p == self@.port,
    {
        self.listening_port
    }

    pub fn listening_port(&self) -> (p: u16)
        ensures
            p == self@.port,
    {
        self.listening_port
    }

    pub fn is_running(&self) -> (b: bool)
        ensures
            b == self@.running,
    {
        self.is_running
    }

    /// Seconds to wait for the one connection.
    pub fn connection_timeout_secs(&self) -> (t: u64)
        ensures
            t == self@.connection_timeout_secs,
    {
        self.config.connection_timeout_secs
    }

    /// Seconds without a packet after which the session ends.
    pub fn idle_timeout_secs(&self) -> (t: u64)
        ensures
            t == self@.idle_timeout_secs,
    {
        self.config.idle_timeout_secs
    }

    /// Whether the server has a connection that is not closing.
    pub fn has_active_connection(&self) -> (b: bool)
        ensures
            b == (self@.connection matches Some(c) && !c.closing()),
    {
        match &self.connection {
            Some(c) => !c.is_closing(),
            None => false,
        }
    }

    /// Decides what a start has to do: nothing if the server is listening,
    /// else bind the configured address.
    pub fn start(&self) -> (plan: StartPlan)
        ensures
            match plan {
                StartPlan::AlreadyRunning { port } => self@.running && port == self@.port,
                StartPlan::Bind { address } => !self@.running && address@ == self@.bind_address,
            },
    {
        if self.is_running {
            StartPlan::AlreadyRunning { port: self.listening_port }
        } else {
            StartPlan::Bind { address: self.config.bind_address.clone() }
        }
    }

    /// Takes note that the server listens on a port.
    pub fn listening(&mut self, port: u16)
        ensures
            final(self)@ == (ServerView { running: true, port, ..old(self)@ }),
    {
        self.listening_port = port;
        self.is_running = true;
    }

    /// Takes note of how the wait for the one connection ended. The server
    /// listens no longer, however it ended. A peer that connected is to
    /// prove itself by a TLS handshake if the server has a pin.
    pub fn accept_finished(&mut self, result: AcceptResult) -> (plan: AcceptPlan)
        ensures
            final(self)@ == (ServerView { running: false, port: 0, ..old(self)@ }),
            plan == match result {
                AcceptResult::Accepted => if old(self)@.pinned is Some {
                    AcceptPlan::Handshake { timeout_secs: TLS_HANDSHAKE_TIMEOUT_SECS }
                } else {
                    AcceptPlan::Plain
                },
                _ => AcceptPlan::Abandon,
            },
    {
        self.listening_port = 0;
        self.is_running = false;
        match result {
            AcceptResult::Accepted => {
                if self.verifier.is_some() {
                    AcceptPlan::Handshake { timeout_secs: TLS_HANDSHAKE_TIMEOUT_SECS }
                } else {
                    AcceptPlan::Plain
                }
            },
            _ => AcceptPlan::Abandon,
        }
    }

    /// Takes the connection with the peer into keeping.
    pub fn connection_established(&mut self, connection: H)
        ensures
            final(self)@ == (ServerView { connection: Some(connection), ..old(self)@ }),
    {
        self.connection = Some(connection);
    }

    /// Stops the server: it listens no longer, and the connection it had is
    /// handed out to be closed.
    pub fn stop(&mut self) -> (connection: Option<H>)
        ensures
            connection == old(self)@.connection,
            final(self)@ == (ServerView {
                running: false,
                port: 0,
                connection: None,
                ..old(self)@
            }),
    {
        self.is_running = false;
        let connection = self.connection.take();
        self.listening_port = 0;
        connection
    }

    /// The connection to send on, if there is one.
    pub fn send(&self) -> (res: SocketResult<&H>)
        ensures
            match res {
                Ok(c) => self@.connection == Some(*c),
                Err(e) => self@.connection is None && e is NotConnected,
            },
    {
        match &self.connection {
            Some(c) => Ok(c),
            None => Err(SocketError::NotConnected),
        }
    }
}

impl<H: SessionHandle> ServerHandle for SocketServer<H> {
    open spec fn running(&self) -> bool {
        self@.running
    }

    open spec fn holds_connection(&self) -> bool {
        self@.connection is Some
    }

    open spec fn active_connection(&self) -> bool {
        self@.connection matches Some(c) && !c.closing()
    }

    fn is_running(&self) -> (b: bool) {
        SocketServer::is_running(self)
    }

    fn has_connection(&self) -> (b: bool) {
        self.connection.is_some()
    }

    fn has_active_connection(&self) -> (b: bool) {
        SocketServer::has_active_connection(self)
    }
}

} // verus!
