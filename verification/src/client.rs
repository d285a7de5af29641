//! The client of one session: it dials a peer, keeps the connection, and
//! reads what the peer answers to its login.
//!
//! The client decides; dialling, the TLS handshake and the timers are its
//! driver's. `H` is the driver's handle on a connection.

use crate::binary::{decode_string, BinaryReader};
use crate::config::SocketClientConfig;
use crate::error::{SocketError, SocketResult};
use crate::protocol::PacketType;
use crate::session::{ClientHandle, SessionHandle};
use crate::text::{before_colon, text_before_colon};
use vstd::prelude::*;
use vstd::string::StringExecFns;

verus! {

/// Seconds that establishing the TCP connection may take.
pub const CONNECT_TIMEOUT_SECS: u64 = 10;

/// Seconds between two heartbeats of an authenticated client.
pub const HEARTBEAT_INTERVAL_SECS: u64 = 15;

/// How the connection is to be secured.
#[derive(Debug)]
pub struct TlsPlan {
    /// The name that the peer's certificate is asked for: the host of the
    /// target address.
    pub domain: String,
    /// The fingerprint to pin the peer's certificate to; without one, the
    /// system's root certificates decide.
    pub fingerprint: Option<String>,
}

/// What a connect has to do.
#[derive(Debug)]
pub struct DialPlan {
    pub address: String,
    pub timeout_secs: u64,
    /// How to secure the connection; plain TCP if not at all.
    pub tls: Option<TlsPlan>,
}

/// What the peer answered to a login.
#[derive(Debug)]
pub enum AuthReply {
    /// The login was accepted; the user's record follows as JSON text.
    Accepted { user_json: String },
    /// The login was refused, for the given reason.
    Rejected { reason: String },
}

/// The text of the string that begins the bytes, or a text to stand in for
/// it where no string can be read.
pub open spec fn string_or(rest: Seq<u8>, otherwise: Seq<char>) -> Seq<char> {
    match decode_string(rest) {
        Some((text, _)) => text,
        None => otherwise,
    }
}

/// Reads the answer to a login: a status byte, then a string. Status 1
/// accepts, and the string is the user's record, empty if it cannot be read.
/// Any other status refuses, and so does a missing one; the string is the
/// reason, "Unknown error" if it cannot be read.
pub fn parse_auth_response(payload: &[u8]) -> (reply: AuthReply)
    ensures
        match reply {
            AuthReply::Accepted { user_json } => payload@.len() >= 1 && payload@[0] == 1
                && user_json@ == string_or(payload@.skip(1), Seq::<char>::empty()),
            AuthReply::Rejected { reason } => if payload@.len() >= 1 {
                payload@[0] != 1 && reason@ == string_or(payload@.skip(1), "Unknown error"@)
            } else {
                reason@ == "Unknown error"@
            },
        },
{
    let mut reader = BinaryReader::new(payload);
    let status = reader.read_u8();
    proof {
        if payload@.len() >= 1 {
            assert(reader.rest() =~= payload@.skip(1));
        } else {
            assert(decode_string(reader.rest()) is None);
        }
    }
    match status {
        Ok(1) => {
            let user_json = match reader.read_string() {
                Ok(text) => text,
                Err(_) => String::new(),
            };
            AuthReply::Accepted { user_json }
        },
        _ => {
            let reason = match reader.read_string() {
                Ok(text) => text,
                Err(_) => String::from_str("Unknown error"),
            };
            AuthReply::Rejected { reason }
        },
    }
}

/// What the heartbeat loop is to do at a tick.
pub enum HeartbeatStep<'a, H> {
    /// The client is not running: the loop ends.
    Stop,
    /// The peer has not authenticated: nothing is sent at this tick.
    Skip,
    /// A heartbeat is to be sent on this connection; the loop ends if that
    /// fails.
    Send(&'a H),
}

/// A client as contracts see it.
pub struct ClientView<H> {
    pub config: SocketClientConfig,
    pub connection: Option<H>,
    pub running: bool,
}

/// The state of one client: its configuration, the connection it has, and
/// whether it runs.
pub struct SocketClient<H> {
    config: SocketClientConfig,
    connection: Option<H>,
    is_running: bool,
}

impl<H> View for SocketClient<H> {
    type V = ClientView<H>;

    closed spec fn view(&self) -> ClientView<H> {
        ClientView { config: self.config, connection: self.connection, running: self.is_running }
    }
}

impl<H: SessionHandle> SocketClient<H> {
    /// Whether the client has a connection that is not closing.
    pub open spec fn spec_connected(&self) -> bool {
        self@.connection matches Some(c) && !c.closing()
    }

    /// Whether the client has a connection whose peer has authenticated.
    pub open spec fn spec_authenticated(&self) -> bool {
        self@.connection matches Some(c) && c.authenticated()
    }

    pub fn new(config: SocketClientConfig) -> (c: Self)
        ensures
            c@.config == config,
            c@.connection is None,
            !c@.running,
    {
        SocketClient { config, connection: None, is_running: false }
    }

    pub fn config(&self) -> (c: &SocketClientConfig)
        ensures
            *c == self@.config,
    {
        &self.config
    }

    pub fn is_connected(&self) -> (b: bool)
        ensures
            b == self.spec_connected(),
    {
        match &self.connection {
            Some(c) => !c.is_closing(),
            None => false,
        }
    }

    pub fn is_authenticated(&self) -> (b: bool)
        ensures
            b == self.spec_authenticated(),
    {
        match &self.connection {
            Some(c) => c.is_authenticated(),
            None => false,
        }
    }

    /// Decides what a connect has to do. A client that is connected does not
    /// connect again. With TLS, the peer is asked for the host of the target
    /// address, and its certificate is pinned if the configuration has a
    /// fingerprint.
    pub fn connect(&self) -> (res: SocketResult<DialPlan>)
        ensures
            match res {
                Err(e) => self.spec_connected() && e is AlreadyConnected,
                Ok(plan) => {
                    &&& !self.spec_connected()
                    &&& plan.address@ == self@.config.target_address@
                    &&& plan.timeout_secs == CONNECT_TIMEOUT_SECS
                    &&& match plan.tls {
                        None => !self@.config.use_tls,
                        Some(tls) => self@.config.use_tls && tls.domain@ == text_before_colon(
                            self@.config.target_address@,
                        ) && tls.fingerprint == self@.config.fingerprint,
                    }
                },
            },
    {
        if self.is_connected() {
            return Err(SocketError::AlreadyConnected);
        }
        let tls = if self.config.use_tls {
            let fingerprint = match &self.config.fingerprint {
                Some(f) => Some(f.clone()),
                None => None,
            };
            Some(TlsPlan { domain: before_colon(self.config.target_address.as_str()), fingerprint })
        } else {
            None
        };
        Ok(DialPlan { address: self.config.target_address.clone(), timeout_secs: CONNECT_TIMEOUT_SECS, tls })
    }

    /// Takes the connection with the peer into keeping: the client runs.
    pub fn connected(&mut self, connection: H)
        ensures
            final(self)@ == (ClientView {
                connection: Some(connection),
                running: true,
                ..old(self)@
            }),
    {
        self.connection = Some(connection);
        self.is_running = true;
    }

    /// Takes note that the connection has ended. Says whether the client was
    /// running, that is, whether the connection was lost rather than given
    /// up.
    pub fn connection_lost(&mut self) -> (was_running: bool)
        ensures
            was_running == old(self)@.running,
            final(self)@ == (ClientView { connection: None, running: false, ..old(self)@ }),
    {
        let was_running = self.is_running;
        self.is_running = false;
        self.connection = None;
        was_running
    }

    /// Gives the connection up: the client runs no longer, and the connection
    /// it had is handed out to be closed.
    pub fn disconnect(&mut self) -> (connection: Option<H>)
        ensures
            connection == old(self)@.connection,
            final(self)@ == (ClientView { connection: None, running: false, ..old(self)@ }),
    {
        self.is_running = false;
        self.connection.take()
    }

    /// The connection to send on, if there is one.
    pub fn get_connection(&self) -> (res: SocketResult<&H>)
        ensures
            match res {
                Ok(c) => self@.connection == Some(*c),
                Err(e) => self@.connection is None && e is NotConnected,
            },
    {
        match &self.connection {
            Some(c) => Ok(c),
            None => Err(SocketError::NotConnected),
        }
    }

    /// Whether a packet is the answer to a login, which the client reads
    /// itself; every other packet goes to the router.
    pub fn handles_itself(packet_type: PacketType) -> (b: bool)
        ensures
            b == (packet_type == PacketType::AuthLoginResponse),
    {
        packet_type == PacketType::AuthLoginResponse
    }

    /// Decides what the heartbeat loop does at a tick.
    pub fn heartbeat_step(&self) -> (step: HeartbeatStep<'_, H>)
        ensures
            match step {
                HeartbeatStep::Stop => !self@.running,
                HeartbeatStep::Skip => self@.running && !self.spec_authenticated(),
                HeartbeatStep::Send(c) => self@.running && self.spec_authenticated()
                    && self@.connection == Some(*c),
            },
    {
        if !self.is_running {
            return HeartbeatStep::Stop;
        }
        if !self.is_authenticated() {
            return HeartbeatStep::Skip;
        }
        match &self.connection {
            Some(c) => HeartbeatStep::Send(c),
            None => HeartbeatStep::Stop,
        }
    }
}

impl<H: SessionHandle> ClientHandle for SocketClient<H> {
    open spec fn connected(&self) -> bool {
        self.spec_connected()
    }

    open spec fn authenticated(&self) -> bool {
        self.spec_authenticated()
    }

    fn is_connected(&self) -> (b: bool) {
        SocketClient::is_connected(self)
    }

    fn is_authenticated(&self) -> (b: bool) {
        SocketClient::is_authenticated(self)
    }
}

} // verus!
