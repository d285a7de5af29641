//! The error taxonomy of the transport, and how failures of the operating
//! system's I/O are folded into it.

use crate::text::{concat2, concat3, decimal_string, decimal_text, hex_upper_string, hex_upper_text};
use vstd::prelude::*;
use vstd::string::StringExecFns;

verus! {

/// What the transport can report to its callers.
pub type SocketResult<T> = Result<T, SocketError>;

/// The kinds of I/O failure that the transport tells apart.
#[derive(Debug, Clone, Copy, PartialEq, Eq, Structural)]
pub enum IoErrorKind {
    ConnectionReset,
    ConnectionAborted,
    BrokenPipe,
    TimedOut,
    UnexpectedEof,
    Other,
}

/// An I/O failure: its kind and the operating system's description of it.
#[derive(Debug)]
pub struct IoFailure {
    pub kind: IoErrorKind,
    pub message: String,
}

/// What can go wrong in the transport.
#[derive(Debug)]
pub enum SocketError {
    Io(IoFailure),
    ConnectionClosed,
    Timeout,
    ParseError(String),
    AuthenticationFailed(String),
    NotConnected,
    AlreadyConnected,
    InvalidPacketType(u8),
    PacketTooLarge(usize),
    ServerError(String),
    ChannelError(String),
    ConfigError(String),
    SendFailed(String),
}

/// An error together with a description of what was being done when it
/// occurred.
#[derive(Debug)]
pub struct ContextError {
    pub context: String,
    pub source: SocketError,
}

impl SocketError {
    /// The human-readable description of the error.
    pub open spec fn message_text(self) -> Seq<char> {
        match self {
            SocketError::Io(e) => "IO error: "@ + e.message@,
            SocketError::ConnectionClosed => "Connection closed"@,
            SocketError::Timeout => "Connection timed out"@,
            SocketError::ParseError(m) => "Parse error: "@ + m@,
            SocketError::AuthenticationFailed(m) => "Authentication failed: "@ + m@,
            SocketError::NotConnected => "Not connected to server"@,
            SocketError::AlreadyConnected => "Already connected"@,
            SocketError::InvalidPacketType(b) => "Invalid packet type: 0x"@ + hex_upper_text(b),
            SocketError::PacketTooLarge(n) => "Packet too large: "@ + decimal_text(n as nat)
                + " bytes"@,
            SocketError::ServerError(m) => "Server error: "@ + m@,
            SocketError::ChannelError(m) => "Channel error: "@ + m@,
            SocketError::ConfigError(m) => "Configuration error: "@ + m@,
            SocketError::SendFailed(m) => "Send failed: "@ + m@,
        }
    }

    pub fn parse(msg: &str) -> (res: Self)
        ensures
            res matches SocketError::ParseError(m) && m@ == msg@,
    {
        SocketError::ParseError(String::from_str(msg))
    }

    pub fn server(msg: &str) -> (res: Self)
        ensures
            res matches SocketError::ServerError(m) && m@ == msg@,
    {
        SocketError::ServerError(String::from_str(msg))
    }

    pub fn config(msg: &str) -> (res: Self)
        ensures
            res matches SocketError::ConfigError(m) && m@ == msg@,
    {
        SocketError::ConfigError(String::from_str(msg))
    }

    pub fn auth_failed(reason: &str) -> (res: Self)
        ensures
            res matches SocketError::AuthenticationFailed(m) && m@ == reason@,
    {
        SocketError::AuthenticationFailed(String::from_str(reason))
    }

    /// The error that an I/O failure becomes: a connection that was reset,
    /// aborted or whose pipe broke is closed, a timeout is a timeout, and
    /// anything else stays an I/O error.
    pub open spec fn of_io(e: IoFailure) -> SocketError {
        match e.kind {
            IoErrorKind::ConnectionReset
            | IoErrorKind::ConnectionAborted
            | IoErrorKind::BrokenPipe => SocketError::ConnectionClosed,
            IoErrorKind::TimedOut => SocketError::Timeout,
            _ => SocketError::Io(e),
        }
    }

    pub fn from_io(e: IoFailure) -> (res: Self)
        ensures
            res == SocketError::of_io(e),
    {
        match e.kind {
            IoErrorKind::ConnectionReset
            | IoErrorKind::ConnectionAborted
            | IoErrorKind::BrokenPipe => SocketError::ConnectionClosed,
            IoErrorKind::TimedOut => SocketError::Timeout,
            _ => SocketError::Io(e),
        }
    }

    /// The description of the error, as it is shown to a user.
    pub fn message(&self) -> (res: String)
        ensures
            res@ == self.message_text(),
    {
        match self {
            SocketError::Io(e) => concat2("IO error: ", e.message.as_str()),
            SocketError::ConnectionClosed => String::from_str("Connection closed"),
            SocketError::Timeout => String::from_str("Connection timed out"),
            SocketError::ParseError(m) => concat2("Parse error: ", m.as_str()),
            SocketError::AuthenticationFailed(m) => concat2("Authentication failed: ", m.as_str()),
            SocketError::NotConnected => String::from_str("Not connected to server"),
            SocketError::AlreadyConnected => String::from_str("Already connected"),
            SocketError::InvalidPacketType(b) => {
                let digits = hex_upper_string(*b);
                concat2("Invalid packet type: 0x", digits.as_str())
            },
            SocketError::PacketTooLarge(n) => {
                let size = decimal_string(*n as u64);
                concat3("Packet too large: ", size.as_str(), " bytes")
            },
            SocketError::ServerError(m) => concat2("Server error: ", m.as_str()),
            SocketError::ChannelError(m) => concat2("Channel error: ", m.as_str()),
            SocketError::ConfigError(m) => concat2("Configuration error: ", m.as_str()),
            SocketError::SendFailed(m) => concat2("Send failed: ", m.as_str()),
        }
    }
}

/// Folding an I/O result into the transport's error taxonomy.
pub trait IoResultExt<T> {
    fn map_socket_io(self) -> SocketResult<T>;
}

impl<T> IoResultExt<T> for Result<T, IoFailure> {
    fn map_socket_io(self) -> (res: SocketResult<T>)
        ensures
            res == match self {
                Ok(v) => Ok::<T, SocketError>(v),
                Err(e) => Err::<T, SocketError>(SocketError::of_io(e)),
            },
    {
        match self {
            Ok(v) => Ok(v),
            Err(e) => Err(SocketError::from_io(e)),
        }
    }
}

/// Attaching to a failure what was being done when it occurred.
pub trait SocketResultExt<T> {
    fn with_connection_context(self, conn_id: &str) -> Result<T, ContextError>;

    fn with_packet_context(self, packet_type: &str) -> Result<T, ContextError>;
}

impl<T> SocketResultExt<T> for Result<T, SocketError> {
    fn with_connection_context(self, conn_id: &str) -> (res: Result<T, ContextError>)
        ensures
            match self {
                Ok(v) => res == Ok::<T, ContextError>(v),
                Err(e) => res matches Err(c) && c.source == e && c.context@ == "connection '"@
                    + conn_id@ + "'"@,
            },
    {
        match self {
            Ok(v) => Ok(v),
            Err(e) => Err(ContextError { context: concat3("connection '", conn_id, "'"), source: e }),
        }
    }

    fn with_packet_context(self, packet_type: &str) -> (res: Result<T, ContextError>)
        ensures
            match self {
                Ok(v) => res == Ok::<T, ContextError>(v),
                Err(e) => res matches Err(c) && c.source == e && c.context@
                    == "processing packet '"@ + packet_type@ + "'"@,
            },
    {
        match self {
            Ok(v) => Ok(v),
            Err(e) => Err(
                ContextError {
                    context: concat3("processing packet '", packet_type, "'"),
                    source: e,
                },
            ),
        }
    }
}

} // verus!
